use one_engine::api::codex::{top_n, CountedItem};
use one_engine::api::{
    accept_async, accept_async_with, clamp_limit, clamp_u64, clear_active_run, demo_wait_script,
    emit_progress, failed_run, finish_demo_wait, inject_run_id, is_safe_segment,
    keepalive_payload, passes_filter, phase_event, plan_demo_wait, receipt_bundle, receipt_dir,
    render_receipt_md, resolve_policy, resolve_run_id, run_async_resp_json, run_resp_json,
    set_active_run, ActiveRuns, UserContext,
};
use one_engine::engine::graphs::{thread_graph, thread_graph_with_opts, ThreadGraphOpts};
use one_engine::engine::golden::{bits_valid, parse_bits, validate_golden, GoldenCaseRaw};
use one_engine::engine::types::{Bits, Policy};
use one_engine::json::Json;
use one_engine::research::{build_index_multi, ResearchArtifact};

fn obj(entries: Vec<(&str, Json)>) -> Json {
    Json::Object(entries.into_iter().map(|(k, v)| (k.to_string(), v)).collect())
}

fn text(s: &str) -> Json {
    Json::Text(s.to_string())
}

#[test]
fn safe_segments() {
    assert!(is_safe_segment("r-demo-123"));
    assert!(is_safe_segment("a.b_c-D9"));
    assert!(is_safe_segment("."));
    assert!(!is_safe_segment("../etc"));
    assert!(!is_safe_segment("a/b"));
    assert!(!is_safe_segment(""));
    assert!(!is_safe_segment(".."));
    assert!(!is_safe_segment("a..b"));
    assert!(!is_safe_segment("a\\b"));
    assert!(!is_safe_segment("a b"));
    assert!(!is_safe_segment("é"));
}

#[test]
fn unsafe_identifiers_get_no_receipt() {
    let bits = Bits::init();
    let ev = obj(vec![]);
    for id in ["../etc", "a/b", ""] {
        assert!(receipt_bundle(id, "g", &bits, &vec![], &ev, false, "{}", "{}").is_none());
        assert!(receipt_dir("/srv", id).is_none());
    }
    assert_eq!(receipt_dir("/srv", "r-1"), Some("/srv/runs/receipts/r-1".to_string()));
    assert_eq!(receipt_dir(".", "r-1"), Some("./runs/receipts/r-1".to_string()));
}

#[test]
fn run_identifiers_are_resolved() {
    assert_eq!(resolve_run_id(Some("wiki-example"), "u"), "wiki-example");
    assert_eq!(resolve_run_id(Some("../x"), "u"), "r-u");
    assert_eq!(resolve_run_id(None, "u"), "r-u");
}

#[test]
fn a_receipt_holds_what_the_evidence_has() {
    let mut bits = Bits::init();
    bits.u = 200_000;
    bits.t = 950_000;
    let ev = obj(vec![
        ("stdout", text("hello\n")),
        ("reply", text("  ")),
        ("actual_success", Json::Bool(true)),
        ("index_html_url", text("/runs/wiki/w/index.html")),
    ]);
    let deliverables = vec!["a.txt".to_string(), "b.txt".to_string()];
    let files = receipt_bundle("r-1", "demo", &bits, &deliverables, &ev, false, "REQ", "RESP")
        .expect("a receipt");
    let names: Vec<&str> = files.iter().map(|f| f.name.as_str()).collect();
    assert_eq!(names, vec!["request.json", "response.json", "stdout.txt", "RECEIPT.md"]);
    assert_eq!(files[0].content, "REQ");
    assert_eq!(files[1].content, "RESP");
    assert_eq!(files[2].content, "hello\n");
    let md = "# RECEIPT\n\n- run_id: `r-1`\n- goal_id: `demo`\n- success: `true`\n\
- bits: a=1 u=0.2 p=1 e=0 d=0 i=0 r=0 t=0.95 m=0\n- view: `/runs/wiki/w/index.html`\n\n## Files\n\
- request: `/runs/receipts/r-1/request.json`\n- response: `/runs/receipts/r-1/response.json`\n\
- receipt: `/runs/receipts/r-1/RECEIPT.md`\n- stdout: `/runs/receipts/r-1/stdout.txt`\n\n\
## Deliverables\n- a.txt\n- b.txt\n";
    assert_eq!(files[3].content, md);
    assert_eq!(render_receipt_md("r-1", "demo", &bits, &deliverables, &ev, false), md);
}

#[test]
fn a_receipt_without_evidence_falls_back_to_the_default() {
    let bits = Bits::init();
    let ev = obj(vec![("reply", text("ok")), ("static_html_url", text("/s")), ("index_html_url", text("/i"))]);
    let md = render_receipt_md("r", "g", &bits, &vec![], &ev, true);
    assert!(md.contains("- success: `true`\n"));
    assert!(md.contains("- view: `/s`\n"));
    assert!(md.contains("- reply: `/runs/receipts/r/reply.txt`\n"));
    assert!(!md.contains("stdout"));
    assert!(!md.contains("Deliverables"));
    let md = render_receipt_md("r", "g", &bits, &vec![], &obj(vec![]), false);
    assert!(md.contains("- success: `false`\n"));
    assert!(!md.contains("view"));
    let files = receipt_bundle("r", "g", &bits, &vec![], &ev, true, "a", "b").expect("a receipt");
    assert_eq!(files.len(), 4);
    assert_eq!(files[2].name, "reply.txt");
    assert_eq!(files[2].content, "ok");
}

#[test]
fn the_registry_keeps_each_run_once() {
    let mut reg = ActiveRuns::new();
    set_active_run(&mut reg, "r-1", "g1", "queued", "2024-01-01T00:00:00Z");
    set_active_run(&mut reg, "r-2", "g2", "queued", "2024-01-02T00:00:00Z");
    set_active_run(&mut reg, "../x", "g3", "queued", "2024-01-03T00:00:00Z");
    assert_eq!(reg.runs.len(), 2);
    set_active_run(&mut reg, "r-1", "g1", "running", "2024-01-04T00:00:00Z");
    assert_eq!(reg.runs.len(), 2);
    assert_eq!(reg.runs[0].status, "running");
    assert_eq!(reg.runs[0].receipt_url, "/runs/receipts/r-1/RECEIPT.md");
    assert_eq!(reg.runs[0].sse_url, "/progress.sse?run_id=r-1");
    let snap = reg.snapshot();
    let ids: Vec<&str> = snap.iter().map(|r| r.run_id.as_str()).collect();
    assert_eq!(ids, vec!["r-1", "r-2"]);
    clear_active_run(&mut reg, "r-1");
    clear_active_run(&mut reg, "r-none");
    assert_eq!(reg.runs.len(), 1);
    assert_eq!(reg.runs[0].run_id, "r-2");
}

#[test]
fn the_snapshot_breaks_ties_by_identifier() {
    let mut reg = ActiveRuns::new();
    for id in ["b", "a", "c"] {
        set_active_run(&mut reg, id, "g", "queued", "same");
    }
    set_active_run(&mut reg, "z", "g", "queued", "older");
    let snap = reg.snapshot();
    let ids: Vec<&str> = snap.iter().map(|r| r.run_id.as_str()).collect();
    assert_eq!(ids, vec!["c", "b", "a", "z"]);
}

#[test]
fn an_accepted_run_is_queued_with_a_placeholder() {
    let mut reg = ActiveRuns::new();
    let acc = accept_async_with(&mut reg, Some("wiki-example"), "wiki.generate", "u", "t0");
    assert_eq!(acc.response.run_id, "wiki-example");
    assert_eq!(acc.response.status, "queued");
    assert_eq!(acc.response.receipt_url, "/runs/receipts/wiki-example/RECEIPT.md");
    assert_eq!(acc.response.sse_url, "/progress.sse?run_id=wiki-example");
    assert_eq!(acc.bits.u, 200_000);
    assert_eq!(acc.bits.t, 500_000);
    assert_eq!(acc.evidence.get("status").and_then(|v| v.as_str()), Some("queued"));
    assert_eq!(acc.evidence.bool_at("actual_success"), Some(false));
    assert_eq!(reg.runs.len(), 1);
    assert_eq!(reg.runs[0].status, "queued");
    assert_eq!(reg.runs[0].ts, "t0");
    let resp = run_async_resp_json(&acc.response);
    assert_eq!(resp.get("status").and_then(|v| v.as_str()), Some("queued"));
    // the placeholder can be stored at once
    let files = receipt_bundle(
        &acc.response.run_id,
        "wiki.generate",
        &acc.bits,
        &vec![],
        &acc.evidence,
        false,
        "{}",
        "{}",
    );
    assert!(files.is_some());
    // with an identifier of its own drawing
    let acc = accept_async(&mut reg, Some("no/good"), "g");
    assert!(acc.response.run_id.starts_with("r-"));
    assert!(is_safe_segment(&acc.response.run_id));
    assert_eq!(reg.runs.len(), 2);
}

#[test]
fn a_failed_dispatch_still_ends_with_a_manifest() {
    let resp = failed_run("r-9", "demo", "cmd is required");
    assert_eq!((resp.bits.e, resp.bits.u, resp.bits.t), (1_000_000, 1_000_000, 0));
    assert_eq!(resp.manifest.run_id, "r-9");
    assert_eq!(
        resp.manifest.evidence.get("error").and_then(|v| v.as_str()),
        Some("cmd is required")
    );
    let json = run_resp_json(&resp);
    assert!(json.get("manifest").is_some());
    assert_eq!(
        json.get("manifest").and_then(|m| m.get("run_id")).and_then(|v| v.as_str()),
        Some("r-9")
    );
    assert_eq!(json.get("bits").and_then(|b| b.level_at("e")), Some(1_000_000));
    assert!(matches!(json.get("pr_created"), Some(Json::Null)));
}

#[test]
fn a_waiting_run_reports_each_tick() {
    let inputs = obj(vec![("seconds", Json::Int(1)), ("tick_ms", Json::Int(500))]);
    let plan = plan_demo_wait(&inputs);
    assert_eq!((plan.seconds, plan.tick_ms, plan.total_ticks), (1, 500, 2));
    assert_eq!(plan.label, "demo.wait");
    let script = demo_wait_script("r-1", "demo.wait", &plan);
    let phases: Vec<&str> =
        script.iter().map(|b| b.event.get("phase").and_then(|v| v.as_str()).unwrap()).collect();
    assert_eq!(phases, vec!["plan", "act", "tick", "tick", "tick", "verify", "done"]);
    let pauses: Vec<u64> = script.iter().map(|b| b.pause_ms).collect();
    assert_eq!(pauses, vec![0, 0, 500, 500, 0, 0, 0]);
    assert!(script.len() >= 3);
    let tick = script[3].event.get("extra").expect("the extra data");
    assert_eq!(tick.u64_at("i"), Some(1));
    assert_eq!(tick.u64_at("total"), Some(2));
    assert_eq!(tick.level_at("pct"), Some(500_000));
    assert_eq!(tick.u64_at("eta_s"), Some(1));
    for beat in &script {
        assert_eq!(beat.event.get("run_id").and_then(|v| v.as_str()), Some("r-1"));
    }
    let resp = finish_demo_wait("r-1", "demo.wait", &plan);
    assert_eq!(resp.bits.t, 950_000);
    assert_eq!(resp.bits.u, 200_000);
    assert_eq!(resp.manifest.evidence.u64_at("seconds"), Some(1));
}

#[test]
fn the_plan_of_a_waiting_run_stays_within_bounds() {
    let plan = plan_demo_wait(&obj(vec![]));
    assert_eq!((plan.seconds, plan.tick_ms, plan.total_ticks), (30, 1000, 30));
    let plan = plan_demo_wait(&obj(vec![
        ("seconds", Json::Int(0)),
        ("tick_ms", Json::Int(1)),
        ("label", text("nap")),
    ]));
    assert_eq!((plan.seconds, plan.tick_ms, plan.total_ticks), (1, 100, 10));
    assert_eq!(plan.label, "nap");
    let plan = plan_demo_wait(&obj(vec![
        ("seconds", Json::Int(1_000_000)),
        ("tick_ms", Json::Int(1_000_000)),
    ]));
    assert_eq!((plan.seconds, plan.tick_ms, plan.total_ticks), (3600, 5000, 720));
    let plan = plan_demo_wait(&obj(vec![("seconds", Json::Int(1)), ("tick_ms", Json::Int(3000))]));
    assert_eq!(plan.total_ticks, 1);
}

#[test]
fn progress_events_and_their_filter() {
    let e = phase_event("r-1", "g", "plan");
    assert_eq!(e.get("phase").and_then(|v| v.as_str()), Some("plan"));
    assert!(passes_filter(None, Some(&e)));
    assert!(passes_filter(Some("r-1"), Some(&e)));
    assert!(!passes_filter(Some("r-2"), Some(&e)));
    assert!(passes_filter(Some("r-2"), None));
    assert!(!passes_filter(Some("r-2"), Some(&obj(vec![]))));
    let e = emit_progress("r-1", "g", "done", obj(vec![("pr", Json::Null)]));
    let ts = e.get("ts").and_then(|v| v.as_str()).expect("a time stamp");
    assert!(ts.len() >= 20);
    assert_eq!(&ts[4..5], "-");
    assert!(e.get("extra").is_some());
    let k = keepalive_payload();
    assert_eq!(k.len(), 1200 + 27);
    assert!(k.starts_with("{\"keepalive\":true,\"pad\":\"xxx"));
    assert!(k.ends_with("xxx\"}"));
}

#[test]
fn the_run_identifier_is_injected_into_object_inputs() {
    let v = inject_run_id(obj(vec![("message", text("hi"))]), "r-1");
    assert_eq!(v.get("__run_id").and_then(|x| x.as_str()), Some("r-1"));
    assert_eq!(v.get("message").and_then(|x| x.as_str()), Some("hi"));
    let v = inject_run_id(obj(vec![("__run_id", text("old")), ("a", Json::Int(1))]), "r-2");
    assert_eq!(v.get("__run_id").and_then(|x| x.as_str()), Some("r-2"));
    assert_eq!(v.i64_at("a"), Some(1));
    assert!(matches!(inject_run_id(Json::Null, "r-3"), Json::Null));
    assert!(matches!(inject_run_id(text("x"), "r-3"), Json::Text(_)));
}

#[test]
fn policies_are_resolved_in_order() {
    let premium = Policy { gamma_gate: 300_000, time_ms: 60_000, max_risk: 500_000, tiny_diff_loc: 500 };
    let asked = Policy { gamma_gate: 500_000, time_ms: 8_000, max_risk: 300_000, tiny_diff_loc: 120 };
    let user = UserContext {
        user_id: "premium".into(),
        api_key: "k".into(),
        quota_remaining: 1,
        policy_overrides: Some(premium),
    };
    let plain = UserContext {
        user_id: "demo".into(),
        api_key: "k".into(),
        quota_remaining: 1,
        policy_overrides: None,
    };
    assert_eq!(resolve_policy("run", Some(&user), Some(asked)), asked);
    assert_eq!(resolve_policy("run", Some(&user), None), premium);
    assert_eq!(resolve_policy("run", Some(&plain), None), Policy::default());
    assert_eq!(resolve_policy("chat", None, None).time_ms, 30_000);
    assert_eq!(resolve_policy("dsl", None, None), Policy::default());
}

#[test]
fn limits_are_clamped() {
    assert_eq!(clamp_limit(None, 200, 2000), 200);
    assert_eq!(clamp_limit(Some(5000), 200, 2000), 2000);
    assert_eq!(clamp_limit(Some(0), 200, 2000), 1);
    assert_eq!(clamp_u64(None, 1 << 20, 1 << 24), 1 << 20);
    assert_eq!(clamp_u64(Some(1), 1 << 20, 1 << 24), 1024);
    assert_eq!(clamp_u64(Some(u64::MAX), 1 << 20, 1 << 24), 1 << 24);
}

#[test]
fn the_highest_counts_come_first() {
    let item = |k: &str, c: u64| CountedItem { key: k.to_string(), count: c };
    let top = top_n(vec![item("b", 2), item("a", 2), item("c", 5), item("d", 1)], 3);
    let got: Vec<(&str, u64)> = top.iter().map(|i| (i.key.as_str(), i.count)).collect();
    assert_eq!(got, vec![("c", 5), ("a", 2), ("b", 2)]);
    assert_eq!(top_n(vec![item("x", 1)], 10).len(), 1);
    assert!(top_n(vec![], 3).is_empty());
}

#[test]
fn thread_graphs_are_prepared_within_bounds() {
    let job = thread_graph("/srv", "r-1", "demo", " auto ", 5000).expect("a job");
    assert_eq!(job.thread, None);
    assert_eq!(job.opts.max_events, 800);
    assert_eq!(job.opts.content_chars, 120);
    assert_eq!(job.opts.label_mode, "nl+goal");
    assert_eq!(job.threads_dir, "/srv/users/demo/threads");
    assert_eq!(job.out_dir, "/srv/runs/graphs/r-1");
    let job = thread_graph(".", "r-1", "demo", "t-1", 0).expect("a job");
    assert_eq!(job.thread, Some("t-1".to_string()));
    assert_eq!(job.opts.max_events, 1);
    assert_eq!(thread_graph(".", "../x", "demo", "t", 1).err(), Some("invalid __run_id".into()));
    assert_eq!(thread_graph(".", "r", "a/b", "t", 1).err(), Some("invalid user_id".into()));
    assert_eq!(thread_graph(".", "r", "demo", "a/b", 1).err(), Some("invalid thread".into()));
    let opts = ThreadGraphOpts {
        max_events: 10,
        content_chars: 1,
        label_mode: "  ".into(),
        filter_text: Some("x".into()),
        filter_goal: None,
        recursive: true,
        depth: 9,
        max_nodes: 5,
        include_bits: false,
    };
    let job = thread_graph_with_opts(".", "r", "demo", "", opts).expect("a job");
    assert_eq!(job.opts.content_chars, 20);
    assert_eq!(job.opts.depth, 3);
    assert_eq!(job.opts.max_nodes, 20);
    assert_eq!(job.opts.label_mode, "nl+goal");
    assert_eq!(job.opts.filter_text, Some("x".to_string()));
    assert!(job.opts.recursive);
}

#[test]
fn golden_cases_need_valid_bits() {
    let good = obj(vec![
        ("A", Json::Int(1)),
        ("U", Json::Real(250_000)),
        ("P", Json::Int(1)),
        ("E", Json::Int(0)),
        ("Δ", Json::Int(0)),
        ("I", Json::Real(500_000)),
        ("R", Json::Int(0)),
        ("T", Json::Real(900_000)),
    ]);
    let b = parse_bits(&good).expect("bits");
    assert_eq!((b.a, b.u, b.t, b.m), (1_000_000, 250_000, 900_000, 0));
    assert!(bits_valid(&b));
    let out_of_range = obj(vec![
        ("A", Json::Int(2)),
        ("U", Json::Int(0)),
        ("P", Json::Int(1)),
        ("E", Json::Int(0)),
        ("d", Json::Int(0)),
        ("I", Json::Int(0)),
        ("R", Json::Int(0)),
        ("T", Json::Int(1)),
    ]);
    assert!(!bits_valid(&parse_bits(&out_of_range).expect("bits")));
    assert!(parse_bits(&obj(vec![("A", Json::Int(1))])).is_none());
    let case = |name: &str, bits: Json| GoldenCaseRaw {
        test: name.to_string(),
        assertion: Json::Null,
        result: Json::Null,
        bits,
    };
    let s = validate_golden("wolfram_unity", vec![case("one", good.copy())]);
    assert_eq!((s.total, s.passed, s.failed), (1, 1, 0));
    assert_eq!(s.bits.t, 1_000_000);
    assert!(s.details[0].ok);
    let s = validate_golden("mixed", vec![case("one", good), case("two", out_of_range)]);
    assert_eq!((s.total, s.passed, s.failed), (2, 1, 1));
    assert_eq!(s.bits.t, 300_000);
    assert_eq!(s.details[1].reason, Some("invalid or out-of-range bits".to_string()));
}

#[test]
fn indexes_are_merged_without_repeated_checksums() {
    let art = |path: &str, sum: &str| ResearchArtifact {
        id: format!("{}#{}", path, sum),
        kind: "doc".into(),
        path: path.into(),
        ts: "t".into(),
        ttl: 0,
        tags: vec![],
        checksum: sum.into(),
        git_commit: None,
        git_branch: None,
    };
    let all = build_index_multi(vec![
        vec![art("a", "1"), art("b", "2"), art("c", "1")],
        vec![],
        vec![art("d", "2"), art("e", "3")],
    ]);
    let paths: Vec<&str> = all.iter().map(|a| a.path.as_str()).collect();
    assert_eq!(paths, vec!["a", "b", "e"]);
    assert!(build_index_multi(vec![]).is_empty());
}
