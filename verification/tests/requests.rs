use one_engine::api::answers::{
    config_json, content_type, dsl_refusal, execute_inputs, file_not_found, golden_file,
    golden_refusal, golden_resp, metrics_json, mine_json, pattern_detail, patterns_json,
    ruliad_dir, ruliad_file, ruliad_listing, run_not_found, seed_json, tau_goal, tau_inputs,
    version_json, with_run_id,
};
use one_engine::api::history::Access;
use one_engine::api::requests::{AppState, ExecuteReq, MineReq, TauReq, VersionInfo};
use one_engine::api::users::{
    access_refusal, admit_user_run, attach_run, attach_run_id, caller_of, chat_inputs,
    chat_phase_event, chat_resp, chat_thread, spend_quota, user_run_resp, user_status,
};
use one_engine::api::{RunResp, UserContext};
use one_engine::engine::golden::GoldenSummary;
use one_engine::engine::types::{Bits, Manifest, Policy};
use one_engine::json::Json;
use one_engine::meta::{meta_answer, meta_resp, meta_state_refusal, MetaOutcome};
use one_engine::nstar_run::{
    answer_parts, hud_as_json, hud_page, hud_records, local_answer, loop_policy_json, loop_resp,
    op_in, ops_summary, plan_ops, report_op, resolve_context, run_record, short_run_id,
    wants_world, Op, OpOutcome,
};

fn of(list: Vec<(&str, Json)>) -> Json {
    Json::Object(list.into_iter().map(|(k, v)| (k.to_string(), v)).collect())
}

fn s(t: &str) -> Json {
    Json::Text(t.to_string())
}

fn state() -> AppState {
    AppState {
        users: vec![
            UserContext {
                user_id: "ann".into(),
                api_key: "key-a".into(),
                quota_remaining: 2,
                policy_overrides: None,
            },
            UserContext {
                user_id: "bob".into(),
                api_key: "key-b".into(),
                quota_remaining: 0,
                policy_overrides: Some(Policy {
                    gamma_gate: 300_000,
                    time_ms: 60_000,
                    max_risk: 500_000,
                    tiny_diff_loc: 500,
                }),
            },
        ],
    }
}

fn finished(evidence: Json) -> RunResp {
    RunResp {
        manifest: Manifest {
            run_id: "inner".into(),
            goal_id: "meta.omni".into(),
            deliverables: vec!["d".to_string()],
            evidence,
            bits: Bits::init(),
        },
        bits: Bits::init(),
        pr_created: Some("pr-1".into()),
        meta2_proposal: None,
    }
}

#[test]
fn callers_are_known_by_their_keys() {
    let st = state();
    let ann = caller_of(&st, Some("key-a"), "ann", "missing", "invalid").unwrap();
    assert_eq!(ann.user_id, "ann");
    let e = caller_of(&st, None, "ann", "missing", "invalid").unwrap_err();
    assert_eq!((e.status, e.message.as_str()), (401, "missing"));
    let e = caller_of(&st, Some("key-a"), "bob", "missing", "invalid").unwrap_err();
    assert_eq!((e.status, e.message.as_str()), (401, "invalid"));
    let e = caller_of(&st, Some("nope"), "ann", "missing", "invalid").unwrap_err();
    assert_eq!((e.status, e.message.as_str()), (401, "invalid"));

    let status = user_status(&st.users[1]);
    assert_eq!(status.user_id, "bob");
    assert_eq!(status.quota_remaining, 0);
    assert!(status.has_premium_policy);
    assert!(!user_status(&st.users[0]).has_premium_policy);

    assert!(access_refusal(Access::Granted).is_none());
    let e = access_refusal(Access::Disabled).unwrap();
    assert_eq!((e.status, e.message.as_str()), (404, "not found"));
    let e = access_refusal(Access::MissingKey).unwrap();
    assert_eq!((e.status, e.message.as_str()), (401, "Missing x-api-key"));
    let e = access_refusal(Access::InvalidKey).unwrap();
    assert_eq!((e.status, e.message.as_str()), (401, "Invalid x-api-key"));
}

#[test]
fn a_user_runs_goals_while_quota_is_left() {
    let mut st = state();
    let run = admit_user_run(&st, Some("key-a"), "ann", "demo.ping", None).unwrap();
    assert_eq!(run.goal_id, "user:ann.demo.ping");
    assert_eq!(run.policy.time_ms, 300_000);
    assert_eq!(run.policy.gamma_gate, 500_000);
    let asked = Policy { gamma_gate: 1, time_ms: 2, max_risk: 3, tiny_diff_loc: 4 };
    let run = admit_user_run(&st, Some("key-a"), "ann", "g", Some(asked)).unwrap();
    assert_eq!(run.policy, asked);

    let e = admit_user_run(&st, Some("key-b"), "bob", "g", None).unwrap_err();
    assert_eq!((e.status, e.message.as_str()), (429, "Quota exceeded"));
    let e = admit_user_run(&st, None, "ann", "g", None).unwrap_err();
    assert_eq!((e.status, e.message.as_str()), (401, "Missing x-api-key header"));
    let e = admit_user_run(&st, Some("key-b"), "ann", "g", None).unwrap_err();
    assert_eq!((e.status, e.message.as_str()), (401, "Invalid API key or user ID"));

    assert_eq!(spend_quota(&mut st, "ann"), 1);
    assert_eq!(spend_quota(&mut st, "ann"), 0);
    assert_eq!(spend_quota(&mut st, "ann"), 0);
    assert_eq!(st.users[0].quota_remaining, 0);
    assert_eq!(st.users[0].api_key, "key-a");
    assert_eq!(spend_quota(&mut st, "bob"), 0);
    assert_eq!(st.users[1].policy_overrides.map(|p| p.time_ms), Some(60_000));
    assert_eq!(spend_quota(&mut st, "nobody"), 0);
    assert_eq!(st.users.len(), 2);
    let e = admit_user_run(&st, Some("key-a"), "ann", "g", None).unwrap_err();
    assert_eq!(e.status, 429);

    let resp = user_run_resp("ann", 1, "r-outer", finished(Json::Null));
    assert_eq!(resp.user_id, "ann");
    assert_eq!(resp.quota_remaining, 1);
    assert_eq!(resp.manifest.run_id, "r-outer");
    assert_eq!(resp.manifest.goal_id, "meta.omni");
    assert_eq!(resp.manifest.deliverables, ["d"]);
    assert_eq!(resp.pr_created.as_deref(), Some("pr-1"));
}

#[test]
fn a_chat_has_a_thread_an_input_and_a_reply() {
    assert_eq!(chat_thread(None).unwrap(), "t-default");
    assert_eq!(chat_thread(Some("main")).unwrap(), "main");
    let e = chat_thread(Some("../x")).unwrap_err();
    assert_eq!((e.status, e.message.as_str()), (400, "Invalid thread id"));
    assert!(chat_thread(Some("")).is_err());

    let inputs = chat_inputs("hello", "main", vec![s("earlier")], true);
    assert_eq!(
        format!("{:?}", inputs),
        format!(
            "{:?}",
            of(vec![
                ("message", s("hello")),
                ("thread", s("main")),
                ("history", Json::List(vec![s("earlier")])),
                ("loop_mode", Json::Bool(true)),
            ])
        )
    );
    assert_eq!(chat_phase_event("r-1", "start"), "{\"run_id\":\"r-1\",\"phase\":\"start\"}");
    assert_eq!(chat_phase_event("r-1", "done"), "{\"run_id\":\"r-1\",\"phase\":\"done\"}");

    let evidence = of(vec![("reply", s("hi there")), ("run_payload", of(vec![("goal_id", s("g"))]))]);
    let resp = chat_resp("r-9", "ann", "main", finished(evidence));
    assert_eq!(resp.run_id, "r-9");
    assert_eq!(resp.user_id, "ann");
    assert_eq!(resp.thread.as_deref(), Some("main"));
    assert_eq!(resp.reply, "hi there");
    assert_eq!(
        resp.run_payload.as_ref().and_then(|p| p.get("goal_id")).and_then(|v| v.as_str()),
        Some("g")
    );
    assert_eq!(resp.manifest.run_id, "r-9");
    let silent = chat_resp("r-9", "ann", "main", finished(of(vec![("reply", Json::Int(1))])));
    assert_eq!(silent.reply, "");
    assert!(silent.run_payload.is_none());
}

#[test]
fn the_output_of_a_run_is_attached_to_a_thread() {
    assert_eq!(attach_run_id("main", "  r-1 \n").unwrap(), "r-1");
    let e = attach_run_id("a/b", "r-1").unwrap_err();
    assert_eq!((e.status, e.message.as_str()), (400, "Invalid thread id"));
    let e = attach_run_id("main", "a b").unwrap_err();
    assert_eq!((e.status, e.message.as_str()), (400, "Invalid run_id"));

    let e = attach_run("ann", "main", "r-1", None, None).unwrap_err();
    assert_eq!((e.status, e.message.as_str()), (404, "Receipt not found"));
    let queued = of(vec![("status", s("queued"))]);
    let e = attach_run("ann", "main", "r-1", Some(&queued), None).unwrap_err();
    assert_eq!((e.status, e.message.as_str()), (409, "Run not ready (no manifest yet)"));
    let e = attach_run("ann", "..", "r-1", Some(&queued), None).unwrap_err();
    assert_eq!(e.status, 400);

    let done = of(vec![("manifest", of(vec![("goal_id", s("wiki.generate"))]))]);
    let a = attach_run("ann", "main", " r-1 ", Some(&done), Some("look")).unwrap();
    assert!(a.ok);
    assert_eq!((a.user_id.as_str(), a.thread.as_str(), a.run_id.as_str()), ("ann", "main", "r-1"));
    assert_eq!(a.goal_id.as_deref(), Some("wiki.generate"));
    assert!(a.summary.starts_with("Tool: attached run output `r-1`."));
    assert!(a.summary.contains("look"));
}

#[test]
fn the_version_and_what_stands_in_for_the_rest() {
    let v = VersionInfo::at("0.2.0", Some("tok"), None, "2024-01-01T00:00:00Z");
    assert_eq!(
        format!("{:?}", version_json(&v)),
        format!(
            "{:?}",
            of(vec![
                ("engine", s("0.2.0")),
                ("build_token", s("tok")),
                ("git_ref", Json::Null),
                ("ts", s("2024-01-01T00:00:00Z")),
            ])
        )
    );
    let now = VersionInfo::current("0.2.0", None, Some("abc"));
    assert_eq!((now.engine, now.build_token, now.git_ref), ("0.2.0", None, Some("abc")));
    assert!(now.ts.len() >= 20);
    let m = metrics_json(42, &v);
    assert_eq!(m.get("status").and_then(|x| x.as_str()), Some("ok"));
    assert_eq!(m.get("uptime_s").and_then(|x| x.as_u64()), Some(42));
    assert_eq!(m.get("note").and_then(|x| x.as_str()), Some("metrics stub (DSL compatibility)"));
    assert_eq!(m.get("build").and_then(|b| b.get("engine")).and_then(|x| x.as_str()), Some("0.2.0"));

    assert_eq!(
        format!("{:?}", seed_json(Some(Some(of(vec![("k", Json::Int(1))]))))),
        format!("{:?}", of(vec![("kernel", of(vec![("k", Json::Int(1))]))]))
    );
    assert_eq!(format!("{:?}", seed_json(Some(None))), format!("{:?}", of(vec![("kernel", of(vec![]))])));
    assert_eq!(format!("{:?}", seed_json(None)), format!("{:?}", of(vec![("kernel", s("not_found"))])));
    assert_eq!(
        format!("{:?}", config_json(Some("run x"))),
        format!("{:?}", of(vec![("engine_dsl", s("run x"))]))
    );
    assert_eq!(
        format!("{:?}", config_json(None)),
        format!("{:?}", of(vec![("engine_dsl", s("not_found"))]))
    );
    assert_eq!(
        format!("{:?}", patterns_json()),
        format!("{:?}", of(vec![("patterns", Json::List(vec![]))]))
    );
    let e = pattern_detail();
    assert_eq!((e.status, e.message.as_str()), (404, "pattern not found"));
    let mined = mine_json(&MineReq {
        sources: vec!["a".to_string()],
        patterns: Vec::new(),
        output_format: Some("md".to_string()),
    });
    assert_eq!(mined.get("status").and_then(|x| x.as_str()), Some("not_implemented"));
    assert_eq!(mined.get("sources").and_then(|x| x.item(0)).and_then(|x| x.as_str()), Some("a"));
    assert_eq!(mined.get("patterns").and_then(|x| x.as_array()).map(|a| a.len()), Some(0));
    assert_eq!(mined.get("output_format").and_then(|x| x.as_str()), Some("md"));
    assert_eq!(
        mined.get("hint").and_then(|x| x.as_str()),
        Some("mining pipeline not wired; stub provided for DSL compatibility")
    );
    assert!(matches!(mine_json(&MineReq::default()).get("output_format"), Some(Json::Null)));
}

#[test]
fn scripting_requests_become_runs() {
    let tau = TauReq {
        input: Some("x".into()),
        preset: None,
        context: Some(of(vec![("a", Json::Int(1))])),
        options: None,
    };
    assert_eq!(tau_goal(&tau), "tau.default");
    assert_eq!(
        format!("{:?}", tau_inputs(&tau)),
        format!(
            "{:?}",
            of(vec![
                ("input", s("x")),
                ("context", of(vec![("a", Json::Int(1))])),
                ("options", Json::Null),
            ])
        )
    );
    let preset = TauReq { input: None, preset: Some("tau.fast".into()), context: None, options: None };
    assert_eq!(tau_goal(&preset), "tau.fast");
    assert!(matches!(tau_inputs(&preset).get("input"), Some(Json::Null)));
    let exec = ExecuteReq { goal: "g".into(), task_type: None, parameters: Json::List(vec![s("p")]) };
    assert_eq!(
        format!("{:?}", execute_inputs(&exec)),
        format!("{:?}", of(vec![("task_type", Json::Null), ("parameters", Json::List(vec![s("p")]))]))
    );
    let e = dsl_refusal("tau", "boom");
    assert_eq!((e.status, e.message.as_str()), (400, "tau error: boom"));
    let e = dsl_refusal("execute", "boom");
    assert_eq!((e.status, e.message.as_str()), (400, "execute error: boom"));
    let resp = with_run_id("r-outer", finished(Json::Null));
    assert_eq!(resp.manifest.run_id, "r-outer");
    assert_eq!(resp.manifest.goal_id, "meta.omni");
    assert_eq!(resp.pr_created.as_deref(), Some("pr-1"));
}

#[test]
fn the_artifacts_of_a_rewriting_run() {
    assert_eq!(ruliad_dir("r-1").unwrap(), "runs/ruliad_kernel/r-1");
    let e = ruliad_dir("a/b").unwrap_err();
    assert_eq!((e.status, e.message.as_str()), (400, "invalid run_id"));
    let e = run_not_found("r-1");
    assert_eq!((e.status, e.message.as_str()), (404, "run r-1 not found"));
    assert_eq!(ruliad_file("r-1", "index.html").unwrap(), "runs/ruliad_kernel/r-1/index.html");
    for (run, file) in [("..", "index.html"), ("r-1", "a/b"), ("", "x"), ("r-1", "")] {
        let e = ruliad_file(run, file).unwrap_err();
        assert_eq!((e.status, e.message.as_str()), (400, "invalid path"));
    }
    let e = file_not_found();
    assert_eq!((e.status, e.message.as_str()), (404, "file not found"));
    let listing = ruliad_listing("r-1", &vec![("index.html".to_string(), 10), ("a.dot".to_string(), 0)]);
    assert_eq!(
        format!("{:?}", listing),
        format!(
            "{:?}",
            of(vec![
                ("run_id", s("r-1")),
                ("dir", s("runs/ruliad_kernel/r-1")),
                (
                    "files",
                    Json::List(vec![
                        of(vec![("name", s("index.html")), ("len", Json::Nat(10))]),
                        of(vec![("name", s("a.dot")), ("len", Json::Nat(0))]),
                    ])
                ),
            ])
        )
    );
    assert_eq!(content_type("multiway.dot"), "text/vnd.graphviz; charset=utf-8");
    assert_eq!(content_type("states.jsonl"), "application/json");
    assert_eq!(content_type("x.json"), "application/json");
    assert_eq!(content_type("index.html"), "text/html; charset=utf-8");
    assert_eq!(content_type("notes.txt"), "application/octet-stream");
    assert_eq!(content_type("dot"), "application/octet-stream");
}

#[test]
fn golden_traces_are_asked_for_by_name() {
    assert_eq!(golden_file("wolfram_unity").unwrap(), "trace/golden/wolfram_unity.json");
    assert_eq!(golden_file("a-B_9").unwrap(), "trace/golden/a-B_9.json");
    assert_eq!(golden_file("").unwrap(), "trace/golden/.json");
    for name in ["a.b", "../x", "a b", "é"] {
        let e = golden_file(name).unwrap_err();
        assert_eq!((e.status, e.message.as_str()), (400, "invalid name"));
    }
    let e = golden_refusal(true, "gone");
    assert_eq!((e.status, e.message.as_str()), (404, "not found: gone"));
    let e = golden_refusal(false, "odd");
    assert_eq!((e.status, e.message.as_str()), (500, "invalid JSON: odd"));
    let resp = golden_resp(GoldenSummary {
        name: "n".into(),
        total: 3,
        passed: 2,
        failed: 1,
        details: Vec::new(),
        bits: Bits::init(),
    });
    assert_eq!((resp.name.as_str(), resp.total, resp.passed, resp.failed), ("n", 3, 2, 1));
    assert_eq!(resp.bits, Bits::init());
}

#[test]
fn what_a_meta_step_leaves_is_read() {
    let out = of(vec![
        ("run_id", s("m-1")),
        ("task", s("do")),
        ("config", of(vec![("k", Json::Int(1))])),
        ("score", Json::Real(750_000)),
        ("plan", Json::Int(3)),
    ]);
    let r = meta_resp(&out, 1500);
    assert_eq!((r.run_id.as_str(), r.task.as_str(), r.plan.as_str(), r.artifact.as_str()), ("m-1", "do", "", ""));
    assert_eq!(r.config.get("k").and_then(|v| v.as_i64()), Some(1));
    assert!(matches!(&r.telemetry, Json::Object(f) if f.is_empty()));
    assert_eq!((r.score, r.latency_ms), (750_000, 1500));
    assert_eq!(meta_resp(&Json::Null, 0).score, 0);

    assert!(meta_answer(MetaOutcome::Output(out, 7)).is_ok());
    let e = meta_answer(MetaOutcome::NotStarted("no python".into())).unwrap_err();
    assert_eq!((e.status, e.message.as_str()), (500, "spawn error: no python"));
    let e = meta_answer(MetaOutcome::Failed("trace".into())).unwrap_err();
    assert_eq!((e.status, e.message.as_str()), (400, "meta failed: trace"));
    let e = meta_answer(MetaOutcome::Unreadable("eof".into())).unwrap_err();
    assert_eq!((e.status, e.message.as_str()), (400, "meta invalid json: eof"));
    let e = meta_state_refusal(true, "ignored");
    assert_eq!((e.status, e.message.as_str()), (404, "no meta state"));
    let e = meta_state_refusal(false, "bad");
    assert_eq!((e.status, e.message.as_str()), (500, "invalid meta state: bad"));
}

#[test]
fn the_answer_of_the_model_is_taken_apart() {
    assert_eq!(short_run_id("0123456789abcdef"), "01234567");
    assert_eq!(short_run_id("abc"), "abc");
    assert_eq!(
        format!("{:?}", loop_policy_json()),
        format!("{:?}", of(vec![("branches", Json::Int(1)), ("explore_budget", Json::Real(150_000))]))
    );
    let plain = of(vec![("reply", s("hi")), ("intent", s("greet")), ("impact_url", s("/x"))]);
    assert_eq!(answer_parts(&plain), ("hi".to_string(), "greet".to_string(), Some("/x".to_string())));
    assert_eq!(
        answer_parts(&Json::Null),
        ("Processing...".to_string(), "unknown".to_string(), None)
    );
    let deep = of(vec![
        ("reply", s("outer")),
        ("manifest", of(vec![("evidence", of(vec![("reply", s("inner"))]))])),
    ]);
    assert_eq!(answer_parts(&deep).0, "inner");
    let shallow = of(vec![("reply", s("outer")), ("manifest", of(vec![("evidence", of(vec![]))]))]);
    assert_eq!(answer_parts(&shallow).0, "outer");
    let odd = of(vec![("manifest", of(vec![]))]);
    assert_eq!(answer_parts(&odd).0, "Processing...");

    assert!(wants_world("DIVINE_CODE: x", "chat", &None));
    assert!(wants_world("x", "divine", &None));
    assert!(wants_world("x", "generate_graph", &None));
    assert!(!wants_world("x", "divine", &Some("/made".to_string())));
    assert!(!wants_world("divine_code", "Divine", &None));

    assert_eq!(
        local_answer("write it"),
        (
            "{ \"ref\": 59, \"net\": \"P59 -> P2 (Fluid Kernel) -> Local Processing\", \"out\": \"Processed intent locally: 'write it'. Entropy reduced.\" }".to_string(),
            "meta6_kernel".to_string(),
            "Op: [Local Write Simulated]".to_string()
        )
    );
}

#[test]
fn operations_are_planned_and_reported() {
    let val = of(vec![(
        "ops",
        Json::List(vec![
            of(vec![("op", s("write")), ("path", s("docs/a.md")), ("content", s("héllo"))]),
            of(vec![("op", s("write")), ("path", s("/etc/passwd")), ("content", s("x"))]),
            of(vec![("op", s("write"))]),
            of(vec![("op", s("exec")), ("cmd", s("ls")), ("args", Json::List(vec![s("-l"), Json::Int(1)]))]),
            of(vec![("op", s("exec")), ("cmd", s(""))]),
            of(vec![("op", s("exec")), ("cmd", s("true")), ("args", s("odd"))]),
            of(vec![("op", s("dance"))]),
            of(vec![("note", s("no kind"))]),
            Json::Int(3),
        ]),
    )]);
    let ops = plan_ops(&val);
    assert_eq!(ops.len(), 7);
    assert!(matches!(&ops[0], Op::Write { path, content } if path == "docs/a.md" && content == "héllo"));
    assert!(matches!(&ops[1], Op::BlockedWrite { path } if path == "/etc/passwd"));
    assert!(matches!(&ops[2], Op::BlockedWrite { path } if path.is_empty()));
    assert!(matches!(&ops[3], Op::Exec { cmd, args } if cmd == "ls" && args == &vec!["-l".to_string(), "".to_string()]));
    assert!(matches!(&ops[4], Op::EmptyCmd));
    assert!(matches!(&ops[5], Op::Exec { cmd, args } if cmd == "true" && args.is_empty()));
    assert!(matches!(&ops[6], Op::Unknown { kind } if kind == "dance"));
    assert!(plan_ops(&Json::Null).is_empty());
    assert!(plan_ops(&of(vec![("ops", s("none"))])).is_empty());
    for path in ["src/x.rs", "ui/a", "scripts/b", "docs/c"] {
        assert!(matches!(op_in(&of(vec![("op", s("write")), ("path", s(path))])), Some(Op::Write { .. })));
    }
    for path in ["src", "SRC/x", " docs/c", "lib/x"] {
        assert!(matches!(op_in(&of(vec![("op", s("write")), ("path", s(path))])), Some(Op::BlockedWrite { .. })));
    }

    assert_eq!(report_op(&ops[0], &OpOutcome::Written), "Wrote 6 bytes to docs/a.md");
    assert_eq!(report_op(&ops[0], &OpOutcome::NotWritten), "Failed to write docs/a.md");
    assert_eq!(report_op(&ops[1], &OpOutcome::Skipped), "Blocked unsafe write to /etc/passwd");
    assert_eq!(report_op(&ops[3], &OpOutcome::Ran(120)), "Exec OK (len: 120)");
    assert_eq!(report_op(&ops[3], &OpOutcome::NotRun("denied".into())), "Exec Failed: denied");
    assert_eq!(report_op(&ops[4], &OpOutcome::Skipped), "Empty cmd");
    assert_eq!(report_op(&ops[6], &OpOutcome::Skipped), "Unknown op: dance");
    assert_eq!(ops_summary(&Vec::new()), "No ops");
    assert_eq!(ops_summary(&vec!["a".to_string(), "b".to_string()]), "a; b");
}

#[test]
fn a_run_of_the_loop_is_recorded_and_found_again() {
    let rec = run_record("01234567", "2024-01-01T00:00:00Z", "do it", "chat", "done", 1_250_000, &None);
    assert_eq!(
        format!("{:?}", rec),
        format!(
            "{:?}",
            of(vec![
                ("run_id", s("01234567")),
                ("ts", s("2024-01-01T00:00:00Z")),
                ("task", s("do it")),
                ("ok", Json::Bool(true)),
                ("note", s("Intent: chat")),
                ("policy", loop_policy_json()),
                ("best", s("done")),
                ("cost", Json::Real(1000)),
                ("latency_s", Json::Real(1_250_000)),
                ("mode", s("hybrid_omni_v1")),
                ("impact_url", Json::Null),
            ])
        )
    );
    let resp = loop_resp("done".to_string(), &Some("/w".to_string()));
    assert!(resp.ok);
    assert_eq!(resp.result, "done");
    assert_eq!(resp.adapt.get("changed").and_then(|v| v.as_bool()), Some(false));
    assert_eq!(resp.adapt.get("impact_url").and_then(|v| v.as_str()), Some("/w"));

    let records: Vec<Json> = (0..8)
        .map(|i| of(vec![("run_id", s(&format!("r-{i}"))), ("task", s(&format!("Build part {i}")))]))
        .chain([
            of(vec![("ts", s("t-9")), ("text", s("rebuild all"))]),
            of(vec![("task", s("unrelated"))]),
            of(vec![("task", Json::Int(1)), ("text", s("build hidden"))]),
            of(vec![("run_id", Json::Int(5)), ("task", s("BUILD last"))]),
        ])
        .collect();
    let found = resolve_context(&records, "build");
    let shown: Vec<(&str, &str)> =
        found.matches.iter().map(|m| (m.task.as_str(), m.run_id.as_str())).collect();
    assert_eq!(
        shown,
        [
            ("BUILD last", "?"),
            ("rebuild all", "t-9"),
            ("Build part 7", "r-7"),
            ("Build part 6", "r-6"),
            ("Build part 5", "r-5"),
        ]
    );
    assert_eq!(found.suggestion, "Found 5 historical nodes relevant to 'build'.");
    let none = resolve_context(&records, "zebra");
    assert!(none.matches.is_empty());
    assert_eq!(none.suggestion, "Found 0 historical nodes relevant to 'zebra'.");
    let long = vec![of(vec![("task", s(&"x".repeat(300)))])];
    assert_eq!(resolve_context(&long, "x").matches[0].task.chars().count(), 200);

    let lines: Vec<Option<Json>> = (0..150)
        .map(|i| if i % 2 == 0 { Some(Json::Int(i)) } else { None })
        .collect();
    let records = hud_records(&lines);
    assert_eq!(records.len(), 50);
    assert_eq!(records[0].as_i64(), Some(148));
    assert_eq!(records[49].as_i64(), Some(50));
    assert!(hud_records(&Vec::new()).is_empty());
    assert!(hud_as_json(&Some("json".to_string())));
    assert!(!hud_as_json(&Some("html".to_string())));
    assert!(!hud_as_json(&None));
    let page = hud_page("[]");
    assert!(page.starts_with("<!doctype html>\n            <html>"));
    assert!(page.contains("<pre>[]</pre>"));
    assert!(page.trim_end().ends_with("</html>"));
}

#[test]
fn the_callers_known_at_startup() {
    let st = AppState::default();
    assert_eq!(st.users.len(), 2);
    assert_eq!(st.users[0].user_id, "demo");
    assert_eq!(st.users[0].api_key, "demo-key-123");
    assert_eq!(st.users[0].quota_remaining, 1000);
    assert!(st.users[0].policy_overrides.is_none());
    assert_eq!(st.users[1].user_id, "premium");
    assert_eq!(st.users[1].api_key, "premium-key-456");
    assert_eq!(st.users[1].quota_remaining, 10000);
    assert_eq!(
        st.users[1].policy_overrides,
        Some(Policy { gamma_gate: 300_000, time_ms: 60000, max_risk: 500_000, tiny_diff_loc: 500 })
    );
    let run = admit_user_run(&st, Some("premium-key-456"), "premium", "g", None).unwrap();
    assert_eq!(run.policy.time_ms, 60000);
}

#[test]
fn files_are_cut_into_documents() {
    use_documents();
}

fn use_documents() {
    let chunks = one_engine::engine::documents::chunks_of(&"x".repeat(4100));
    let sizes: Vec<(usize, usize)> =
        chunks.iter().map(|c| (c.index, c.content.chars().count())).collect();
    assert_eq!(sizes, [(0, 2000), (1, 2000), (2, 100)]);
    let sparse = format!("{}{}{}", "a".repeat(2000), " ".repeat(1990), "b".repeat(61));
    let chunks = one_engine::engine::documents::chunks_of(&sparse);
    let kept: Vec<usize> = chunks.iter().map(|c| c.index).collect();
    assert_eq!(kept, [0, 2]);
    assert_eq!(chunks[1].content, "b".repeat(51));
    assert!(one_engine::engine::documents::chunks_of("").is_empty());
    assert!(one_engine::engine::documents::chunks_of(&"y".repeat(50)).is_empty());
    assert_eq!(one_engine::engine::documents::chunks_of(&"y".repeat(51)).len(), 1);
    assert!(one_engine::engine::documents::chunks_of(&format!("  {}  ", "y".repeat(50))).is_empty());
    assert_eq!(one_engine::engine::documents::chunks_of(&"é".repeat(26)).len(), 1);
    assert_eq!(one_engine::engine::documents::chunks_of(&"é".repeat(4000)).len(), 2);
    assert_eq!(one_engine::engine::documents::document_id("./src/a.rs", 12), "./src/a.rs#12");
    for ext in ["rs", "md", "toml", "yaml", "json"] {
        assert!(one_engine::engine::documents::is_document_ending(ext));
    }
    for ext in ["yml", "jsonl", "txt", "", "RS"] {
        assert!(!one_engine::engine::documents::is_document_ending(ext));
    }
}

#[test]
fn a_finished_run_is_known_by_the_outer_identifier() {
    let inner = finished(Json::Null);
    let resp = one_engine::api::finished_run(
        "r-outer",
        inner.manifest,
        Bits::init(),
        None,
        Some("proposal".to_string()),
    );
    assert_eq!(resp.manifest.run_id, "r-outer");
    assert_eq!(resp.manifest.goal_id, "meta.omni");
    assert_eq!(resp.manifest.deliverables, ["d"]);
    assert_eq!(resp.pr_created, None);
    assert_eq!(resp.meta2_proposal.as_deref(), Some("proposal"));
}

#[test]
fn confident_runs_get_a_pull_request_with_a_fresh_name() {
    let m = finished(Json::Null).manifest;
    let mut bits = Bits::init();
    bits.t = 800_000;
    let pr = one_engine::integrations::monorepo::create_pr_if_confident(&m, &bits).expect("a pull request");
    assert!(pr.id.starts_with("pr-"));
    assert_eq!(pr.id.len(), 3 + 36);
    assert_eq!(pr.title, "Agent: meta.omni");
    assert_eq!(pr.branch, "agent/inner");
    assert_eq!(pr.files_changed, ["d"]);
    assert_eq!(pr.run_id, "inner");
    assert_eq!(pr.confidence, 800_000);
    let other = one_engine::integrations::monorepo::create_pr_if_confident(&m, &bits).unwrap();
    assert_ne!(pr.id, other.id);
    bits.t = 799_999;
    assert!(one_engine::integrations::monorepo::create_pr_if_confident(&m, &bits).is_none());
    bits.t = 900_000;
    bits.e = 1;
    assert!(one_engine::integrations::monorepo::create_pr_if_confident(&m, &bits).is_none());
}
