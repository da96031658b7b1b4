use one_engine::api::codex::CountedItem;
use one_engine::api::requests::ValidationResult;
use one_engine::api::threads::ThreadEvent;
use one_engine::engine::goals::meta_omni::{
    chat_messages, complete_answer, fallback_answer, intent_profile,
};
use one_engine::engine::graphs::{
    build_dot, escape_quotes, get_actual_success, get_bits, get_goal_id, get_view_url,
    graph_event, node_fill, normalize_path, role_style, seq_edges, BitsLite, EdgeKind, GraphEdge,
    GraphNode, ThreadGraphOpts,
};
use one_engine::engine::kernel::KernelLoop;
use one_engine::engine::multiway::{multiway, parse_rules, render_dot, render_page, Rule};
use one_engine::engine::run::{advance_with, start_at, Next, Outcome, Step, Surroundings};
use one_engine::engine::thread_report::{
    bound_report_opts, keyword_counts, keywords, select_thread, stopwords, ThreadFile,
    ThreadReportOpts,
};
use one_engine::engine::types::{Bits, Manifest};
use one_engine::engine::validate::{
    generate_summary, metacognitive_score, set_align_boost, suite_policy, suite_tasks,
    summarize_suite,
};
use one_engine::engine::wiki::{
    folder_summary_md, index_html, index_md, rel_display, should_skip_component, static_html,
};
use one_engine::engine::Kernel;
use one_engine::integrations::flywheel;
use one_engine::integrations::kpi::{current_scores, plan_week, track_kpi_impact, weekly_planning};
use one_engine::integrations::monorepo::{ci_gate_check, create_pr_if_confident_with};
use one_engine::integrations::telemetry::{decide, TelemetryStore};
use one_engine::integrations::ui::render_unified_state;
use one_engine::integrations::{AgentGoal, TelemetryEvent};
use one_engine::json::Json;
use one_engine::text::chars_of;

fn obj(entries: Vec<(&str, Json)>) -> Json {
    Json::Object(entries.into_iter().map(|(k, v)| (k.to_string(), v)).collect())
}

fn text(s: &str) -> Json {
    Json::Text(s.to_string())
}

fn rule(p: &str, r: &str) -> Rule {
    Rule { pattern: chars_of(p), replacement: chars_of(r) }
}

fn strings(v: &Vec<Vec<char>>) -> Vec<String> {
    v.iter().map(|s| s.iter().collect()).collect()
}

fn manifest(goal: &str, bits: Bits, deliverables: Vec<&str>) -> Manifest {
    Manifest {
        run_id: "r-1".to_string(),
        goal_id: goal.to_string(),
        deliverables: deliverables.into_iter().map(|s| s.to_string()).collect(),
        evidence: Json::Null,
        bits,
    }
}

#[test]
fn multiway_rewriting_level_by_level() {
    let rules = vec![rule("01", "10"), rule("10", "011")];
    let g = multiway(&chars_of("01"), &rules, 3);
    assert_eq!(strings(&g.states), vec!["01", "10", "011", "101"]);
    assert_eq!(g.depths, vec![0, 1, 2, 3]);
    let steps: Vec<(usize, usize, usize, String)> =
        g.steps.iter().map(|s| (s.src, s.dst, s.depth, s.rule.iter().collect())).collect();
    assert_eq!(
        steps,
        vec![(0, 1, 1, "01".to_string()), (1, 2, 2, "10".to_string()), (2, 3, 3, "01".to_string())]
    );
    assert_eq!(strings(&g.frontier), vec!["101"]);
    let none = multiway(&chars_of("01"), &rules, 0);
    assert_eq!(strings(&none.states), vec!["01"]);
    assert!(none.steps.is_empty());
}

#[test]
fn multiway_rewriting_at_every_occurrence() {
    // both occurrences are rewritten, and overlapping ones too
    let g = multiway(&chars_of("aaa"), &vec![rule("aa", "b")], 1);
    assert_eq!(strings(&g.states), vec!["aaa", "ba", "ab"]);
    assert_eq!(g.steps.len(), 2);
    // a state that is reached twice is one state with two steps
    let g = multiway(&chars_of("ab"), &vec![rule("a", "x"), rule("ab", "xb")], 1);
    assert_eq!(strings(&g.states), vec!["ab", "xb"]);
    assert_eq!(g.steps.len(), 2);
    assert_eq!(strings(&g.frontier), vec!["xb"]);
    // an empty pattern applies nowhere
    let g = multiway(&chars_of("ab"), &vec![rule("", "x")], 2);
    assert_eq!(strings(&g.states), vec!["ab"]);
}

#[test]
fn multiway_drawings_and_page() {
    let rules = vec![rule("01", "10")];
    let g = multiway(&chars_of("01"), &rules, 1);
    assert_eq!(
        render_dot(&g, "multiway", true),
        "digraph multiway {\nrankdir=LR;\n  n0 [label=\"01\"];\n  n1 [label=\"10\"];\n  n0 -> n1 [label=\"01@1\"];\n}\n"
    );
    assert_eq!(
        render_dot(&g, "causal", false),
        "digraph causal {\nrankdir=LR;\n  n0 [label=\"01\"];\n  n1 [label=\"10\"];\n  n0 -> n1 [label=\"01\"];\n}\n"
    );
    let page = render_page(&vec![rule("01", "10"), rule("a\"b", "c")], 8);
    assert!(page.contains("<p>Rule [(\"01\", \"10\"), (\"a\\\"b\", \"c\")], depth 8</p>"));
}

#[test]
fn rules_of_a_multiway_run() {
    let pairs = |rules: &Vec<Rule>| -> Vec<(String, String)> {
        rules
            .iter()
            .map(|r| (r.pattern.iter().collect(), r.replacement.iter().collect()))
            .collect()
    };
    let default = parse_rules(&obj(vec![]));
    assert_eq!(
        pairs(&default),
        vec![("01".to_string(), "10".to_string()), ("10".to_string(), "011".to_string())]
    );
    let given = parse_rules(&obj(vec![(
        "rules",
        Json::List(vec![
            Json::List(vec![text("a"), text("b")]),
            Json::List(vec![text("a")]),
            Json::List(vec![Json::Int(1), text("b")]),
            text("ab"),
            Json::List(vec![text("c"), text("d"), text("e")]),
        ]),
    )]));
    assert_eq!(
        pairs(&given),
        vec![("a".to_string(), "b".to_string()), ("c".to_string(), "d".to_string())]
    );
    assert!(parse_rules(&obj(vec![("rules", Json::List(vec![]))])).is_empty());
    assert_eq!(parse_rules(&obj(vec![("rules", text("x"))])).len(), 2);
}

#[test]
fn a_multiway_run_writes_its_slice() {
    let k = KernelLoop::new();
    let env = Surroundings {
        meta3_root: None,
        meta3_path: None,
        build_default_cmd: None,
        policy_default_cmd: None,
        policy_forbid_global_installs: None,
    };
    let inputs = obj(vec![("depth", Json::Int(2))]);
    let run = match start_at(&k, "ruliad.kernel", &inputs, &env, (0, 0), "id") {
        Ok(Next::More(run)) => run,
        _ => panic!("the run was expected to wait for a step"),
    };
    match &run.step {
        Step::Ruliad { out_dir, states, edges, multiway_dot, .. } => {
            assert_eq!(out_dir, "runs/ruliad_kernel/r-id");
            assert_eq!(states.len(), 3);
            assert_eq!(edges.len(), 2);
            assert_eq!(states[2].u64_at("depth"), Some(2));
            assert_eq!(states[2].get("string").and_then(|v| v.as_str()), Some("011"));
            assert_eq!(edges[1].u64_at("src"), Some(1));
            assert_eq!(edges[1].get("rule").and_then(|v| v.as_str()), Some("10"));
            assert!(multiway_dot.starts_with("digraph multiway {"));
        }
        other => panic!("a multiway step was expected, not {:?}", other),
    }
    let mut kernel = Kernel::new();
    let f = match advance_with(&mut kernel, run, &inputs, Outcome::Written, "other") {
        Ok(Next::Done(f)) => f,
        _ => panic!("the run was expected to end"),
    };
    assert_eq!(f.manifest.run_id, "r-id");
    assert_eq!((f.bits.u, f.bits.e, f.bits.t), (100_000, 0, 950_000));
    assert_eq!(f.manifest.deliverables.len(), 5);
    assert_eq!(f.manifest.deliverables[0], "runs/ruliad_kernel/r-id/states.jsonl");
    assert_eq!(f.manifest.evidence.u64_at("states"), Some(3));
    assert_eq!(f.manifest.evidence.u64_at("edges"), Some(2));
    assert_eq!(f.manifest.evidence.u64_at("depth"), Some(2));
}

#[test]
fn worlds_that_a_message_asks_for() {
    let p = intent_profile("Show me BIOLOGICAL growth").expect("a world");
    assert_eq!(p.name, "Biological Growth");
    assert_eq!(p.seed, "A");
    assert_eq!(p.rules, vec![("A", "AB"), ("B", "A")]);
    assert_eq!(intent_profile("a real trace").unwrap().name, "System Matrix (Real Trace)");
    assert_eq!(intent_profile("viewport").unwrap().name, "Mutating Viewport Skeleton (MVS)");
    assert_eq!(intent_profile("simulate decay").unwrap().name, "Digital Decay");
    assert_eq!(intent_profile("create a cycle").unwrap().name, "Cyclic Stagnation");
    assert_eq!(intent_profile("divine chaos").unwrap().name, "Chaotic Expansion (Divine)");
    // the first word in the order of the worlds decides
    assert_eq!(intent_profile("grow a matrix").unwrap().name, "Biological Growth");
    assert!(intent_profile("hello there").is_none());
}

#[test]
fn what_the_persona_is_asked() {
    let inputs = obj(vec![
        ("message", text("hi")),
        ("loop_mode", Json::Bool(true)),
        (
            "history",
            Json::List(vec![
                obj(vec![("role", text("user")), ("content", text("before"))]),
                obj(vec![("role", text("tool")), ("content", text("output"))]),
                obj(vec![("role", text("assistant")), ("content", text(" "))]),
            ]),
        ),
    ]);
    let messages = chat_messages(&inputs, "persona");
    let seen: Vec<(&str, &str)> = messages
        .iter()
        .map(|m| {
            (
                m.get("role").and_then(|v| v.as_str()).unwrap(),
                m.get("content").and_then(|v| v.as_str()).unwrap(),
            )
        })
        .collect();
    assert_eq!(seen.len(), 5);
    assert_eq!(seen[0], ("system", "persona"));
    assert!(seen[1].1.starts_with("LOOP MODE:"));
    assert_eq!(seen[2], ("user", "before"));
    assert_eq!(seen[3], ("system", "output"));
    assert_eq!(seen[4], ("user", "hi"));
    let bare = chat_messages(&obj(vec![]), "p");
    assert_eq!(bare.len(), 2);
    assert_eq!(bare[1].get("content").and_then(|v| v.as_str()), Some(""));
}

#[test]
fn answers_are_completed() {
    let a = complete_answer(obj(vec![("response", text("sure"))]), "persona", false, "hi");
    assert_eq!(a.get("reply").and_then(|v| v.as_str()), Some("sure"));
    assert_eq!(a.get("intent").and_then(|i| i.get("goal")).and_then(|v| v.as_str()), Some("chat"));
    assert_eq!(a.get("bits").and_then(|b| b.i64_at("T")), Some(1));
    assert!(matches!(a.get("run_payload"), Some(Json::Null)));
    let a = complete_answer(obj(vec![]), "persona", false, "hi");
    assert_eq!(a.get("reply").and_then(|v| v.as_str()), Some("ok"));
    // loop mode: a build that was not asked for becomes a wiki snapshot
    let build = || obj(vec![("run_payload", obj(vec![("goal_id", text("meta3.build"))]))]);
    let goal = |a: &Json| {
        a.get("run_payload")
            .and_then(|p| p.get("goal_id"))
            .and_then(|v| v.as_str())
            .map(|s| s.to_string())
    };
    assert_eq!(goal(&complete_answer(build(), "p", true, "hello")), Some("wiki.generate".into()));
    assert_eq!(goal(&complete_answer(build(), "p", true, "please BUILD")), Some("meta3.build".into()));
    assert_eq!(goal(&complete_answer(build(), "p", false, "hello")), Some("meta3.build".into()));
    assert_eq!(goal(&complete_answer(obj(vec![]), "p", true, "x")), Some("wiki.generate".into()));
    // an answer that is no object stays as it is
    assert!(matches!(complete_answer(text("x"), "p", true, "x"), Json::Text(_)));
    let f = fallback_answer(true, "timeout");
    assert_eq!(goal(&f), Some("wiki.generate".into()));
    assert_eq!(f.get("bits").and_then(|b| b.i64_at("I")), Some(1));
    assert!(matches!(fallback_answer(false, "x").get("run_payload"), Some(Json::Null)));
}

#[test]
fn receipts_tell_goal_view_success_and_bits() {
    let resp = obj(vec![
        ("bits", obj(vec![("t", Json::Real(950_000)), ("U", Json::Real(200_000))])),
        (
            "manifest",
            obj(vec![
                ("goal_id", text("demo")),
                ("bits", obj(vec![("t", Json::Int(0))])),
                (
                    "evidence",
                    obj(vec![
                        ("actual_success", Json::Bool(false)),
                        ("index_html_url", text("/i")),
                        ("static_html_url", text("/s")),
                    ]),
                ),
            ]),
        ),
    ]);
    assert_eq!(get_goal_id(&resp), Some("demo".to_string()));
    assert_eq!(get_view_url(&resp), Some("/s".to_string()));
    assert_eq!(get_actual_success(&resp), Some(false));
    let b = get_bits(&resp);
    assert_eq!((b.t, b.u, b.e), (Some(950_000), Some(200_000), None));
    let only_manifest = obj(vec![("manifest", obj(vec![("bits", obj(vec![("E", Json::Int(1))]))]))]);
    assert_eq!(get_bits(&only_manifest).e, Some(1_000_000));
    assert_eq!(get_bits(&obj(vec![("bits", text("x"))])).t, None);
    assert_eq!(get_goal_id(&obj(vec![])), None);
    assert_eq!(get_view_url(&obj(vec![("manifest", obj(vec![]))])), None);
}

#[test]
fn roles_and_fills() {
    assert_eq!(role_style("user"), ("#e7f5ff", "#1c7ed6"));
    assert_eq!(role_style("assistant"), ("#f3f0ff", "#7048e8"));
    assert_eq!(role_style("tool"), ("#ebfbee", "#2b8a3e"));
    assert_eq!(role_style("system"), ("#fff4e6", "#e8590c"));
    assert_eq!(role_style("ref"), ("#f8f9fa", "#495057"));
    assert_eq!(role_style("else"), ("#f1f3f5", "#495057"));
    let none = BitsLite { a: None, u: None, p: None, e: None, d: None, i: None, r: None, t: None, m: None };
    assert_eq!(node_fill("#x", &none, None), "#x");
    assert_eq!(node_fill("#x", &none, Some(false)), "#fff5f5");
    assert_eq!(node_fill("#x", &BitsLite { e: Some(500_000), ..none }, Some(true)), "#fff5f5");
    assert_eq!(node_fill("#x", &BitsLite { t: Some(900_000), ..none }, None), "#ebfbee");
    assert_eq!(node_fill("#x", &BitsLite { t: Some(600_000), ..none }, None), "#fff9db");
    assert_eq!(node_fill("#x", &BitsLite { t: Some(599_999), ..none }, None), "#x");
}

#[test]
fn paths_are_normalized() {
    assert_eq!(normalize_path("/runs/receipts/r-1/RECEIPT.md"), "/runs/receipts/<run_id>/…");
    assert_eq!(normalize_path("/runs/wiki/w/index.html"), "/runs/wiki/<run_id>/…");
    assert_eq!(normalize_path("/runs/graphs/g/x"), "/runs/graphs/<run_id>/…");
    assert_eq!(normalize_path("/users/demo/chat"), "/users/<user>/chat");
    assert_eq!(normalize_path("/users/demo"), "/users/<user>/");
    assert_eq!(normalize_path("/runs/receipts"), "/runs/receipts");
    assert_eq!(normalize_path("/version"), "/version");
}

#[test]
fn events_of_a_thread_graph() {
    let v = obj(vec![
        ("ts", text("t0")),
        ("role", text("user")),
        ("run_id", text("r-1")),
        ("content", text("  Hello\n  World ")),
    ]);
    let ev = graph_event(&v, None).expect("an event");
    assert_eq!((ev.ts.as_str(), ev.role.as_str(), ev.run_id.as_str()), ("t0", "user", "r-1"));
    assert_eq!(ev.content, "Hello World");
    assert!(graph_event(&v, Some("WORLD")).is_some());
    assert!(graph_event(&v, Some("moon")).is_none());
    assert!(graph_event(&obj(vec![("role", text("user"))]), None).is_none());
    assert!(graph_event(&obj(vec![("role", text("user")), ("run_id", text("a/b"))]), None).is_none());
    assert!(graph_event(&obj(vec![("run_id", text("r-1"))]), None).is_none());
    let edges = seq_edges(3);
    assert_eq!(
        edges,
        vec![
            GraphEdge { src: 0, dst: 1, kind: EdgeKind::Next },
            GraphEdge { src: 1, dst: 2, kind: EdgeKind::Next }
        ]
    );
    assert!(seq_edges(0).is_empty());
    assert!(seq_edges(1).is_empty());
}

#[test]
fn the_drawing_of_a_thread_graph() {
    let none = BitsLite { a: None, u: None, p: None, e: None, d: None, i: None, r: None, t: None, m: None };
    let node = |role: &str, content: &str, goal: Option<&str>, bits: BitsLite| GraphNode {
        event: ThreadEvent {
            ts: "t".into(),
            role: role.into(),
            content: content.into(),
            run_id: "r-1".into(),
        },
        goal_id: goal.map(|s| s.to_string()),
        view_url: None,
        ok: None,
        bits,
    };
    let opts = ThreadGraphOpts {
        max_events: 10,
        content_chars: 20,
        label_mode: "nl+goal".into(),
        filter_text: None,
        filter_goal: None,
        recursive: false,
        depth: 1,
        max_nodes: 20,
        include_bits: true,
    };
    let nodes = vec![
        node("user", "say \"hi\"", Some("demo"), none),
        node("assistant", " ", None, BitsLite { t: Some(950_000), e: Some(0), ..none }),
    ];
    let edges = vec![
        GraphEdge { src: 0, dst: 1, kind: EdgeKind::Next },
        GraphEdge { src: 1, dst: 0, kind: EdgeKind::Reference },
    ];
    let dot = build_dot(&nodes, &edges, &opts);
    let expected = "digraph thread {\nrankdir=TB;\nnode [shape=box, style=\"rounded,filled\", fontname=\"Helvetica\"];\n  n0 [label=\"1: user\\ndemo\\nsay \\\\\"hi\\\\\"\", fillcolor=\"#e7f5ff\", color=\"#1c7ed6\"];\n  n1 [label=\"2: assistant\\nr-1\\nT=0.95 U=- E=0.00\", fillcolor=\"#ebfbee\", color=\"#7048e8\"];\n  n0 -> n1;\n  n1 -> n0 [label=\"ref\"];\n}\n";
    assert_eq!(dot, expected);
    let escaped: String = escape_quotes(&chars_of("a\"b")).iter().collect();
    assert_eq!(escaped, "a\\\"b");
}

#[test]
fn the_thread_of_a_report() {
    let files = vec![
        ThreadFile { name: "small".into(), size: 10 },
        ThreadFile { name: "big".into(), size: 99 },
        ThreadFile { name: "not safe".into(), size: 1000 },
        ThreadFile { name: "also-big".into(), size: 99 },
    ];
    assert_eq!(select_thread("/d", "auto", &files), Ok("big".to_string()));
    assert_eq!(select_thread("/d", "  ", &files), Ok("big".to_string()));
    assert_eq!(select_thread("/d", " t-1 ", &files), Ok("t-1".to_string()));
    assert_eq!(select_thread("/d", "a/b", &files), Err("invalid thread".to_string()));
    assert_eq!(select_thread("/d", "auto", &vec![]), Err("no threads found in /d".to_string()));
    let opts = bound_report_opts(ThreadReportOpts {
        user_id: "demo".into(),
        thread: "auto".into(),
        max_events: 1,
        content_chars: 10_000,
    });
    assert_eq!((opts.max_events, opts.content_chars), (20, 600));
}

#[test]
fn the_words_that_stand_out() {
    assert_eq!(stopwords().len(), 49);
    let texts = vec![
        "Deploy the Engine, then deploy again: engine_v2!".to_string(),
        "should we deploy? that thing".to_string(),
    ];
    let counts: Vec<(String, u64)> =
        keyword_counts(&texts).into_iter().map(|c| (c.key, c.count)).collect();
    assert_eq!(
        counts,
        vec![
            ("deploy".to_string(), 3),
            ("engine".to_string(), 1),
            ("again".to_string(), 1),
            ("engine_v2".to_string(), 1),
            ("thing".to_string(), 1),
        ]
    );
    let top: Vec<(String, u64)> = keywords(&texts).into_iter().map(|c| (c.key, c.count)).collect();
    assert_eq!(top[0], ("deploy".to_string(), 3));
    assert_eq!(top[1], ("again".to_string(), 1));
    assert_eq!(top.len(), 5);
}

#[test]
fn wiki_pages() {
    assert!(should_skip_component(".git"));
    assert!(should_skip_component("node_modules"));
    assert!(should_skip_component("runs"));
    assert!(!should_skip_component("src"));
    assert!(!should_skip_component(".github"));
    assert_eq!(rel_display(Some("a/b.txt"), "/x/a/b.txt"), "./a/b.txt");
    assert_eq!(rel_display(Some(""), "/x"), ".");
    assert_eq!(rel_display(None, "/elsewhere/f"), "/elsewhere/f");
    let counts = vec![
        CountedItem { key: "src".into(), count: 12 },
        CountedItem { key: "docs".into(), count: 3 },
    ];
    assert_eq!(
        folder_summary_md(&counts),
        "# Folder Summary\n\n- src: 12 files\n- docs: 3 files\n"
    );
    let md = index_md("w-1", "now");
    assert!(md.starts_with("# Local Wiki Snapshot\n\nRun ID: w-1  \nGenerated: now\n\nArtifacts:\n"));
    assert!(md.ends_with("--directory runs/wiki/w-1`\n"));
    assert!(index_html().contains("<code>/runs/wiki/&lt;run_id&gt;/index.html</code>"));
    let page = static_html("w-1", "now", "a < b", &vec!["x&y".to_string(), "z".to_string()]);
    assert!(page.contains("<title>Wiki Snapshot w-1</title>"));
    assert!(page.contains("run_id: <code>w-1</code> · generated: <code>now</code>"));
    assert!(page.contains("<pre>a &lt; b</pre>"));
    assert!(page.contains("<ul id=\"list\"><li><code>x&amp;y</code></li>\n<li><code>z</code></li></ul>"));
}

#[test]
fn validation_suites_and_scores() {
    let names = |suite: &str| -> Vec<String> {
        suite_tasks(suite).expect("a suite").into_iter().map(|t| t.goal_id).collect()
    };
    assert_eq!(names("easy"), vec!["easy.echo1", "easy.echo2", "easy.echo3"]);
    assert_eq!(names("adaptive").len(), 4);
    assert_eq!(suite_tasks("impossible").unwrap()[0].expected_difficulty, 900_000);
    assert_eq!(
        suite_tasks("easy").unwrap()[1].inputs.get("message").and_then(|v| v.as_str()),
        Some("test2")
    );
    assert_eq!(suite_tasks("nope").err(), Some("Unknown suite: nope".to_string()));
    assert_eq!(suite_policy().time_ms, 5000);

    let mut bits = Bits::init();
    bits.u = 100_000;
    bits.t = 900_000;
    // 1.0 * 0.4 + 0.7 * 0.4 + 0.9 * 0.2 = 0.86
    assert_eq!(metacognitive_score(&manifest("g", bits, vec![]), 100_000, 0), 860_000);
    assert_eq!(metacognitive_score(&manifest("g", bits, vec![]), 100_000, 100_000), 960_000);
    assert_eq!(metacognitive_score(&manifest("g", bits, vec![]), 100_000, 300_000), 1_000_000);
    bits.e = 1_000_000;
    bits.u = 1_000_000;
    bits.t = 300_000;
    // 0.9 * 0.4 + 1.0 * 0.4 + 0.7 * 0.2 = 0.90
    assert_eq!(metacognitive_score(&manifest("g", bits, vec![]), 900_000, 0), 900_000);

    let mut k = Kernel::new();
    set_align_boost(&mut k, 100_000);
    assert_eq!(k.align_boost, 100_000);
    set_align_boost(&mut k, 900_000);
    assert_eq!(k.align_boost, 300_000);
    set_align_boost(&mut k, -5);
    assert_eq!(k.align_boost, 0);
}

#[test]
fn the_summary_of_a_suite() {
    let result = |u: i64, t: i64, e: i64, score: i64| {
        let mut b = Bits::init();
        b.u = u;
        b.t = t;
        b.e = e;
        ValidationResult { task: "t".into(), expected_difficulty: 0, actual_bits: b, score }
    };
    let results = vec![
        result(100_000, 900_000, 0, 860_000),
        result(500_000, 210_000, 1_000_000, 400_000),
    ];
    assert_eq!(
        generate_summary(&results, 630_000),
        "GOOD metacognitive awareness (score: 0.63). Errors: 1/2. U range: 0.10-0.50. T range: 0.21-0.90"
    );
    assert!(generate_summary(&vec![], 900_000).starts_with("EXCELLENT metacognitive control"));
    assert!(generate_summary(&vec![], 400_000).starts_with("MODERATE self-monitoring"));
    assert!(generate_summary(&vec![], 399_999).starts_with("POOR metacognitive calibration"));
    assert!(generate_summary(&vec![], 0).ends_with("U range: 1.00-0.00. T range: 1.00-0.00"));
    let resp = summarize_suite(results);
    assert_eq!(resp.metacognitive_score, 630_000);
    assert_eq!(resp.results.len(), 2);
    assert!(resp.summary.starts_with("GOOD metacognitive awareness (score: 0.63)"));
}

#[test]
fn pull_requests_for_confident_runs() {
    let mut bits = Bits::init();
    bits.t = 800_000;
    let m = manifest("demo", bits, vec!["a.txt"]);
    let pr = create_pr_if_confident_with(&m, &bits, "u1").expect("a pull request");
    assert_eq!(pr.id, "pr-u1");
    assert_eq!(pr.title, "Agent: demo");
    assert_eq!(pr.branch, "agent/r-1");
    assert_eq!(pr.files_changed, vec!["a.txt"]);
    assert_eq!(pr.confidence, 800_000);
    assert!(ci_gate_check(&pr));
    bits.t = 799_999;
    assert!(create_pr_if_confident_with(&m, &bits, "u1").is_none());
    bits.t = 950_000;
    bits.e = 1;
    assert!(create_pr_if_confident_with(&m, &bits, "u1").is_none());
    let hits = flywheel::search_with("demo.ping", "u2");
    assert_eq!(hits.len(), 1);
    assert_eq!(hits[0].id, "search-u2");
    assert_eq!(hits[0].content, "Context for: demo.ping");
    assert_eq!(hits[0].relevance, 850_000);
    assert!(flywheel::search("q")[0].id.starts_with("search-"));
}

#[test]
fn indicators_and_planning() {
    let k = current_scores();
    assert_eq!(k.flow_minutes, 600_000);
    let goals = weekly_planning();
    assert_eq!(goals.len(), 2);
    assert_eq!(goals[0].id, "improve-flow-minutes");
    assert_eq!(goals[0].priority, 400_000);
    assert_eq!(goals[0].estimated_impact, 150_000);
    assert_eq!(goals[1].kpi_target, "noise_ratio");
    assert_eq!(goals[1].priority, 300_000);
    let mut healthy = current_scores();
    healthy.flow_minutes = 700_000;
    healthy.noise_ratio = 800_000;
    assert!(plan_week(&healthy).is_empty());
    let goal = AgentGoal {
        id: "g".into(),
        kpi_target: "k".into(),
        priority: 0,
        estimated_impact: 150_000,
    };
    assert_eq!(track_kpi_impact(&goal, 100_000), 950_000);
    assert_eq!(track_kpi_impact(&goal, 250_000), 900_000);
    let state = render_unified_state();
    assert_eq!(state.search_hits[0].relevance, 920_000);
    assert!(state.agent_runs.is_empty());
    assert_eq!(state.cost_tracking.total_cost, 2_500_000);
    assert!(!state.eval_scores[0].timestamp.is_empty());
}

#[test]
fn the_nightly_scorecard() {
    let event = |component: &str, e: Option<i64>| TelemetryEvent {
        ts: "t".into(),
        component: component.into(),
        event_type: "run".into(),
        run_id: None,
        bits: e.map(|e| {
            let mut b = Bits::init();
            b.e = e;
            b
        }),
        cost: None,
        kpi_impact: None,
        metadata: Json::Null,
    };
    let mut store = TelemetryStore::new();
    store.append(event("agent", Some(0)));
    store.append(event("agent", Some(1_000_000)));
    store.append(event("agent", None));
    store.append(event("kpi", Some(500_000)));
    let scores: Vec<(String, i64)> =
        store.nightly_scorecard().into_iter().map(|s| (s.component, s.score)).collect();
    assert_eq!(
        scores,
        vec![
            ("agent".to_string(), 666_666),
            ("flywheel".to_string(), 1_000_000),
            ("monorepo".to_string(), 1_000_000),
            ("kpi".to_string(), 0),
        ]
    );
    assert_eq!(decide("kpi", 0), Some("PRUNE: kpi (score: 0.00)".to_string()));
    assert_eq!(decide("flywheel", 1_000_000), Some("INVEST: flywheel (score: 1.00)".to_string()));
    assert_eq!(decide("agent", 666_666), None);
    assert_eq!(decide("agent", 500_000), None);
    assert_eq!(decide("agent", 900_000), None);
    assert_eq!(
        store.prune_or_invest_decisions(),
        [
            "INVEST: flywheel (score: 1.00)",
            "INVEST: monorepo (score: 1.00)",
            "PRUNE: kpi (score: 0.00)",
        ]
    );
    assert_eq!(
        TelemetryStore::new().prune_or_invest_decisions(),
        [
            "INVEST: agent (score: 1.00)",
            "INVEST: flywheel (score: 1.00)",
            "INVEST: monorepo (score: 1.00)",
            "INVEST: kpi (score: 1.00)",
        ]
    );
}
