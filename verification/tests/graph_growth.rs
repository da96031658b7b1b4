use one_engine::api::threads::ThreadEvent;
use one_engine::engine::api_graph::{api_graph, ApiTraceEvent};
use one_engine::engine::graphs::{
    thread_graph_with_opts, ApiGraphOpts, BitsLite, EdgeKind, GraphEdge, GraphNode,
    ThreadGraphOpts,
};
use one_engine::engine::receipts_graph::{receipts_graph, ReceiptItem};
use one_engine::engine::thread_graph::{
    bits_lite_json, copy_node, events_json, extract_run_ids_limited, graph_node, id_parts_of,
    nodes_with_goal, reference_node, references_of, shown_graph, thread_graph_files, Growth,
};
use one_engine::json::Json;

fn object(entries: Vec<(&str, Json)>) -> Json {
    Json::Object(entries.into_iter().map(|(k, v)| (k.to_string(), v)).collect())
}

fn text(s: &str) -> Json {
    Json::Text(s.to_string())
}

fn print(v: &Json) -> String {
    format!("{:?}", v)
}

fn receipt(goal: &str, evidence: Vec<(&str, Json)>) -> Json {
    object(vec![(
        "manifest",
        object(vec![("goal_id", text(goal)), ("evidence", object(evidence))]),
    )])
}

fn event(role: &str, run_id: &str, content: &str) -> ThreadEvent {
    ThreadEvent { ts: "t".into(), role: role.into(), content: content.into(), run_id: run_id.into() }
}

fn node(role: &str, run_id: &str, goal: Option<&str>) -> GraphNode {
    let resp = goal.map(|g| receipt(g, vec![]));
    graph_node(event(role, run_id, "text"), resp.as_ref())
}

fn run_ids(nodes: &Vec<GraphNode>) -> Vec<&str> {
    nodes.iter().map(|n| n.event.run_id.as_str()).collect()
}

fn opts() -> ThreadGraphOpts {
    ThreadGraphOpts {
        max_events: 50,
        content_chars: 40,
        label_mode: "nl+goal".into(),
        filter_text: None,
        filter_goal: None,
        recursive: true,
        depth: 2,
        max_nodes: 100,
        include_bits: true,
    }
}

#[test]
fn texts_are_split_into_identifier_parts() {
    let parts: Vec<String> =
        id_parts_of("see r-12345678, (r-1) a.b_c-d").iter().map(|p| p.iter().collect()).collect();
    assert_eq!(parts, ["see", "r-12345678", "", "", "r-1", "", "a.b_c-d"]);
    let none: Vec<String> = id_parts_of("").iter().map(|p| p.iter().collect()).collect();
    assert_eq!(none, [""]);
}

#[test]
fn runs_are_found_in_the_texts_of_a_value() {
    let v = object(vec![
        ("note", text("after r-aaaaaaaa1 came r-bbbbbbbb2; again r-aaaaaaaa1")),
        ("short", text("r-short")),
        ("unsafe", text("r-has..dots12")),
        ("other", text("x-cccccccc3 R-dddddddd4")),
        ("list", Json::List(vec![text("r-eeeeeeee5"), Json::Int(7), text("(r-ffffffff6)")])),
        ("deep", object(vec![("deeper", object(vec![("text", text("r-gggggggg7"))]))])),
    ]);
    let mut out = Vec::new();
    let mut budget = 24;
    extract_run_ids_limited(&v, &mut out, 5, &mut budget);
    assert_eq!(out, ["r-aaaaaaaa1", "r-bbbbbbbb2", "r-eeeeeeee5", "r-ffffffff6", "r-gggggggg7"]);
    assert_eq!(budget, 19);
    assert_eq!(references_of(&v), out);

    let mut shallow = Vec::new();
    let mut budget = 24;
    extract_run_ids_limited(&v, &mut shallow, 3, &mut budget);
    assert_eq!(shallow, ["r-aaaaaaaa1", "r-bbbbbbbb2", "r-eeeeeeee5", "r-ffffffff6"]);

    let mut few = vec!["r-bbbbbbbb2".to_string()];
    let mut budget = 2;
    extract_run_ids_limited(&v, &mut few, 5, &mut budget);
    assert_eq!(few, ["r-bbbbbbbb2", "r-aaaaaaaa1", "r-eeeeeeee5"]);
    assert_eq!(budget, 0);

    let mut nothing = Vec::new();
    let mut budget = 0;
    extract_run_ids_limited(&v, &mut nothing, 5, &mut budget);
    assert!(nothing.is_empty());
    let mut budget = 5;
    extract_run_ids_limited(&v, &mut nothing, 0, &mut budget);
    assert!(nothing.is_empty());
    assert_eq!(budget, 5);
    extract_run_ids_limited(&text("r-0123456789"), &mut nothing, 1, &mut budget);
    assert_eq!(nothing, ["r-0123456789"]);
    extract_run_ids_limited(&text("r-01234567"), &mut nothing, 1, &mut budget);
    assert_eq!(nothing, ["r-0123456789", "r-01234567"]);
    extract_run_ids_limited(&text("r-0123456"), &mut nothing, 1, &mut budget);
    assert_eq!(nothing.len(), 2);
}

#[test]
fn a_node_tells_what_the_receipt_of_its_run_tells() {
    let resp = object(vec![
        (
            "manifest",
            object(vec![
                ("goal_id", text("wiki.generate")),
                (
                    "evidence",
                    object(vec![
                        ("actual_success", Json::Bool(true)),
                        ("static_html_url", text("/runs/w/static.html")),
                    ]),
                ),
            ]),
        ),
        ("bits", object(vec![("t", Json::Real(900_000)), ("u", Json::Real(100_000))])),
    ]);
    let n = graph_node(event("user", "r-1", "hello"), Some(&resp));
    assert_eq!(n.event.content, "hello");
    assert_eq!(n.goal_id.as_deref(), Some("wiki.generate"));
    assert_eq!(n.view_url.as_deref(), Some("/runs/w/static.html"));
    assert_eq!(n.ok, Some(true));
    assert_eq!(n.bits.t, Some(900_000));
    assert_eq!(n.bits.u, Some(100_000));
    assert_eq!(n.bits.e, None);

    let bare = graph_node(event("user", "r-1", "hello"), None);
    assert_eq!(bare.event.run_id, "r-1");
    assert_eq!(bare.goal_id, None);
    assert_eq!(bare.view_url, None);
    assert_eq!(bare.ok, None);
    assert_eq!(bare.bits.t, None);

    let copy = copy_node(&n);
    assert_eq!(copy.event.ts, "t");
    assert_eq!(copy.event.role, "user");
    assert_eq!(copy.goal_id, n.goal_id);
    assert_eq!(copy.view_url, n.view_url);
    assert_eq!(copy.ok, n.ok);
    assert_eq!(copy.bits, n.bits);
}

#[test]
fn the_node_of_a_referenced_run_shows_a_snippet() {
    let with_reply = receipt(
        "meta.omni",
        vec![("reply", text("first\nline  two")), ("stdout", text("out")), ("error", text("err"))],
    );
    let n = reference_node("r-22222222", Some(&with_reply));
    assert_eq!(n.event.role, "ref");
    assert_eq!(n.event.ts, "");
    assert_eq!(n.event.run_id, "r-22222222");
    assert_eq!(n.event.content, "first line two");
    assert_eq!(n.goal_id.as_deref(), Some("meta.omni"));

    let with_stdout = receipt("shell.exec", vec![("stdout", text("out")), ("error", text("err"))]);
    assert_eq!(reference_node("r", Some(&with_stdout)).event.content, "out");
    let with_error = receipt("shell.exec", vec![("error", text("err"))]);
    assert_eq!(reference_node("r", Some(&with_error)).event.content, "err");
    let odd_reply = receipt("g", vec![("reply", Json::Int(3)), ("stdout", text("out"))]);
    assert_eq!(reference_node("r", Some(&odd_reply)).event.content, "");
    assert_eq!(reference_node("r", None).event.content, "");
    assert_eq!(reference_node("r", None).goal_id, None);

    let long = receipt("g", vec![("stdout", text(&"x".repeat(300)))]);
    let shown = reference_node("r", Some(&long)).event.content;
    assert_eq!(shown.chars().count(), 261);
    assert!(shown.ends_with('…'));
}

#[test]
fn a_graph_grows_by_the_runs_that_receipts_refer_to() {
    let nodes = vec![
        node("user", "r-aaaaaaaa", Some("chat")),
        node("assistant", "r-aaaaaaaa", Some("chat")),
        node("user", "r-bbbbbbbb", None),
    ];
    let mut g = Growth::begin(nodes);
    assert!(g.is_wf());
    assert_eq!(g.frontier, [(0, 0), (1, 0), (2, 0)]);
    assert_eq!(
        g.edges,
        [
            GraphEdge { src: 0, dst: 1, kind: EdgeKind::Next },
            GraphEdge { src: 1, dst: 2, kind: EdgeKind::Next },
        ]
    );

    assert_eq!(g.take_next(2), Some((2, 0)));
    assert_eq!(g.frontier, [(0, 0), (1, 0)]);
    let found = vec![
        ("r-bbbbbbbb".to_string(), None),
        ("r-aaaaaaaa".to_string(), None),
        ("r-cccccccc".to_string(), Some(receipt("wiki.generate", vec![("stdout", text("made"))]))),
        ("r-dddddddd".to_string(), None),
    ];
    g.absorb(2, 0, &found, 4);
    assert!(g.is_wf());
    assert_eq!(run_ids(&g.nodes), ["r-aaaaaaaa", "r-aaaaaaaa", "r-bbbbbbbb", "r-cccccccc"]);
    assert_eq!(g.nodes[3].event.role, "ref");
    assert_eq!(g.nodes[3].event.content, "made");
    assert_eq!(g.nodes[3].goal_id.as_deref(), Some("wiki.generate"));
    assert_eq!(
        g.edges[2..],
        [
            GraphEdge { src: 2, dst: 1, kind: EdgeKind::Reference },
            GraphEdge { src: 2, dst: 3, kind: EdgeKind::Reference },
        ]
    );
    assert_eq!(g.frontier, [(0, 0), (1, 0), (3, 1)]);

    assert_eq!(g.take_next(1), Some((1, 0)));
    assert_eq!(g.frontier, [(0, 0)]);
    g.absorb(1, 0, &vec![("r-cccccccc".to_string(), None)], 4);
    assert_eq!(g.nodes.len(), 4);
    assert_eq!(g.edges.len(), 5);
    assert_eq!(g.edges[4], GraphEdge { src: 1, dst: 3, kind: EdgeKind::Reference });

    assert_eq!(g.take_next(0), None);
    assert!(g.frontier.is_empty());
    assert_eq!(g.take_next(3), None);
}

#[test]
fn an_empty_graph_has_nothing_to_read() {
    let mut g = Growth::begin(Vec::new());
    assert!(g.edges.is_empty());
    assert_eq!(g.take_next(3), None);
    let broken = Growth { nodes: Vec::new(), edges: Vec::new(), frontier: vec![(0, 0)] };
    assert!(!broken.is_wf());
}

#[test]
fn a_graph_is_shown_by_goal() {
    let nodes = || {
        vec![
            node("user", "r-1", Some("Wiki.Generate")),
            node("assistant", "r-2", Some("chat")),
            node("user", "r-3", None),
            node("tool", "r-4", Some("my.wiki")),
        ]
    };
    assert_eq!(run_ids(&nodes_with_goal(&nodes(), "wiki")), ["r-1", "r-4"]);
    assert_eq!(run_ids(&nodes_with_goal(&nodes(), "")), ["r-1", "r-2", "r-3", "r-4"]);
    assert!(nodes_with_goal(&nodes(), "WIKI").is_empty());

    let edges = || vec![GraphEdge { src: 0, dst: 3, kind: EdgeKind::Reference }];
    let by_goal = shown_graph(nodes(), edges(), Some("WIKI"));
    assert_eq!(run_ids(&by_goal.nodes), ["r-1", "r-4"]);
    assert_eq!(by_goal.edges, [GraphEdge { src: 0, dst: 1, kind: EdgeKind::Next }]);
    assert_eq!(by_goal.filter_goal.as_deref(), Some("wiki"));

    let no_match = shown_graph(nodes(), edges(), Some("build"));
    assert_eq!(no_match.nodes.len(), 4);
    assert_eq!(no_match.edges, edges());
    assert_eq!(no_match.filter_goal, None);

    let whole = shown_graph(nodes(), edges(), None);
    assert_eq!(whole.nodes.len(), 4);
    assert_eq!(whole.edges, edges());
    assert_eq!(whole.filter_goal, None);
}

#[test]
fn a_thread_graph_as_a_structured_value() {
    let none = BitsLite { a: None, u: None, p: None, e: None, d: None, i: None, r: None, t: None, m: None };
    let bits = BitsLite { t: Some(900_000), ..none };
    assert_eq!(
        print(&bits_lite_json(&bits)),
        print(&object(vec![
            ("a", Json::Null),
            ("u", Json::Null),
            ("p", Json::Null),
            ("e", Json::Null),
            ("d", Json::Null),
            ("i", Json::Null),
            ("r", Json::Null),
            ("t", Json::Real(900_000)),
            ("m", Json::Null),
        ]))
    );
    let n = GraphNode {
        event: event("user", "r-1", "hello"),
        goal_id: Some("chat".into()),
        view_url: None,
        ok: Some(false),
        bits,
    };
    let expected_event = object(vec![
        ("i", Json::Nat(1)),
        ("ts", text("t")),
        ("role", text("user")),
        ("run_id", text("r-1")),
        ("content", text("hello")),
        ("goal_id", text("chat")),
        ("view_url", Json::Null),
        ("actual_success", Json::Bool(false)),
        ("bits", bits_lite_json(&bits)),
        ("receipt_url", text("/runs/receipts/r-1/RECEIPT.md")),
    ]);
    assert_eq!(
        print(&events_json("ann", "main", &None, &vec![copy_node(&n)])),
        print(&object(vec![
            ("user_id", text("ann")),
            ("thread", text("main")),
            ("events", Json::List(vec![expected_event])),
        ]))
    );
    let filtered = events_json("ann", "main", &Some("chat".to_string()), &Vec::new());
    assert_eq!(
        print(&filtered),
        print(&object(vec![
            ("user_id", text("ann")),
            ("thread", text("main")),
            ("filter_goal", text("chat")),
            ("events", Json::List(vec![])),
        ]))
    );
}

#[test]
fn the_files_of_a_thread_graph() {
    let job = thread_graph_with_opts("/data", "r-graph", "ann", "main", opts()).unwrap();
    let g = shown_graph(
        vec![node("user", "r-1", Some("chat")), node("assistant", "r-2", None)],
        vec![GraphEdge { src: 0, dst: 1, kind: EdgeKind::Next }],
        None,
    );
    let f = thread_graph_files(&job, "main", &g);
    assert_eq!(f.out_dir, "/data/runs/graphs/r-graph");
    assert_eq!((f.nodes, f.edges), (2, 1));
    assert!(f.dot.starts_with("digraph thread {\n"));
    assert!(f.dot.contains("  n0 -> n1;\n"));
    assert!(f.index_html.contains("<svg width=\"980\" height=\"196\""));
    assert!(f.index_html.contains("<tr><td>2</td><td>assistant</td>"));
    assert!(f.index_html.contains("r-graph"));
    assert_eq!(f.events.get("thread").and_then(|v| v.as_str()), Some("main"));
    assert_eq!(f.events.get("events").and_then(|v| v.as_array()).map(|a| a.len()), Some(2));
}

#[test]
fn the_receipts_graph_of_a_run() {
    let item = |run_id: &str, mtime: u64| ReceiptItem {
        run_id: run_id.into(),
        goal_id: "g".into(),
        ok: Some(true),
        view: None,
        mtime,
    };
    let f = receipts_graph("/data", "r-graph", 2, vec![item("r-1", 1), item("r-3", 3), item("r-2", 2)])
        .unwrap();
    assert_eq!(f.out_dir, "/data/runs/graphs/r-graph");
    assert_eq!((f.nodes, f.edges), (2, 1));
    assert!(f.dot.contains("  n0 [label=\"g\\nr-2\\nok\", fillcolor=\"#ebfbee\"];\n"));
    assert!(f.dot.contains("  n1 [label=\"g\\nr-3\\nok\", fillcolor=\"#ebfbee\"];\n"));
    assert!(f.dot.contains("  n0 -> n1;\n"));
    assert!(!f.dot.contains("r-1"));
    assert!(f.index_html.contains("<li data-t=\"g r-2\">"));
    assert!(f.index_html.contains("nodes: <code>2</code> · edges: <code>1</code>"));
    assert_eq!(
        print(&f.events),
        print(&object(vec![
            ("kind", text("receipts")),
            ("limit", Json::Nat(2)),
            (
                "items",
                Json::List(
                    ["r-2", "r-3"]
                        .iter()
                        .zip([2u64, 3])
                        .map(|(id, m)| {
                            object(vec![
                                ("run_id", text(id)),
                                ("goal_id", text("g")),
                                ("actual_success", Json::Bool(true)),
                                ("view_url", Json::Null),
                                ("receipt_url", text(&format!("/runs/receipts/{id}/RECEIPT.md"))),
                                ("mtime_s", Json::Nat(m)),
                            ])
                        })
                        .collect()
                )
            ),
        ]))
    );

    let empty = receipts_graph("/data", "r-graph", 0, Vec::new()).unwrap();
    assert_eq!((empty.nodes, empty.edges), (0, 0));
    assert_eq!(empty.events.get("limit").and_then(|v| v.as_u64()), Some(1));
    assert_eq!(receipts_graph("/data", "../x", 5, Vec::new()).unwrap_err(), "invalid __run_id");
}

#[test]
fn the_api_graph_of_a_run() {
    let request = |method: &str, path: &str| ApiTraceEvent {
        ts: "t".into(),
        method: method.into(),
        path: path.into(),
        query: None,
        status: 200,
        ms: 5,
        mutation: method == "POST",
        run_id: Some("r-1".into()),
        user_id: None,
        thread: None,
    };
    let all = ApiGraphOpts {
        limit: 1,
        only_mutations: false,
        run_id: None,
        thread: None,
        user_id: None,
        collapse: true,
    };
    let evs = vec![request("GET", "/a"), request("GET", "/a"), request("POST", "/b")];
    let f = api_graph("/data", "r-graph", all, &evs).unwrap();
    assert_eq!(f.out_dir, "/data/runs/graphs/r-graph");
    assert_eq!((f.nodes, f.edges), (2, 1));
    assert!(f.dot.contains("  n0 [label=\"GET /a\"];\n  n1 [label=\"POST /b\"];\n  n0 -> n1;\n"));
    assert!(f.index_html.contains("<tr class=\"mut\" data-t=\"POST /b r-1 \"><td>2</td>"));
    assert_eq!(
        print(&f.events),
        print(&object(vec![
            ("kind", text("api")),
            (
                "opts",
                object(vec![
                    ("limit", Json::Nat(10)),
                    ("only_mutations", Json::Bool(false)),
                    ("run_id", Json::Null),
                    ("thread", Json::Null),
                    ("user_id", Json::Null),
                    ("collapse", Json::Bool(true)),
                ])
            ),
            (
                "rows",
                Json::List(vec![
                    object(vec![
                        ("i", Json::Nat(1)),
                        ("ts", text("t")),
                        ("method", text("GET")),
                        ("path", text("/a")),
                        ("status", Json::Nat(200)),
                        ("ms", Json::Nat(10)),
                        ("mutation", Json::Bool(false)),
                        ("run_id", text("r-1")),
                        ("thread", text("")),
                    ]),
                    object(vec![
                        ("i", Json::Nat(2)),
                        ("ts", text("t")),
                        ("method", text("POST")),
                        ("path", text("/b")),
                        ("status", Json::Nat(200)),
                        ("ms", Json::Nat(5)),
                        ("mutation", Json::Bool(true)),
                        ("run_id", text("r-1")),
                        ("thread", text("")),
                    ]),
                ])
            ),
            ("nodes", Json::List(vec![text("GET /a"), text("POST /b")])),
            ("edges", Json::List(vec![Json::List(vec![Json::Nat(0), Json::Nat(1)])])),
        ]))
    );

    let mutations = ApiGraphOpts {
        limit: 10,
        only_mutations: true,
        run_id: Some("r-2".into()),
        thread: None,
        user_id: None,
        collapse: true,
    };
    assert_eq!(api_graph("/data", "r-graph", mutations, &evs).unwrap_err(), "no matching api events");
    let any = ApiGraphOpts {
        limit: 10,
        only_mutations: false,
        run_id: None,
        thread: None,
        user_id: None,
        collapse: false,
    };
    assert_eq!(api_graph("/data", "a/b", any, &evs).unwrap_err(), "invalid __run_id");
}
