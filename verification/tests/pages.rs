use one_engine::api::threads::ThreadEvent;
use one_engine::engine::api_graph::{
    api_dot, api_items_html, api_nodes, api_rows, ApiTraceEvent, Row,
};
use one_engine::engine::graphs::{
    api_limit, receipts_limit, ApiGraphOpts, BitsLite, GraphNode, ThreadGraphOpts,
};
use one_engine::engine::pages::{index_html, index_html_api, index_html_receipts};
use one_engine::engine::receipts_graph::{
    latest_receipts, outcome_of, receipt_item, receipts_dot, receipts_items_html, ReceiptItem,
};
use one_engine::engine::thread_pages::{build_svg, build_table_html};
use one_engine::json::Json;

fn object(entries: Vec<(&str, Json)>) -> Json {
    Json::Object(entries.into_iter().map(|(k, v)| (k.to_string(), v)).collect())
}

fn request(method: &str, path: &str, run_id: Option<&str>, ms: u64, status: u16) -> ApiTraceEvent {
    ApiTraceEvent {
        ts: "2024-01-01T00:00:00Z".into(),
        method: method.into(),
        path: path.into(),
        query: None,
        status,
        ms,
        mutation: method != "GET",
        run_id: run_id.map(|s| s.to_string()),
        user_id: Some("ann".into()),
        thread: None,
    }
}

fn all_requests() -> ApiGraphOpts {
    ApiGraphOpts {
        limit: 100,
        only_mutations: false,
        run_id: None,
        thread: None,
        user_id: None,
        collapse: true,
    }
}

fn receipt(run_id: &str, goal_id: &str, ok: Option<bool>, mtime: u64) -> ReceiptItem {
    ReceiptItem { run_id: run_id.into(), goal_id: goal_id.into(), ok, view: None, mtime }
}

fn no_bits() -> BitsLite {
    BitsLite { a: None, u: None, p: None, e: None, d: None, i: None, r: None, t: None, m: None }
}

fn drawn_with(include_bits: bool, label_mode: &str) -> ThreadGraphOpts {
    ThreadGraphOpts {
        max_events: 10,
        content_chars: 5,
        label_mode: label_mode.into(),
        filter_text: None,
        filter_goal: None,
        recursive: false,
        depth: 0,
        max_nodes: 10,
        include_bits,
    }
}

#[test]
fn repeated_requests_collapse_into_one_row() {
    let evs = vec![
        request("GET", "/runs/r-1/status", Some("r-1"), 3, 200),
        request("GET", "/runs/r-1/status", Some("r-1"), 4, 500),
        request("POST", "/run", Some("r-1"), 9, 200),
        request("GET", "/runs/r-1/status", Some("r-1"), 1, 200),
    ];
    let rows = api_rows(&evs, &all_requests());
    assert_eq!(rows.len(), 3);
    assert_eq!(rows[0].ms, 7);
    assert_eq!(rows[0].status, 500);
    assert_eq!(rows[0].ts, "2024-01-01T00:00:00Z");
    assert_eq!(rows[1].method, "POST");
    assert!(rows[1].mutation);
    assert_eq!(rows[2].ms, 1);
    assert_eq!(rows[2].run_id, "r-1");
    assert_eq!(rows[2].thread, "");

    let apart = api_rows(&evs, &ApiGraphOpts { collapse: false, ..all_requests() });
    assert_eq!(apart.len(), 4);
    assert_eq!(apart[0].ms, 3);
}

#[test]
fn collapsed_times_saturate() {
    let evs = vec![
        request("GET", "/a", None, u64::MAX, 200),
        request("GET", "/a", None, 2, 200),
    ];
    let rows = api_rows(&evs, &all_requests());
    assert_eq!(rows.len(), 1);
    assert_eq!(rows[0].ms, u64::MAX);
}

#[test]
fn api_rows_keep_to_filters_and_limit() {
    let mut evs = vec![
        request("GET", "/a", Some("r-1"), 1, 200),
        request("POST", "/b", Some("r-2"), 1, 200),
        request("POST", "/c", Some("r-1"), 1, 200),
        request("DELETE", "/d", Some("r-1"), 1, 200),
    ];
    evs[2].thread = Some("main".into());
    let mutations = api_rows(&evs, &ApiGraphOpts { only_mutations: true, ..all_requests() });
    assert_eq!(mutations.iter().map(|r| r.path.as_str()).collect::<Vec<_>>(), ["/b", "/c", "/d"]);
    let of_run =
        api_rows(&evs, &ApiGraphOpts { run_id: Some("r-1".into()), ..all_requests() });
    assert_eq!(of_run.iter().map(|r| r.path.as_str()).collect::<Vec<_>>(), ["/a", "/c", "/d"]);
    let of_thread =
        api_rows(&evs, &ApiGraphOpts { thread: Some("main".into()), ..all_requests() });
    assert_eq!(of_thread.iter().map(|r| r.path.as_str()).collect::<Vec<_>>(), ["/c"]);
    let of_user = api_rows(&evs, &ApiGraphOpts { user_id: Some("bob".into()), ..all_requests() });
    assert!(of_user.is_empty());
    let two = api_rows(&evs, &ApiGraphOpts { limit: 2, ..all_requests() });
    assert_eq!(two.iter().map(|r| r.path.as_str()).collect::<Vec<_>>(), ["/a", "/b"]);
    let none = api_rows(&evs, &ApiGraphOpts { limit: 0, ..all_requests() });
    assert_eq!(none.iter().map(|r| r.path.as_str()).collect::<Vec<_>>(), ["/a"]);
}

#[test]
fn api_nodes_are_the_endpoints_in_order_of_appearance() {
    let evs = vec![
        request("GET", "/a", None, 1, 200),
        request("POST", "/b", None, 1, 200),
        request("GET", "/a", None, 1, 200),
        request("GET", "/c", None, 1, 200),
    ];
    let rows = api_rows(&evs, &all_requests());
    let (nodes, edges) = api_nodes(&rows);
    assert_eq!(nodes, ["GET /a", "POST /b", "GET /c"]);
    assert_eq!(edges, [(0, 1), (1, 0), (0, 2)]);
    let (no_nodes, no_edges) = api_nodes(&Vec::<Row>::new());
    assert!(no_nodes.is_empty());
    assert!(no_edges.is_empty());
}

#[test]
fn an_api_graph_is_drawn() {
    let nodes = vec!["GET /a".to_string(), "POST /\"b\"".to_string()];
    let edges = vec![(0usize, 1usize), (1, 0)];
    assert_eq!(
        api_dot(&nodes, &edges),
        "digraph api {\nrankdir=LR;\nnode [shape=box, style=\"rounded,filled\", fontname=\"Helvetica\", fillcolor=\"#f8f9fa\"];\n  n0 [label=\"GET /a\"];\n  n1 [label=\"POST /\\\"b\\\"\"];\n  n0 -> n1;\n  n1 -> n0;\n}\n"
    );
    assert_eq!(
        api_dot(&Vec::new(), &Vec::new()),
        "digraph api {\nrankdir=LR;\nnode [shape=box, style=\"rounded,filled\", fontname=\"Helvetica\", fillcolor=\"#f8f9fa\"];\n}\n"
    );
}

#[test]
fn api_rows_are_listed_on_the_page() {
    let rows = vec![
        Row {
            ts: "t1".into(),
            method: "POST".into(),
            path: "/run?a=1&b".into(),
            status: 201,
            ms: 12,
            mutation: true,
            run_id: "r-1".into(),
            thread: "<main>".into(),
        },
        Row {
            ts: "t2".into(),
            method: "GET".into(),
            path: "/x".into(),
            status: 200,
            ms: 0,
            mutation: false,
            run_id: "".into(),
            thread: "".into(),
        },
    ];
    assert_eq!(
        api_items_html(&rows),
        "<tr class=\"mut\" data-t=\"POST /run?a=1&amp;b r-1 &lt;main&gt;\"><td>1</td><td>t1</td><td>POST</td><td><code>/run?a=1&amp;b</code></td><td>201</td><td>12</td><td><code>r-1</code></td><td><code>&lt;main&gt;</code></td></tr>\n<tr class=\"\" data-t=\"GET /x  \"><td>2</td><td>t2</td><td>GET</td><td><code>/x</code></td><td>200</td><td>0</td><td><code></code></td><td><code></code></td></tr>\n"
    );
    assert_eq!(api_items_html(&Vec::new()), "");
}

#[test]
fn a_receipt_without_a_manifest_is_no_item() {
    let pending = object(vec![("status", Json::Text("queued".into()))]);
    assert!(receipt_item("r-1", &pending, 5).is_none());

    let bare = object(vec![("manifest", object(vec![]))]);
    let item = receipt_item("r-2", &bare, 6).unwrap();
    assert_eq!(item.run_id, "r-2");
    assert_eq!(item.goal_id, "unknown");
    assert_eq!(item.ok, None);
    assert_eq!(item.view, None);
    assert_eq!(item.mtime, 6);

    let full = object(vec![(
        "manifest",
        object(vec![
            ("goal_id", Json::Text("wiki.generate".into())),
            (
                "evidence",
                object(vec![
                    ("actual_success", Json::Bool(false)),
                    ("index_html_url", Json::Text("/runs/w/r-3/index.html".into())),
                ]),
            ),
        ]),
    )]);
    let item = receipt_item("r-3", &full, 7).unwrap();
    assert_eq!(item.goal_id, "wiki.generate");
    assert_eq!(item.ok, Some(false));
    assert_eq!(item.view.as_deref(), Some("/runs/w/r-3/index.html"));
}

#[test]
fn the_latest_receipts_come_earliest_first() {
    let items = vec![
        receipt("r-a", "g", None, 10),
        receipt("r-d", "g", None, 40),
        receipt("r-b", "g", None, 20),
        receipt("r-c", "g", None, 20),
        receipt("r-e", "g", None, 5),
    ];
    let ids = |v: &Vec<ReceiptItem>| v.iter().map(|i| i.run_id.clone()).collect::<Vec<_>>();
    let three = latest_receipts(items, 3);
    assert_eq!(ids(&three), ["r-b", "r-c", "r-d"]);
    let all = latest_receipts(three, 10);
    assert_eq!(ids(&all), ["r-b", "r-c", "r-d"]);
    assert!(latest_receipts(all, 0).is_empty());
}

#[test]
fn a_receipts_graph_is_drawn() {
    assert_eq!(outcome_of(Some(true)), "ok");
    assert_eq!(outcome_of(Some(false)), "fail");
    assert_eq!(outcome_of(None), "?");
    let items = vec![
        receipt("r-1", "shell.exec", Some(true), 1),
        receipt("r-2", "say \"hi\"", Some(false), 2),
        receipt("r-3", "g", None, 3),
    ];
    assert_eq!(
        receipts_dot(&items),
        "digraph receipts {\nrankdir=TB;\nnode [shape=box, style=\"rounded,filled\", fontname=\"Helvetica\"];\n  n0 [label=\"shell.exec\\nr-1\\nok\", fillcolor=\"#ebfbee\"];\n  n1 [label=\"say \\\"hi\\\"\\nr-2\\nfail\", fillcolor=\"#fff5f5\"];\n  n2 [label=\"g\\nr-3\\n?\", fillcolor=\"#f1f3f5\"];\n  n0 -> n1;\n  n1 -> n2;\n}\n"
    );
    assert_eq!(
        receipts_dot(&Vec::new()),
        "digraph receipts {\nrankdir=TB;\nnode [shape=box, style=\"rounded,filled\", fontname=\"Helvetica\"];\n}\n"
    );
}

#[test]
fn receipts_are_listed_on_the_page() {
    let mut seen = receipt("r-1", "a&b", Some(true), 1);
    seen.view = Some("/v?x=1&y=2".into());
    let mut unseen = receipt("r-2", "g", None, 2);
    unseen.view = Some("".into());
    assert_eq!(
        receipts_items_html(&vec![seen, unseen]),
        "<li data-t=\"a&amp;b r-1\"><a href=\"/runs/receipts/r-1/RECEIPT.md\" target=\"_blank\" rel=\"noreferrer\">a&amp;b · r-1</a><span class=\"pill\">ok</span> <a class=\"pill\" href=\"/v?x=1&amp;y=2\" target=\"_blank\" rel=\"noreferrer\">view</a></li>\n<li data-t=\"g r-2\"><a href=\"/runs/receipts/r-2/RECEIPT.md\" target=\"_blank\" rel=\"noreferrer\">g · r-2</a><span class=\"pill\">?</span></li>\n"
    );
}

#[test]
fn the_pages_hold_what_they_are_given() {
    let thread = index_html("r<1>", "ann", "main", "<svg/>", 3, 2, "<tr></tr>");
    assert!(thread.starts_with("<!doctype html>"));
    assert!(thread.contains("r&lt;1&gt;"));
    assert!(!thread.contains("r<1>"));
    assert!(thread.contains("<svg/>"));
    assert!(thread.contains("<tr></tr>"));
    assert!(thread.contains("ann"));
    assert!(thread.contains("main"));
    assert!(thread.trim_end().ends_with("</html>"));

    let receipts = index_html_receipts("r&1", 4, 3, "<li>x</li>");
    assert!(receipts.starts_with("<!doctype html>"));
    assert!(receipts.contains("r&amp;1"));
    assert!(receipts.contains("<ol id=\"list\"><li>x</li></ol>"));
    assert!(receipts.contains("<title>Receipts Graph r&amp;1</title>"));
    assert!(receipts.contains("</code> · nodes: <code>4</code> · edges: <code>3</code>"));
    assert!(!receipts.contains("{{"));
    assert!(!receipts.contains("{run_id}"));

    let api = index_html_api("r-9", 7, 6, "<tr><td>row</td></tr>");
    assert!(api.starts_with("<!doctype html>"));
    assert!(api.contains("r-9"));
    assert!(api.contains("<tr><td>row</td></tr></tbody>"));
    assert!(!api.contains("{items_html}"));
    assert!(!api.contains("{nodes}"));
}

#[test]
fn the_table_of_a_thread_graph() {
    let node = GraphNode {
        event: ThreadEvent {
            ts: "t".into(),
            role: "user".into(),
            content: "a <b> more".into(),
            run_id: "r-1".into(),
        },
        goal_id: Some("g&h".into()),
        view_url: Some("/v".into()),
        ok: Some(false),
        bits: BitsLite { t: Some(950_000), u: Some(5_000), ..no_bits() },
    };
    let plain = GraphNode {
        event: ThreadEvent {
            ts: "".into(),
            role: "assistant".into(),
            content: "ok".into(),
            run_id: "r-2".into(),
        },
        goal_id: None,
        view_url: None,
        ok: None,
        bits: no_bits(),
    };
    let nodes = vec![node, plain];
    assert_eq!(
        build_table_html(&nodes, &drawn_with(true, "nl")),
        "<tr><td>1</td><td>user</td><td>g&amp;h</td><td><span class=\"pill\">T 0.95</span><span class=\"pill\">U 0.01</span><span class=\"pill\">E -</span><span class=\"pill\">fail</span></td><td>a &lt;b&gt;…</td><td><a href=\"/runs/receipts/r-1/RECEIPT.md\" target=\"_blank\" rel=\"noreferrer\">receipt</a> · <a href=\"/v\" target=\"_blank\" rel=\"noreferrer\">view</a></td></tr>\n<tr><td>2</td><td>assistant</td><td></td><td><span class=\"pill\">T -</span><span class=\"pill\">U -</span><span class=\"pill\">E -</span></td><td>ok</td><td><a href=\"/runs/receipts/r-2/RECEIPT.md\" target=\"_blank\" rel=\"noreferrer\">receipt</a></td></tr>\n"
    );
    assert_eq!(
        build_table_html(&nodes.into_iter().skip(1).collect(), &drawn_with(false, "nl")),
        "<tr><td>1</td><td>assistant</td><td></td><td></td><td>ok</td><td><a href=\"/runs/receipts/r-2/RECEIPT.md\" target=\"_blank\" rel=\"noreferrer\">receipt</a></td></tr>\n"
    );
    assert_eq!(build_table_html(&Vec::new(), &drawn_with(true, "nl")), "");
}

#[test]
fn the_picture_of_a_thread_graph() {
    let style = "<style>text{font-family:system-ui,-apple-system,Segoe UI,Roboto,Arial;font-size:14px;fill:#111}</style>";
    assert_eq!(
        build_svg(&Vec::new(), &drawn_with(true, "nl")),
        format!("<svg width=\"980\" height=\"122\" viewBox=\"0 0 980 122\" xmlns=\"http://www.w3.org/2000/svg\">{style}</svg>")
    );
    let first = GraphNode {
        event: ThreadEvent {
            ts: "t0".into(),
            role: "user".into(),
            content: "hello world".into(),
            run_id: "r-1".into(),
        },
        goal_id: Some("chat".into()),
        view_url: None,
        ok: None,
        bits: BitsLite { t: Some(900_000), ..no_bits() },
    };
    let second = GraphNode {
        event: ThreadEvent {
            ts: "".into(),
            role: "tool".into(),
            content: "  ".into(),
            run_id: "r-2".into(),
        },
        goal_id: None,
        view_url: Some("/v".into()),
        ok: None,
        bits: no_bits(),
    };
    let nodes = vec![first, second];
    let with_bits = build_svg(&nodes, &drawn_with(true, "nl"));
    let expected = format!(
        "<svg width=\"980\" height=\"196\" viewBox=\"0 0 980 196\" xmlns=\"http://www.w3.org/2000/svg\">{style}\
<line x1=\"58\" y1=\"80\" x2=\"58\" y2=\"98\" stroke=\"#adb5bd\" stroke-width=\"2\"/>\
<polygon points=\"54,92 62,92 58,100\" fill=\"#adb5bd\"/>\
<a href=\"/runs/receipts/r-1/RECEIPT.md\" target=\"_blank\" rel=\"noreferrer\">\
<rect x=\"40\" y=\"24\" rx=\"10\" ry=\"10\" width=\"900\" height=\"56\" fill=\"#ebfbee\" stroke=\"#1c7ed6\" stroke-width=\"2\"/>\
<text x=\"56\" y=\"46\">1: user · chat</text>\
<text x=\"56\" y=\"66\" fill=\"#495057\">hello…</text>\
<text x=\"930\" y=\"66\" fill=\"#868e96\" font-size=\"12\">T=0.90 U=- E=-</text>\
</a>\
<text x=\"930\" y=\"46\" fill=\"#868e96\" font-size=\"12\">t0</text>\
<a href=\"/runs/receipts/r-2/RECEIPT.md\" target=\"_blank\" rel=\"noreferrer\">\
<rect x=\"40\" y=\"98\" rx=\"10\" ry=\"10\" width=\"900\" height=\"56\" fill=\"#ebfbee\" stroke=\"#2b8a3e\" stroke-width=\"2\"/>\
<text x=\"56\" y=\"120\">2: tool</text>\
<text x=\"56\" y=\"140\" fill=\"#495057\">view: /v</text>\
<text x=\"930\" y=\"140\" fill=\"#868e96\" font-size=\"12\">T=- U=- E=-</text>\
</a>\
</svg>"
    );
    assert_eq!(with_bits, expected);

    let bare = build_svg(&nodes, &drawn_with(false, "goal"));
    assert!(bare.contains("fill=\"#e7f5ff\" stroke=\"#1c7ed6\""));
    assert!(bare.contains("<text x=\"56\" y=\"66\" fill=\"#495057\">run_id: r-1</text>"));
    assert!(!bare.contains("T="));
}

#[test]
fn graphs_bound_what_they_read() {
    assert_eq!(receipts_limit(0), 1);
    assert_eq!(receipts_limit(1), 1);
    assert_eq!(receipts_limit(250), 250);
    assert_eq!(receipts_limit(2000), 2000);
    assert_eq!(receipts_limit(2001), 2000);
    assert_eq!(api_limit(0), 10);
    assert_eq!(api_limit(10), 10);
    assert_eq!(api_limit(11), 11);
    assert_eq!(api_limit(4000), 4000);
    assert_eq!(api_limit(usize::MAX), 4000);
}

#[test]
fn requests_are_traced() {
    let req = one_engine::engine::api_graph::Request {
        method: "POST".into(),
        path: "/users/ann/run".into(),
        query: Some("a=1&run_id=r-7".into()),
        run_header: Some("../x".into()),
        thread_header: Some("main".into()),
        user_header: None,
    };
    let ev = one_engine::engine::api_graph::trace_event(&req, "2024-01-01T00:00:00Z", 202, 15);
    assert_eq!(ev.ts, "2024-01-01T00:00:00Z");
    assert_eq!(ev.method, "POST");
    assert_eq!(ev.path, "/users/ann/run");
    assert_eq!(ev.query.as_deref(), Some("a=1&run_id=r-7"));
    assert_eq!((ev.status, ev.ms, ev.mutation), (202, 15, true));
    assert_eq!(ev.run_id.as_deref(), Some("r-7"));
    assert_eq!(ev.user_id.as_deref(), Some("ann"));
    assert_eq!(ev.thread.as_deref(), Some("main"));

    let by_header = one_engine::engine::api_graph::Request {
        method: "GET".into(),
        path: "/runs/receipts/r-2/RECEIPT.md".into(),
        query: Some("x-api-key=abc123".into()),
        run_header: Some("r-1".into()),
        thread_header: Some("a/b".into()),
        user_header: Some("bob".into()),
    };
    let ev = one_engine::engine::api_graph::trace_event(&by_header, "t", 200, 0);
    assert!(!ev.mutation);
    assert_eq!(ev.run_id.as_deref(), Some("r-1"));
    assert_eq!(ev.user_id.as_deref(), Some("bob"));
    assert_eq!(ev.thread, None);
    assert_eq!(ev.query.as_deref(), Some("x-api-key=[REDACTED]"));

    let by_path = one_engine::engine::api_graph::Request {
        method: "delete".into(),
        path: "/runs/graphs/r-3/index.html".into(),
        query: None,
        run_header: None,
        thread_header: None,
        user_header: None,
    };
    let ev = one_engine::engine::api_graph::trace_event(&by_path, "t", 404, 1);
    assert!(!ev.mutation);
    assert_eq!(ev.run_id.as_deref(), Some("r-3"));
    assert_eq!(ev.user_id, None);
    assert_eq!(ev.query, None);
    for method in ["PUT", "PATCH", "DELETE"] {
        let req = one_engine::engine::api_graph::Request {
            method: method.into(),
            path: "/".into(),
            query: None,
            run_header: None,
            thread_header: None,
            user_header: None,
        };
        assert!(one_engine::engine::api_graph::trace_event(&req, "t", 200, 1).mutation);
    }
}

#[test]
fn stored_traces_are_read_again() {
    let ev = request("POST", "/run", Some("r-1"), 12, 201);
    let stored = one_engine::engine::api_graph::trace_json(&ev);
    assert_eq!(stored.get("status").and_then(|v| v.as_u64()), Some(201));
    assert!(matches!(stored.get("query"), Some(Json::Null)));
    let back = one_engine::engine::api_graph::read_trace(&stored).expect("a trace");
    assert_eq!(back.ts, ev.ts);
    assert_eq!(back.method, "POST");
    assert_eq!(back.path, "/run");
    assert_eq!(back.query, None);
    assert_eq!((back.status, back.ms, back.mutation), (201, 12, true));
    assert_eq!(back.run_id.as_deref(), Some("r-1"));
    assert_eq!(back.user_id.as_deref(), Some("ann"));
    assert_eq!(back.thread, None);

    let fields = |status: Json, thread: Json| {
        object(vec![
            ("ts", Json::Text("t".into())),
            ("method", Json::Text("GET".into())),
            ("path", Json::Text("/".into())),
            ("status", status),
            ("ms", Json::Int(3)),
            ("mutation", Json::Bool(false)),
            ("thread", thread),
            ("more", Json::Int(1)),
        ])
    };
    let read = |v: &Json| one_engine::engine::api_graph::read_trace(v);
    assert!(read(&fields(Json::Int(200), Json::Null)).is_some());
    assert_eq!(
        read(&fields(Json::Int(65535), Json::Text("main".into()))).unwrap().thread.as_deref(),
        Some("main")
    );
    assert!(read(&fields(Json::Int(65536), Json::Null)).is_none());
    assert!(read(&fields(Json::Int(-1), Json::Null)).is_none());
    assert!(read(&fields(Json::Text("200".into()), Json::Null)).is_none());
    assert!(read(&fields(Json::Int(200), Json::Int(1))).is_none());
    assert!(read(&object(vec![("ts", Json::Text("t".into()))])).is_none());
    assert!(read(&Json::Null).is_none());
}
