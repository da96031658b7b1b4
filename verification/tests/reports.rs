use one_engine::api::codex::CountedItem;
use one_engine::api::threads::ThreadEvent;
use one_engine::engine::graphs::{BitsLite, GraphNode};
use one_engine::engine::pages::report_html;
use one_engine::engine::thread_report::{
    count_roles, generate, keywords_html, report_event, report_json, report_rows_html,
    texts_of_user, ThreadReportOpts,
};
use one_engine::json::Json;

fn entries(list: Vec<(&str, Json)>) -> Json {
    Json::Object(list.into_iter().map(|(k, v)| (k.to_string(), v)).collect())
}

fn words(s: &str) -> Json {
    Json::Text(s.to_string())
}

fn report_node(role: &str, run_id: &str, content: &str) -> GraphNode {
    GraphNode {
        event: ThreadEvent {
            ts: "t".into(),
            role: role.into(),
            content: content.into(),
            run_id: run_id.into(),
        },
        goal_id: None,
        view_url: None,
        ok: None,
        bits: BitsLite { a: None, u: None, p: None, e: None, d: None, i: None, r: None, t: None, m: None },
    }
}

fn report_opts(content_chars: usize) -> ThreadReportOpts {
    ThreadReportOpts { user_id: "ann".into(), thread: "auto".into(), max_events: 100, content_chars }
}

#[test]
fn events_of_a_report() {
    let v = entries(vec![
        ("ts", words("2024-01-01T00:00:00Z")),
        ("role", words("user")),
        ("run_id", words("r-1")),
        ("content", words("two\nlines   here")),
    ]);
    let ev = report_event(&v).unwrap();
    assert_eq!(ev.ts, "2024-01-01T00:00:00Z");
    assert_eq!(ev.role, "user");
    assert_eq!(ev.run_id, "r-1");
    assert_eq!(ev.content, "two lines here");

    let long = entries(vec![
        ("role", words("user")),
        ("run_id", words("r-1")),
        ("content", words(&"y".repeat(1300))),
    ]);
    let ev = report_event(&long).unwrap();
    assert_eq!(ev.ts, "");
    assert_eq!(ev.content.chars().count(), 1201);

    let no_role = entries(vec![("run_id", words("r-1")), ("content", words("x"))]);
    assert!(report_event(&no_role).is_none());
    let no_run = entries(vec![("role", words("user")), ("content", words("x"))]);
    assert!(report_event(&no_run).is_none());
    let unsafe_run = entries(vec![("role", words("user")), ("run_id", words("../r"))]);
    assert!(report_event(&unsafe_run).is_none());
    assert!(report_event(&Json::Null).is_none());
}

#[test]
fn roles_are_counted_and_user_texts_taken() {
    let nodes = vec![
        report_node("user", "r-1", "deploy the service today"),
        report_node("assistant", "r-1", "deploying"),
        report_node("user", "r-2", "abcdefghij"),
        report_node("tool", "r-2", "ran"),
    ];
    let roles = count_roles(&nodes);
    let seen: Vec<(&str, u64)> = roles.iter().map(|c| (c.key.as_str(), c.count)).collect();
    assert_eq!(seen, [("user", 2), ("assistant", 1), ("tool", 1)]);
    assert_eq!(texts_of_user(&nodes, 6), ["deploy…", "abcdef…"]);
    assert_eq!(texts_of_user(&nodes, 100), ["deploy the service today", "abcdefghij"]);
    assert!(count_roles(&Vec::new()).is_empty());
}

#[test]
fn the_timeline_and_the_keywords_of_a_report() {
    let mut seen = report_node("user", "r-1", "a <b> more");
    seen.goal_id = Some("chat".into());
    seen.view_url = Some("/v".into());
    seen.ok = Some(true);
    seen.bits.t = Some(955_000);
    seen.bits.e = Some(4_999);
    let plain = report_node("tool", "r-2", "ok");
    assert_eq!(
        report_rows_html(&vec![seen, plain], 5),
        "<tr data-t=\"user chat r-1 a &lt;b&gt;…\"><td>user</td><td><code>chat</code></td><td><code>r-1</code></td><td><span class=\"pill ok\">ok</span></td><td><span class=\"pill\">T 0.96</span><span class=\"pill\">U 0.00</span><span class=\"pill\">E 0.00</span></td><td>a &lt;b&gt;…</td><td><a href=\"/runs/receipts/r-1/RECEIPT.md\" target=\"_blank\" rel=\"noreferrer\">receipt</a> · <a href=\"/v\" target=\"_blank\" rel=\"noreferrer\">view</a></td></tr>\n<tr data-t=\"tool  r-2 ok\"><td>tool</td><td><code></code></td><td><code>r-2</code></td><td><span class=\"pill\">?</span></td><td><span class=\"pill\">T 0.00</span><span class=\"pill\">U 0.00</span><span class=\"pill\">E 0.00</span></td><td>ok</td><td><a href=\"/runs/receipts/r-2/RECEIPT.md\" target=\"_blank\" rel=\"noreferrer\">receipt</a></td></tr>\n"
    );
    let mut failed = report_node("user", "r-3", "x");
    failed.ok = Some(false);
    assert!(report_rows_html(&vec![failed], 5).contains("<span class=\"pill fail\">fail</span>"));
    assert_eq!(report_rows_html(&Vec::new(), 5), "");

    let top = vec![
        CountedItem { key: "deploy".into(), count: 3 },
        CountedItem { key: "a&b".into(), count: 1 },
    ];
    assert_eq!(
        keywords_html(&top),
        "<span class=\"pill\">deploy (3)</span> <span class=\"pill\">a&amp;b (1)</span> "
    );
    assert_eq!(keywords_html(&Vec::new()), "");
}

#[test]
fn a_report_is_generated() {
    let nodes = vec![
        report_node("user", "r-1", "please deploy the service and deploy the docs"),
        report_node("assistant", "r-1", "deploy finished"),
        report_node("user", "r-2", "check service health"),
    ];
    let f = generate("/data", "r-report", &report_opts(10_000), "main", &nodes).unwrap();
    assert_eq!(f.out_dir, "/data/runs/threads/r-report");
    assert_eq!(f.nodes, 3);
    assert_eq!(f.thread, "main");
    assert!(f.index_html.starts_with("<!doctype html>"));
    assert!(f.index_html.contains("<title>Thread Report r-report</title>"));
    assert!(f.index_html.contains("user: <code>ann</code> · thread: <code>main</code> · nodes: <code>3</code>"));
    assert!(f.index_html.contains(
        "<span class=\"pill\">deploy (2)</span> <span class=\"pill\">service (2)</span> <span class=\"pill\">check (1)</span> "
    ));
    assert!(f.index_html.contains("<tr data-t=\"assistant  r-1 deploy finished\">"));
    assert_eq!(f.report.get("user_id").and_then(|v| v.as_str()), Some("ann"));
    assert_eq!(f.report.get("nodes").and_then(|v| v.as_u64()), Some(3));
    let roles = f.report.get("counts_by_role").unwrap();
    assert_eq!(roles.get("user").and_then(|v| v.as_u64()), Some(2));
    assert_eq!(roles.get("assistant").and_then(|v| v.as_u64()), Some(1));
    let top = f.report.get("top_keywords").and_then(|v| v.as_array()).unwrap();
    assert_eq!(top[0].item(0).and_then(|v| v.as_str()), Some("deploy"));
    assert_eq!(top[0].item(1).and_then(|v| v.as_u64()), Some(2));
    let runs = f.report.get("runs").and_then(|v| v.as_array()).unwrap();
    assert_eq!(runs.len(), 3);
    assert_eq!(runs[2].get("i").and_then(|v| v.as_u64()), Some(3));
    assert_eq!(runs[2].get("text").and_then(|v| v.as_str()), Some("check service health"));
    assert_eq!(
        runs[2].get("receipt_url").and_then(|v| v.as_str()),
        Some("/runs/receipts/r-2/RECEIPT.md")
    );

    let short = generate("/data", "r-report", &report_opts(1), "main", &nodes).unwrap();
    let runs = short.report.get("runs").and_then(|v| v.as_array()).unwrap();
    assert_eq!(
        runs[2].get("text").and_then(|v| v.as_str()).map(|s| s.chars().count()),
        Some(20)
    );
}

#[test]
fn a_report_needs_safe_identifiers_and_events() {
    let nodes = vec![report_node("user", "r-1", "x")];
    assert_eq!(
        generate("/data", "a/b", &report_opts(100), "main", &nodes).unwrap_err(),
        "invalid __run_id"
    );
    let mut unsafe_user = report_opts(100);
    unsafe_user.user_id = "..".into();
    assert_eq!(
        generate("/data", "r-1", &unsafe_user, "main", &nodes).unwrap_err(),
        "invalid user_id"
    );
    assert_eq!(
        generate("/data", "r-1", &report_opts(100), "main", &Vec::new()).unwrap_err(),
        "thread has no parseable events"
    );
}

#[test]
fn the_page_and_the_value_of_a_report() {
    let page = report_html("r<1>", "ann", "main", 2, "<kw>", "<rows>");
    assert!(page.contains("<title>Thread Report r&lt;1&gt;</title>"));
    assert!(page.contains("<div style=\"margin-top:8px\"><kw></div>"));
    assert!(page.contains("<tbody id=\"list\"><rows></tbody>"));
    assert!(page.ends_with("</body>\n</html>\n"));
    assert!(!page.contains("{{"));

    let nodes = vec![report_node("user", "r-1", "hello")];
    let roles = vec![CountedItem { key: "user".into(), count: 1 }];
    let top = vec![CountedItem { key: "hello".into(), count: 1 }];
    let v = report_json("ann", "main", &nodes, &roles, &top, 3);
    let expected = entries(vec![
        ("user_id", words("ann")),
        ("thread", words("main")),
        ("nodes", Json::Nat(1)),
        ("counts_by_role", entries(vec![("user", Json::Nat(1))])),
        ("top_keywords", Json::List(vec![Json::List(vec![words("hello"), Json::Nat(1)])])),
        (
            "runs",
            Json::List(vec![entries(vec![
                ("i", Json::Nat(1)),
                ("ts", words("t")),
                ("role", words("user")),
                ("run_id", words("r-1")),
                ("goal_id", Json::Null),
                ("actual_success", Json::Null),
                (
                    "bits",
                    entries(
                        ["a", "u", "p", "e", "d", "i", "r", "t", "m"]
                            .iter()
                            .map(|k| (*k, Json::Null))
                            .collect(),
                    ),
                ),
                ("view_url", Json::Null),
                ("text", words("hel…")),
                ("receipt_url", words("/runs/receipts/r-1/RECEIPT.md")),
            ])]),
        ),
    ]);
    assert_eq!(format!("{:?}", v), format!("{:?}", expected));
}

#[test]
fn the_engine_answers_plain_messages_by_itself() {
    use_meta_prompt("Who am I, hello?", one_engine::engine::meta_prompt::ABOUT_ITSELF);
    use_meta_prompt("well HELLO, help", one_engine::engine::meta_prompt::GREETING);
    use_meta_prompt("Help me", one_engine::engine::meta_prompt::OFFER);
    use_meta_prompt("", one_engine::engine::meta_prompt::ANYTHING_ELSE);
    use_meta_prompt("whoami", one_engine::engine::meta_prompt::ANYTHING_ELSE);
}

fn use_meta_prompt(message: &str, expected: &str) {
    let history = vec![Json::Null];
    let answer = one_engine::engine::meta_prompt::process_meta_prompt(
        "system",
        message,
        &history,
        Some("observed"),
    );
    assert_eq!(answer, expected);
}

#[test]
fn the_answer_of_the_router_carries_the_bits() {
    let bits = one_engine::engine::bits::Bits::init();
    let answered = one_engine::engine::meta_prompt::handle_with(
        "persona",
        &bits,
        Ok(entries(vec![("reply", words("hi")), ("bits", Json::Null)])),
    );
    assert_eq!(answered.get("reply").and_then(|v| v.as_str()), Some("hi"));
    let carried = answered.get("bits").unwrap();
    assert_eq!(carried.get("a").and_then(|v| v.as_level()), Some(1_000_000));
    assert_eq!(carried.get("t").and_then(|v| v.as_level()), Some(500_000));

    let plain = one_engine::engine::meta_prompt::handle_with("persona", &bits, Ok(words("hi")));
    assert_eq!(plain.as_str(), Some("hi"));

    let fallback =
        one_engine::engine::meta_prompt::handle_with("persona", &bits, Err("down".to_string()));
    let intent = fallback.get("intent").unwrap();
    assert_eq!(intent.get("goal").and_then(|v| v.as_str()), Some("meta.prompt"));
    assert_eq!(
        intent.get("evidence").and_then(|v| v.item(0)).and_then(|v| v.as_str()),
        Some("persona")
    );
    assert_eq!(
        intent.get("constraints").and_then(|v| v.item(0)).and_then(|v| v.as_str()),
        Some("Stay within self-model")
    );
    assert_eq!(
        fallback.get("explanation").and_then(|v| v.get("reason")).and_then(|v| v.as_str()),
        Some("router unavailable, fallback only")
    );
    assert_eq!(
        fallback
            .get("manifest")
            .and_then(|v| v.get("evidence"))
            .and_then(|v| v.get("reply"))
            .and_then(|v| v.as_str()),
        Some("router unavailable")
    );
    assert_eq!(
        fallback.get("bits").and_then(|v| v.get("p")).and_then(|v| v.as_level()),
        Some(1_000_000)
    );
}
