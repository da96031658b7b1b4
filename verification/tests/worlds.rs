use one_engine::engine::goals::meta_omni::{intent_profile, is_from_trace, world_answer};
use one_engine::json::Json;
use one_engine::nstar::{
    cluster_key_of, execute_divine_ruliad, execute_divine_ruliad_with, execute_system_matrix,
    execute_system_matrix_with, matrix_page, read_record_of, system_matrix, Matrix,
};
use one_engine::text::{chars_of, first_word_of, replace_all};

fn record(fields: Vec<(&str, Json)>) -> Json {
    Json::Object(fields.into_iter().map(|(k, v)| (k.to_string(), v)).collect())
}

fn word(s: &str) -> Json {
    Json::Text(s.to_string())
}

fn shown(v: &Json) -> String {
    format!("{:?}", v)
}

fn replace(s: &str, from: &str, to: &str) -> String {
    replace_all(&chars_of(s), &chars_of(from), &chars_of(to)).iter().collect()
}

#[test]
fn occurrences_are_replaced_from_the_left() {
    assert_eq!(replace("a</script>b</script>", "</script>", "<\\/script>"), "a<\\/script>b<\\/script>");
    assert_eq!(replace("aaa", "aa", "b"), "ba");
    assert_eq!(replace("aaaa", "aa", "b"), "bb");
    assert_eq!(replace("abc", "x", "y"), "abc");
    assert_eq!(replace("abc", "abcd", "y"), "abc");
    assert_eq!(replace("abc", "abc", ""), "");
    assert_eq!(replace("abc", "", "y"), "abc");
    assert_eq!(replace("", "a", "y"), "");
    assert_eq!(replace("xab", "ab", "abab"), "xabab");
    for (s, from, to) in [("a.b.c", ".", "::"), ("hello", "l", "L"), ("ababab", "aba", "-")] {
        assert_eq!(replace(s, from, to), s.replace(from, to));
    }
}

#[test]
fn the_first_word_of_a_text() {
    let first = |s: &str| first_word_of(&chars_of(s)).iter().collect::<String>();
    assert_eq!(first("build the thing"), "build");
    assert_eq!(first("  \t build\nthe"), "build");
    assert_eq!(first("one"), "one");
    assert_eq!(first(""), "");
    assert_eq!(first("   "), "");
}

#[test]
fn a_message_that_asks_for_a_world_is_answered_with_it() {
    let p = intent_profile("please GROW something").expect("a world");
    assert_eq!(p.name, "Biological Growth");
    assert!(!is_from_trace(&p));
    let seen = world_answer(&p, Ok("/runs/ruliad_kernel/divine-1/index.html".to_string()));
    assert_eq!(
        seen.get("reply").and_then(|v| v.as_str()),
        Some("CodeAct: Detected intent 'Biological Growth'.\nAction: Visualizing Causal Graph.\nObservation: \n\n🔮 World Generated: /runs/ruliad_kernel/divine-1/index.html")
    );
    assert_eq!(
        seen.get("impact_url").and_then(|v| v.as_str()),
        Some("/runs/ruliad_kernel/divine-1/index.html")
    );
    assert_eq!(seen.get("intent_profile").and_then(|v| v.as_str()), Some("Biological Growth"));
    assert_eq!(
        seen.get("intent").and_then(|v| v.get("goal")).and_then(|v| v.as_str()),
        Some("meta.divine")
    );
    assert!(matches!(seen.get("patch"), Some(Json::Null)));
    let payload = seen.get("run_payload").unwrap();
    assert_eq!(payload.get("goal_id").and_then(|v| v.as_str()), Some("ruliad.kernel"));
    let inputs = payload.get("inputs").unwrap();
    assert_eq!(inputs.get("seed").and_then(|v| v.as_str()), Some("A"));
    assert_eq!(inputs.get("depth").and_then(|v| v.as_i64()), Some(8));
    assert_eq!(inputs.get("mode").and_then(|v| v.as_str()), Some("simulated"));
    assert_eq!(
        shown(inputs.get("rules").unwrap()),
        shown(&Json::List(vec![
            Json::List(vec![word("A"), word("AB")]),
            Json::List(vec![word("B"), word("A")]),
        ]))
    );
    assert_eq!(seen.get("bits").and_then(|b| b.get("I")).and_then(|v| v.as_i64()), Some(1));

    let real = intent_profile("show the real system").expect("a world");
    assert!(is_from_trace(&real));
    let failed = world_answer(&real, Err("no trace".to_string()));
    assert!(failed.get("impact_url").is_none());
    assert_eq!(
        failed.get("reply").and_then(|v| v.as_str()),
        Some("CodeAct: Detected intent 'System Matrix (Real Trace)'.\nAction: Visualizing Causal Graph.\nObservation: \n\n(World generation failed)")
    );
    assert_eq!(
        failed
            .get("run_payload")
            .and_then(|v| v.get("inputs"))
            .and_then(|v| v.get("mode"))
            .and_then(|v| v.as_str()),
        Some("real")
    );
}

#[test]
fn a_world_grows_from_a_seed() {
    let rules = vec![("A".to_string(), "AB".to_string()), ("B".to_string(), "A".to_string())];
    let w = execute_divine_ruliad_with("A", &rules, 2, "0000");
    assert_eq!(w.run_id, "divine-0000");
    assert_eq!(w.out_dir, "runs/ruliad_kernel/divine-0000");
    assert_eq!(w.url, "/runs/ruliad_kernel/divine-0000/index.html");
    assert!(w.index_html.starts_with("<!doctype html>\n<html>\n<style>\nbody { background: #000;"));
    assert!(w.index_html.contains("<div>Rule: [(\"A\", \"AB\"), (\"B\", \"A\")]</div>"));
    assert!(w.index_html.contains("<div>States: 4 | Edges: 3</div>"));
    assert!(w.index_html.contains(
        "nodes: [{id:0,group:1},{id:1,group:1},{id:2,group:1},{id:3,group:1}],"
    ));
    assert!(w.index_html.contains(
        "links: [{source:0,target:1},{source:1,target:2},{source:1,target:3}]"
    ));
    assert!(w.index_html.ends_with("</body>\n</html>"));

    let still = execute_divine_ruliad_with("A", &Vec::new(), 3, "x");
    assert!(still.index_html.contains("<div>Rule: []</div>"));
    assert!(still.index_html.contains("<div>States: 1 | Edges: 0</div>"));
    assert!(still.index_html.contains("nodes: [{id:0,group:1}],\n    links: []"));

    let fresh = execute_divine_ruliad("A", &rules, 1);
    assert!(fresh.run_id.starts_with("divine-"));
    assert_eq!(fresh.run_id.len(), "divine-".len() + 36);
    assert_eq!(fresh.url, format!("/runs/ruliad_kernel/{}/index.html", fresh.run_id));
    assert_ne!(fresh.run_id, execute_divine_ruliad("A", &rules, 1).run_id);
}

#[test]
fn records_of_the_trace_are_read() {
    let old = record(vec![
        ("title", word("Planning")),
        ("text", word("plan the week")),
        ("ts", word("2024-01-01")),
        ("ok", Json::Bool(false)),
    ]);
    let read = read_record_of(old);
    assert_eq!(read.get("run_id").and_then(|v| v.as_str()), Some("2024-01-01"));
    assert_eq!(read.get("task").and_then(|v| v.as_str()), Some("plan the week"));
    assert_eq!(read.get("ok").and_then(|v| v.as_bool()), Some(true));
    assert_eq!(read.get("cluster_hint").and_then(|v| v.as_str()), Some("Planning"));
    assert_eq!(cluster_key_of(&read), "Planning");

    let odd = read_record_of(record(vec![("title", Json::Int(1)), ("text", Json::Null)]));
    assert_eq!(odd.get("run_id").and_then(|v| v.as_str()), Some("legacy"));
    assert_eq!(odd.get("task").and_then(|v| v.as_str()), Some("No Text"));
    assert_eq!(odd.get("cluster_hint").and_then(|v| v.as_str()), Some("Misc"));

    let plain = read_record_of(record(vec![("run_id", word("r-1")), ("task", word(" build it"))]));
    assert!(plain.get("cluster_hint").is_none());
    assert_eq!(cluster_key_of(&plain), "build");
    assert_eq!(cluster_key_of(&record(vec![("task", word("  "))])), "misc");
    assert_eq!(cluster_key_of(&record(vec![])), "?");
    assert_eq!(cluster_key_of(&Json::Null), "?");
}

#[test]
fn the_matrix_of_a_trace() {
    let records = vec![
        record(vec![("run_id", word("r-1")), ("task", word("build app")), ("ok", Json::Bool(true))]),
        record(vec![("run_id", word("r-2")), ("task", word("test app"))]),
        record(vec![("run_id", word("r-3")), ("task", word("build lib")), ("ok", Json::Bool(true))]),
    ];
    let m = system_matrix(&records);
    assert_eq!(m.nodes.len(), 5);
    assert_eq!(m.links.len(), 5);
    assert_eq!(m.last, Some(4));
    assert_eq!(m.clusters, [("build".to_string(), 0), ("test".to_string(), 2)]);
    let label = |i: usize| m.nodes[i].get("label").and_then(|v| v.as_str()).map(|s| s.to_string());
    assert_eq!(label(0).as_deref(), Some("build"));
    assert_eq!(label(1).as_deref(), Some("r-1"));
    assert_eq!(label(2).as_deref(), Some("test"));
    assert_eq!(label(3).as_deref(), Some("r-2"));
    assert_eq!(label(4).as_deref(), Some("r-3"));
    assert_eq!(
        shown(&m.nodes[0]),
        shown(&record(vec![
            ("id", Json::Nat(0)),
            ("label", word("build")),
            ("group", Json::Int(2)),
            ("val", Json::Int(10)),
        ]))
    );
    assert_eq!(m.nodes[1].get("color").and_then(|v| v.as_str()), Some("#4ade80"));
    assert_eq!(m.nodes[3].get("color").and_then(|v| v.as_str()), Some("#f87171"));
    assert_eq!(
        m.nodes[3].get("details").and_then(|v| v.get("task")).and_then(|v| v.as_str()),
        Some("test app")
    );
    let ends = |i: usize| {
        (
            m.links[i].get("source").and_then(|v| v.as_u64()),
            m.links[i].get("target").and_then(|v| v.as_u64()),
            m.links[i].get("value").and_then(|v| v.as_level()),
        )
    };
    assert_eq!(ends(0), (Some(0), Some(1), None));
    assert_eq!(ends(1), (Some(2), Some(3), None));
    assert_eq!(ends(2), (Some(1), Some(3), Some(500_000)));
    assert_eq!(ends(3), (Some(0), Some(4), None));
    assert_eq!(ends(4), (Some(3), Some(4), Some(500_000)));

    let data = m.graph_data();
    assert_eq!(data.get("nodes").and_then(|v| v.as_array()).map(|a| a.len()), Some(5));
    assert_eq!(data.get("links").and_then(|v| v.as_array()).map(|a| a.len()), Some(5));

    let empty = Matrix::new();
    assert!(empty.nodes.is_empty() && empty.links.is_empty() && empty.last.is_none());
}

#[test]
fn the_page_of_the_matrix() {
    let page = matrix_page(5, 4, "{\"nodes\":[\"</script>\"]}");
    assert!(page.contains("<div>Nodes: 5</div>\n  <div>Links: 4</div>"));
    assert!(page.contains(
        "<script id=\"graph-data\" type=\"application/json\">\n{\"nodes\":[\"<\\/script>\"]}\n</script>"
    ));
    assert!(page.ends_with("</body>\n</html>"));

    let w = execute_system_matrix_with(1, 0, "{}", "abcd");
    assert_eq!(w.run_id, "matrix-abcd");
    assert_eq!(w.out_dir, "runs/ruliad_kernel/matrix-abcd");
    assert_eq!(w.url, "/runs/ruliad_kernel/matrix-abcd/index.html");
    assert_eq!(w.index_html, matrix_page(1, 0, "{}"));
    let fresh = execute_system_matrix(1, 0, "{}");
    assert!(fresh.run_id.starts_with("matrix-"));
    assert_eq!(fresh.run_id.len(), "matrix-".len() + 36);
}

#[test]
fn the_end_of_a_file_is_read_by_lines() {
    use_tail(b"one\n\ntwo\r\n   \nthree", false, 10, &["one", "two", "three"]);
    use_tail(b"one\n\ntwo\r\n   \nthree", false, 2, &["two", "three"]);
    use_tail(b"one\n\ntwo\r\n   \nthree\n", false, 0, &[]);
    use_tail(b"ne\ntwo\nthree\n", true, 10, &["two", "three"]);
    use_tail(b"no line feed", true, 10, &["no line feed"]);
    use_tail(b"", true, 10, &[]);
    use_tail(b"a\xffb\n", false, 10, &["a\u{fffd}b"]);
    assert_eq!(one_engine::tail::tail_start_of(100, 30), 70);
    assert_eq!(one_engine::tail::tail_start_of(30, 30), 0);
    assert_eq!(one_engine::tail::tail_start_of(0, 30), 0);
    assert_eq!(
        one_engine::tail::tail_of_text(" a \n b ", false, 1),
        [" b "]
    );
}

fn use_tail(bytes: &[u8], cut: bool, limit: usize, expected: &[&str]) {
    assert_eq!(one_engine::tail::tail_lines(bytes, cut, limit), expected);
}
