use one_engine::api::codex::{
    add_count, line_matches, merge_counts, parse_sources, try_extract_meta, CountedItem,
};
use one_engine::api::extract::extract_strings_limited;
use one_engine::api::paths::{
    codex_history_enabled, parse_run_id_from_path, parse_run_id_from_query,
    parse_user_id_from_path, split_url, thread_path,
};
use one_engine::api::redact::redact;
use one_engine::api::threads::{
    last_run_ids, summarize_receipt_for_context, thread_event, thread_event_json, thread_history,
    thread_summary,
};
use one_engine::engine::router::{
    answer_content, answer_of, api_key, api_url, chat_request, first_env, model_name, parse_u64,
    timeout_secs,
};
use one_engine::json::{set_field, Json};
use one_engine::nstar::execute_meta6_local_kernel;
use one_engine::research::{front_matter_tags, index_entry};
use one_engine::text::{html_escape, one_line, truncate_chars};

fn obj(entries: Vec<(&str, Json)>) -> Json {
    Json::Object(entries.into_iter().map(|(k, v)| (k.to_string(), v)).collect())
}

fn text(s: &str) -> Json {
    Json::Text(s.to_string())
}

#[test]
fn pages_escape_what_they_show() {
    assert_eq!(one_engine::api::escape_html("a<b> & \"c\" 'd'"), "a&lt;b&gt; &amp; &quot;c&quot; &#39;d&#39;");
    assert_eq!(one_engine::api::escape_html(""), "");
    assert_eq!(one_engine::api::escape_html("&amp;"), "&amp;amp;");
}

#[test]
fn html_is_escaped() {
    assert_eq!(html_escape("a<b>&\"c\"'d'"), "a&lt;b&gt;&amp;&quot;c&quot;&#39;d&#39;");
    assert_eq!(html_escape(""), "");
    assert_eq!(html_escape("plain"), "plain");
}

#[test]
fn texts_are_put_on_one_line() {
    assert_eq!(one_line("  a\r\n b\t\tc  "), "a b c");
    assert_eq!(one_line(""), "");
    assert_eq!(one_line(" \n "), "");
    assert_eq!(one_line("word"), "word");
}

#[test]
fn texts_are_truncated_by_characters() {
    assert_eq!(truncate_chars("hello", 0), "");
    assert_eq!(truncate_chars("hello", 5), "hello");
    assert_eq!(truncate_chars("hello", 3), "hel…");
    assert_eq!(truncate_chars("héllo", 2), "hé…");
}

#[test]
fn run_identifiers_in_queries() {
    assert_eq!(parse_run_id_from_query("run_id=r-1"), Some("r-1".to_string()));
    assert_eq!(parse_run_id_from_query("a=b&run_id=r-2&run_id=r-3"), Some("r-2".to_string()));
    assert_eq!(parse_run_id_from_query("run_id=../x&run_id=ok"), Some("ok".to_string()));
    assert_eq!(parse_run_id_from_query("run_id="), None);
    assert_eq!(parse_run_id_from_query("run_id"), None);
    assert_eq!(parse_run_id_from_query(""), None);
    assert_eq!(parse_run_id_from_query("xrun_id=r-1"), None);
    assert_eq!(parse_run_id_from_query("run_id=a=b"), None);
}

#[test]
fn run_and_user_identifiers_in_paths() {
    assert_eq!(parse_run_id_from_path("/runs/receipts/r-1/RECEIPT.md"), Some("r-1".to_string()));
    assert_eq!(parse_run_id_from_path("runs//wiki/w-1/"), Some("w-1".to_string()));
    assert_eq!(parse_run_id_from_path("/runs/graphs/g-1/index.html"), Some("g-1".to_string()));
    assert_eq!(parse_run_id_from_path("/runs/receipts"), None);
    assert_eq!(parse_run_id_from_path("/runs/other/r-1/x"), None);
    assert_eq!(parse_run_id_from_path("/runs/receipts/a b/x"), None);
    assert_eq!(parse_user_id_from_path("/users/demo/run"), Some("demo".to_string()));
    assert_eq!(parse_user_id_from_path("/users/"), None);
    assert_eq!(parse_user_id_from_path("/user/demo"), None);
}

#[test]
fn thread_files_need_safe_segments() {
    assert_eq!(
        thread_path("/srv", "demo", "t-1"),
        Some("/srv/users/demo/threads/t-1.jsonl".to_string())
    );
    assert_eq!(thread_path("/srv", "../demo", "t-1"), None);
    assert_eq!(thread_path("/srv", "demo", "a/b"), None);
}

#[test]
fn addresses_are_split() {
    assert_eq!(
        split_url("https://example.com/a/b?x=1#f"),
        Some(("example.com".to_string(), "/a/b".to_string()))
    );
    assert_eq!(split_url("http://example.com"), Some(("example.com".to_string(), "/".to_string())));
    // dots go first, then commas
    assert_eq!(
        split_url("http://example.com,."),
        Some(("example.com".to_string(), "/".to_string()))
    );
    assert_eq!(
        split_url("http://example.com.,"),
        Some(("example.com.".to_string(), "/".to_string()))
    );
    assert_eq!(
        split_url("http://example.com?q=1"),
        Some(("example.com".to_string(), "/".to_string()))
    );
    assert_eq!(
        split_url("https://h/p#frag"),
        Some(("h".to_string(), "/p".to_string()))
    );
    assert_eq!(split_url("ftp://example.com"), None);
    assert_eq!(split_url("example.com"), None);
}

#[test]
fn the_history_switch() {
    assert!(codex_history_enabled(Some("1")));
    assert!(codex_history_enabled(Some("TRUE")));
    assert!(codex_history_enabled(Some("Yes")));
    assert!(codex_history_enabled(Some("y")));
    assert!(!codex_history_enabled(Some("0")));
    assert!(!codex_history_enabled(Some("")));
    assert!(!codex_history_enabled(None));
}

#[test]
fn secrets_are_redacted() {
    assert_eq!(redact("x-api-key: abc123"), "x-api-key: [REDACTED]");
    assert_eq!(redact("X-API-KEY=abc123 next"), "X-API-KEY=[REDACTED] next");
    assert_eq!(redact("Authorization: Bearer tok.en-1"), "Authorization: Bearer [REDACTED]");
    assert_eq!(redact("key sk-abcdefghij0123 end"), "key sk-[REDACTED] end");
    assert_eq!(redact("sk-short"), "sk-short");
    assert_eq!(redact("nothing here"), "nothing here");
}

#[test]
fn counts_are_added_and_merged() {
    let view = |items: &Vec<CountedItem>| -> Vec<(String, u64)> {
        items.iter().map(|i| (i.key.clone(), i.count)).collect()
    };
    let mut counts: Vec<CountedItem> = Vec::new();
    add_count(&mut counts, "a", 1);
    add_count(&mut counts, "b", 2);
    add_count(&mut counts, "a", 3);
    assert_eq!(view(&counts), vec![("a".to_string(), 4), ("b".to_string(), 2)]);
    add_count(&mut counts, "b", u64::MAX);
    assert_eq!(counts[1].count, u64::MAX);
    let mut dst = vec![CountedItem { key: "x".into(), count: 1 }];
    merge_counts(
        &mut dst,
        vec![
            CountedItem { key: "y".into(), count: 2 },
            CountedItem { key: "x".into(), count: 5 },
            CountedItem { key: "y".into(), count: 1 },
        ],
    );
    assert_eq!(view(&dst), vec![("x".to_string(), 6), ("y".to_string(), 3)]);
}

#[test]
fn sources_of_a_search() {
    assert_eq!(parse_sources(None), vec!["archive", "rollouts", "utir"]);
    assert_eq!(parse_sources(Some("")), vec!["archive", "rollouts", "utir"]);
    assert_eq!(parse_sources(Some(" , ")), vec!["archive", "rollouts", "utir"]);
    assert_eq!(parse_sources(Some("UTIR, archive,utir")), vec!["utir", "archive"]);
}

#[test]
fn lines_match_a_search() {
    assert!(line_matches("Hello World", "world", false, None));
    assert!(!line_matches("Hello World", "world", true, None));
    assert!(line_matches("Hello World", "World", true, None));
    assert!(line_matches("abc 123", "ignored", true, Some("[0-9]+")));
    assert!(!line_matches("abc", "ignored", true, Some("[0-9]+")));
    assert!(!line_matches("abc", "abc", true, Some("(")));
}

#[test]
fn time_stamp_and_kind_of_an_event() {
    let v = obj(vec![("timestamp", text("t1")), ("event", text("e1")), ("kind", text("k1"))]);
    assert_eq!(try_extract_meta(&v), (Some("t1".to_string()), Some("e1".to_string())));
    let v = obj(vec![("ts", text("t0")), ("timestamp", text("t1")), ("kind", text("k1"))]);
    assert_eq!(try_extract_meta(&v), (Some("t0".to_string()), Some("k1".to_string())));
    assert_eq!(try_extract_meta(&obj(vec![])), (None, None));
}

#[test]
fn texts_are_gathered_within_the_budget() {
    let v = obj(vec![
        ("zeta", text("last")),
        ("url", text("http://x")),
        ("text", text("first")),
        ("list", Json::List(vec![text("in list"), text("  "), Json::Int(1)])),
        ("message", text("second")),
    ]);
    let gather = |depth: usize, budget: usize| {
        let mut out = Vec::new();
        let mut b = budget;
        extract_strings_limited(&v, &mut out, depth, &mut b);
        (out, b)
    };
    let (all, left) = gather(4, 10);
    assert_eq!(all, vec!["first", "second", "http://x", "last", "in list"]);
    assert_eq!(left, 5);
    let (two, left) = gather(4, 2);
    assert_eq!(two, vec!["first", "second"]);
    assert_eq!(left, 0);
    // the values of the object lie one level down, the list two
    let (shallow, _) = gather(2, 10);
    assert_eq!(shallow, vec!["first", "second", "http://x", "last"]);
    assert!(gather(1, 10).0.is_empty());
    assert!(gather(0, 10).0.is_empty());
    let mut out = Vec::new();
    let mut b = 3;
    extract_strings_limited(&text("x-api-key: secret"), &mut out, 1, &mut b);
    assert_eq!(out, vec!["x-api-key: [REDACTED]"]);
    assert_eq!(b, 2);
}

#[test]
fn an_attached_run_is_summarized() {
    let resp = obj(vec![(
        "manifest",
        obj(vec![
            ("goal_id", text("wiki.generate")),
            (
                "evidence",
                obj(vec![
                    ("actual_success", Json::Bool(true)),
                    ("index_html_url", text("/runs/wiki/w/index.html")),
                    ("stdout", text("wrote 3 files")),
                ]),
            ),
        ]),
    )]);
    let (summary, goal) = summarize_receipt_for_context("r-1", &resp, Some(" see this "));
    assert_eq!(goal, Some("wiki.generate".to_string()));
    assert_eq!(
        summary,
        "Tool: attached run output `r-1`.\n- goal_id: `wiki.generate`\n- success: `true`\n\
- view: `/runs/wiki/w/index.html`\n- evidence_snippets:\n  - /runs/wiki/w/index.html\n  - wrote 3 files\n\
- receipt: `/runs/receipts/r-1/RECEIPT.md`\n- note:  see this "
    );
    let queued = obj(vec![("status", text("queued"))]);
    let (summary, goal) = summarize_receipt_for_context("r-2", &queued, Some("  "));
    assert_eq!(goal, None);
    assert_eq!(
        summary,
        "Tool: attached run output `r-2`.\n- status: `queued`\n- receipt: `/runs/receipts/r-2/RECEIPT.md`"
    );
}

#[test]
fn thread_events_and_their_context() {
    let ev = thread_event("t0", "user", "my key is sk-abcdefghij0123", "r-1");
    assert_eq!(ev.content, "my key is sk-[REDACTED]");
    let stored = thread_event_json(&ev);
    assert_eq!(stored.get("role").and_then(|v| v.as_str()), Some("user"));
    let e = |role: &str, content: &str, run: &str| {
        obj(vec![("role", text(role)), ("content", text(content)), ("run_id", text(run))])
    };
    let events = vec![
        e("user", "hi", "r-1"),
        e("assistant", "hello", "r-1"),
        e("tool", "output", "r-2"),
        e("system", "  ", "r-2"),
        e("other", "x", "../bad"),
        e("", "y", "r-3"),
    ];
    let context = thread_history(&events);
    let roles: Vec<&str> =
        context.iter().map(|m| m.get("role").and_then(|v| v.as_str()).unwrap()).collect();
    assert_eq!(roles, vec!["user", "assistant", "system"]);
    assert_eq!(last_run_ids(&events), vec!["r-3", "r-2", "r-1"]);
    let s = thread_summary("demo", "t-1", &events, 4096, Some("now".to_string()));
    assert_eq!(s.messages_total, 5);
    assert_eq!(s.messages_user, 1);
    assert_eq!(s.messages_assistant, 1);
    assert_eq!(s.messages_system, 1);
    assert_eq!(s.messages_tool, 1);
    assert_eq!(s.approx_tokens, 1024);
    assert_eq!(s.last_run_ids, vec!["r-3", "r-2", "r-1"]);
    assert_eq!(thread_summary("demo", "t", &vec![], 0, None).approx_tokens, 1);
}

#[test]
fn fields_are_set_in_place_or_at_the_end() {
    let v = set_field(obj(vec![("a", Json::Int(1)), ("b", Json::Int(2))]), "a", Json::Int(9));
    assert_eq!(v.i64_at("a"), Some(9));
    assert_eq!(v.i64_at("b"), Some(2));
    let v = set_field(v, "c", Json::Int(3));
    assert_eq!(v.i64_at("c"), Some(3));
    assert!(matches!(set_field(Json::Int(1), "a", Json::Null), Json::Int(1)));
}

#[test]
fn numbers_are_parsed_strictly() {
    assert_eq!(parse_u64("0"), Some(0));
    assert_eq!(parse_u64("+42"), Some(42));
    assert_eq!(parse_u64("007"), Some(7));
    assert_eq!(parse_u64("18446744073709551615"), Some(u64::MAX));
    assert_eq!(parse_u64("18446744073709551616"), None);
    assert_eq!(parse_u64(""), None);
    assert_eq!(parse_u64("+"), None);
    assert_eq!(parse_u64("-1"), None);
    assert_eq!(parse_u64("1 "), None);
    assert_eq!(parse_u64("1e3"), None);
}

#[test]
fn the_router_is_configured_from_the_first_setting() {
    let set = |a: Option<&str>, b: Option<&str>| {
        vec![a.map(|s| s.to_string()), b.map(|s| s.to_string())]
    };
    assert_eq!(first_env(&set(None, Some("b"))), Some("b".to_string()));
    assert_eq!(first_env(&set(Some("  "), Some("b"))), Some("b".to_string()));
    assert_eq!(first_env(&set(Some("a"), Some("b"))), Some("a".to_string()));
    assert_eq!(first_env(&set(None, None)), None);
    assert_eq!(api_url(&set(None, None)), "https://openrouter.ai/api/v1/chat/completions");
    assert_eq!(model_name(&set(None, None)), "moonshotai/kimi-k2");
    assert_eq!(model_name(&set(None, Some("m"))), "m");
    assert_eq!(
        api_key(&set(None, None)),
        Err("router API key not set (ROUTER_API_KEY or OPENROUTER_API_KEY)".to_string())
    );
    assert_eq!(timeout_secs(&set(None, None)), 60);
    assert_eq!(timeout_secs(&set(Some("5"), None)), 5);
    assert_eq!(timeout_secs(&set(Some("600"), None)), 600);
    assert_eq!(timeout_secs(&set(Some("4"), None)), 60);
    assert_eq!(timeout_secs(&set(Some("601"), None)), 60);
    assert_eq!(timeout_secs(&set(Some("soon"), None)), 60);
}

#[test]
fn what_the_router_is_sent_and_what_it_answers() {
    let req = chat_request("m", vec![]);
    assert_eq!(req.get("model").and_then(|v| v.as_str()), Some("m"));
    let messages = req.get("messages").and_then(|v| v.as_array()).expect("messages");
    assert_eq!(messages.len(), 1);
    assert_eq!(messages[0].get("content").and_then(|v| v.as_str()), Some(""));
    let body = obj(vec![(
        "choices",
        Json::List(vec![obj(vec![("message", obj(vec![("content", text("{\"reply\":1}"))]))])]),
    )]);
    assert_eq!(answer_content(&body), "{\"reply\":1}");
    assert_eq!(answer_content(&obj(vec![])), "{}");
    let a = answer_of("plain words", None);
    assert_eq!(a.get("reply").and_then(|v| v.as_str()), Some("plain words"));
    assert!(matches!(answer_of("x", Some(Json::Int(1))), Json::Int(1)));
}

#[test]
fn the_local_kernel_answers_by_length() {
    let (reply, ops) = execute_meta6_local_kernel("write a file");
    // twelve bytes: 12 * 17 mod 79 + 2 = 48
    assert_eq!(
        reply,
        "{ \"ref\": 48, \"net\": \"P48 -> P2 (Fluid Kernel) -> Local Processing\", \"out\": \"Processed intent locally: 'write a file'. Entropy reduced.\" }"
    );
    assert_eq!(ops, "Op: [Local Write Simulated]");
    assert_eq!(execute_meta6_local_kernel("read").1, "No ops");
    assert_eq!(execute_meta6_local_kernel("create").1, "Op: [Local Write Simulated]");
}

#[test]
fn tags_of_a_front_matter() {
    let tags = |s: &str| front_matter_tags(s.as_bytes());
    assert_eq!(tags("---\ntags:\n- one\n-  two \n--three\n---\nbody"), vec!["one", "two", "three"]);
    assert_eq!(tags("---\r\ntitle: x\r\ntags:\r\n- a\r\nother: y\r\n- b\r\n---\r\n"), vec!["a"]);
    assert_eq!(tags("---\ntags:\n- a\n\n- b\n---\n"), vec!["a"]);
    assert_eq!(tags("---\ntags:\n-\n- b\n"), vec!["b"]);
    assert!(tags("no front matter\n---\ntags:\n- a\n").is_empty());
    assert!(tags("").is_empty());
    assert!(tags("---\n- a\n---\n").is_empty());
}

#[test]
fn an_index_entry_carries_kind_checksum_and_tags() {
    let a = index_entry(
        "policies/p.md",
        "/repo/policies/p.md",
        b"Wikipedia",
        "2024-01-01T00:00:00+00:00",
        Some("abc1234".into()),
        None,
    );
    assert_eq!(a.checksum, "11e60398");
    assert_eq!(a.id, "policies/p.md#11e60398");
    assert_eq!(a.kind, "policy");
    assert_eq!(a.tags, vec!["policy"]);
    assert_eq!(a.ttl, 1_209_600);
    assert_eq!(a.git_commit, Some("abc1234".to_string()));
    let a = index_entry("docs/a.md", "/repo/docs/a.md", b"---\ntags:\n- x\n---\n", "t", None, None);
    assert_eq!(a.kind, "doc");
    assert_eq!(a.tags, vec!["x"]);
}

#[test]
fn only_some_endings_are_indexed() {
    for ext in ["md", "json", "jsonl", "yaml", "yml"] {
        assert!(one_engine::research::is_indexed_ending(ext), "{ext}");
    }
    for ext in ["", "MD", "txt", "rs", "jso", "yamls", ".md"] {
        assert!(!one_engine::research::is_indexed_ending(ext), "{ext}");
    }
}

#[test]
fn the_interface_names_the_paths_of_a_run() {
    assert_eq!(one_engine::api::ApiDoc::title(), "one-engine");
    assert_eq!(
        one_engine::api::ApiDoc::lifecycle_paths(),
        ["/run", "/run.async", "/runs.active.json", "/progress.sse"]
    );
}
