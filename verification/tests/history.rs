use one_engine::api::browse::Listed;
use one_engine::api::history::{
    archive_source, authenticate_user, codex_access, codex_sources, file_source, is_archive_name,
    is_log_request, latest_archive_of, list_logs, listing_json, rollouts_source, tail_json, Access,
    FileMeta,
};
use one_engine::api::requests::AppState;
use one_engine::api::scan::{
    capabilities, scan_jsonl_file, scan_line, scanned_tools, FileScanAccum, ScanTotals,
};
use one_engine::api::search::{
    excerpt_around, pattern_given, pattern_of, recent_logs, search_jsonl_file_tail, search_request,
    search_resp,
};
use one_engine::api::UserContext;
use one_engine::json::Json;

fn fields(list: Vec<(&str, Json)>) -> Json {
    Json::Object(list.into_iter().map(|(k, v)| (k.to_string(), v)).collect())
}

fn txt(s: &str) -> Json {
    Json::Text(s.to_string())
}

fn meta(name: &str, size: u64, is_file: bool, mtime: Option<&str>) -> FileMeta {
    FileMeta { name: name.into(), size, is_file, mtime: mtime.map(|s| s.to_string()) }
}

fn counts(items: &Vec<one_engine::api::codex::CountedItem>) -> Vec<(String, u64)> {
    items.iter().map(|c| (c.key.clone(), c.count)).collect()
}

fn users() -> AppState {
    AppState {
        users: vec![
            UserContext {
                user_id: "ann".into(),
                api_key: "key-a".into(),
                quota_remaining: 5,
                policy_overrides: None,
            },
            UserContext {
                user_id: "bob".into(),
                api_key: "key-b".into(),
                quota_remaining: 5,
                policy_overrides: None,
            },
            UserContext {
                user_id: "twin".into(),
                api_key: "key-a".into(),
                quota_remaining: 5,
                policy_overrides: None,
            },
        ],
    }
}

fn empty_scan() -> FileScanAccum {
    FileScanAccum {
        events_parsed: 0,
        strings_extracted: 0,
        host_counts: Vec::new(),
        path_counts: Vec::new(),
        tool_counts: Vec::new(),
        samples: Vec::new(),
        tailed_lines: 0,
        size_bytes: 0,
    }
}

#[test]
fn a_key_belongs_to_its_first_holder() {
    let state = users();
    assert_eq!(authenticate_user(&state, "key-a").map(|u| u.user_id.as_str()), Some("ann"));
    assert_eq!(authenticate_user(&state, "key-b").map(|u| u.user_id.as_str()), Some("bob"));
    assert!(authenticate_user(&state, "key-c").is_none());
    assert!(authenticate_user(&state, "").is_none());
    assert!(authenticate_user(&AppState { users: Vec::new() }, "key-a").is_none());
}

#[test]
fn the_history_is_read_with_a_key_where_it_is_switched_on() {
    let state = users();
    assert_eq!(codex_access(false, Some("key-a"), &state), Access::Disabled);
    assert_eq!(codex_access(false, None, &state), Access::Disabled);
    assert_eq!(codex_access(true, None, &state), Access::MissingKey);
    assert_eq!(codex_access(true, Some("nope"), &state), Access::InvalidKey);
    assert_eq!(codex_access(true, Some("key-b"), &state), Access::Granted);
}

#[test]
fn the_sources_of_the_history() {
    assert!(is_archive_name("codex_history_2024.jsonl"));
    assert!(!is_archive_name("codex_history_2024.json"));
    assert!(!is_archive_name("history_2024.jsonl"));
    let archive_files = vec![
        meta("codex_history_1.jsonl", 10, true, Some("2024-01-02T00:00:00+00:00")),
        meta("notes.txt", 99, true, Some("2025-01-01T00:00:00+00:00")),
        meta("codex_history_2.jsonl", 5, false, Some("2024-01-01T00:00:00+00:00")),
        meta("codex_history_3.jsonl", 1, true, None),
    ];
    let a = archive_source(&archive_files);
    assert_eq!(a.id, "orchestrator_archives");
    assert_eq!(a.kind, "dir");
    assert_eq!(a.description, "Codex Time Machine era archives (codex_history_*.jsonl)");
    assert!(a.available);
    assert_eq!(a.size_bytes, Some(16));
    assert_eq!(a.file_count, None);
    assert_eq!(a.mtime.as_deref(), Some("2024-01-02T00:00:00+00:00"));
    let none = archive_source(&vec![meta("notes.txt", 99, true, None)]);
    assert!(!none.available);
    assert_eq!((none.size_bytes, none.mtime), (None, None));
    let full = archive_source(&vec![
        meta("codex_history_1.jsonl", u64::MAX, true, None),
        meta("codex_history_2.jsonl", 5, true, None),
    ]);
    assert_eq!(full.size_bytes, Some(u64::MAX));

    let log_files = vec![
        meta("a.jsonl", 10, true, Some("2024-01-01T00:00:00+00:00")),
        meta("b.jsonl", 20, false, Some("2026-01-01T00:00:00+00:00")),
        meta("c.txt", 40, true, None),
        meta("d.jsonl", 30, true, Some("2024-03-01T00:00:00+00:00")),
    ];
    let r = rollouts_source(&log_files);
    assert_eq!(r.id, "meta3_rollouts");
    assert_eq!(r.description, "Meta3 rollout logs (*.jsonl)");
    assert!(r.available);
    assert_eq!(r.size_bytes, Some(40));
    assert_eq!(r.file_count, Some(2));
    assert_eq!(r.mtime.as_deref(), Some("2024-03-01T00:00:00+00:00"));
    let no_logs = rollouts_source(&Vec::new());
    assert!(!no_logs.available);
    assert_eq!((no_logs.size_bytes, no_logs.file_count, no_logs.mtime), (Some(0), Some(0), None));

    let there = meta("normalized_codex.jsonl", 7, true, Some("t"));
    let f = file_source("utir_normalized_codex", "UTIR normalized Codex JSONL", Some(&there));
    assert_eq!((f.kind.as_str(), f.available, f.size_bytes), ("file", true, Some(7)));
    assert_eq!(f.mtime.as_deref(), Some("t"));
    let dir = meta("normalized_codex.jsonl", 7, false, None);
    assert!(!file_source("x", "y", Some(&dir)).available);
    let gone = file_source("x", "y", None);
    assert_eq!((gone.available, gone.size_bytes, gone.file_count, gone.mtime), (false, None, None, None));

    let all = codex_sources(&archive_files, &log_files, Some(&there), None);
    let ids: Vec<&str> = all.sources.iter().map(|s| s.id.as_str()).collect();
    assert_eq!(
        ids,
        ["orchestrator_archives", "meta3_rollouts", "utir_normalized_codex", "utir_normalized_history"]
    );
    assert_eq!(all.sources[3].description, "UTIR normalized history/event ledger JSONL");
    assert!(all.sources[2].available && !all.sources[3].available);
}

#[test]
fn the_latest_archive_has_the_last_name() {
    let names = |v: &[&str]| v.iter().map(|s| s.to_string()).collect::<Vec<_>>();
    assert_eq!(
        latest_archive_of(&names(&[
            "codex_history_2024-01.jsonl",
            "zzz.jsonl",
            "codex_history_2024-03.jsonl",
            "codex_history_2024-02.jsonl",
        ]))
        .as_deref(),
        Some("codex_history_2024-03.jsonl")
    );
    assert_eq!(latest_archive_of(&names(&["zzz.jsonl"])), None);
    assert_eq!(latest_archive_of(&Vec::new()), None);
}

#[test]
fn the_end_of_a_history_file_as_events() {
    let lines = vec![
        ("{\"a\":1}".to_string(), Some(fields(vec![("a", Json::Int(1))]))),
        ("not json".to_string(), None),
    ];
    let v = tail_json("meta3_rollouts", "a.jsonl", &lines);
    assert_eq!(v.get("source").and_then(|x| x.as_str()), Some("meta3_rollouts"));
    assert_eq!(v.get("file").and_then(|x| x.as_str()), Some("a.jsonl"));
    let events = v.get("events").and_then(|x| x.as_array()).unwrap();
    assert_eq!(events.len(), 2);
    assert_eq!(events[0].get("a").and_then(|x| x.as_i64()), Some(1));
    assert_eq!(events[1].get("raw").and_then(|x| x.as_str()), Some("not json"));
}

#[test]
fn logs_are_listed_by_name() {
    assert!(is_log_request("run-1.jsonl"));
    assert!(!is_log_request("run-1.json"));
    assert!(!is_log_request("../run-1.jsonl"));
    assert!(!is_log_request("a/b.jsonl"));
    let files = || {
        vec![
            meta("b.jsonl", 2, true, Some("t2")),
            meta("a.jsonl", 1, true, None),
            meta("d.jsonl", 4, false, None),
            meta("c.txt", 3, true, None),
            meta("c.jsonl", 3, true, None),
            meta("bad name.jsonl", 3, true, None),
        ]
    };
    let names = |v: &Vec<FileMeta>| v.iter().map(|f| f.name.clone()).collect::<Vec<_>>();
    assert_eq!(names(&list_logs(files(), 10)), ["c.jsonl", "b.jsonl", "a.jsonl"]);
    assert_eq!(names(&list_logs(files(), 2)), ["c.jsonl", "b.jsonl"]);
    assert!(list_logs(Vec::new(), 2).is_empty());
    let v = listing_json(&list_logs(files(), 2));
    assert_eq!(v.get("source").and_then(|x| x.as_str()), Some("meta3_rollouts"));
    assert_eq!(v.get("count").and_then(|x| x.as_u64()), Some(2));
    let listed = v.get("files").and_then(|x| x.as_array()).unwrap();
    assert_eq!(listed[1].get("name").and_then(|x| x.as_str()), Some("b.jsonl"));
    assert_eq!(listed[1].get("size_bytes").and_then(|x| x.as_u64()), Some(2));
    assert_eq!(listed[1].get("mtime").and_then(|x| x.as_str()), Some("t2"));
    assert!(matches!(listed[0].get("mtime"), Some(Json::Null)));

    let listed = |mtime: u64, name: &str| Listed { mtime, name: name.into() };
    assert_eq!(
        recent_logs(
            vec![listed(1, "a.jsonl"), listed(3, "c.txt"), listed(2, "b.jsonl"), listed(2, "c.jsonl")],
            2
        ),
        ["c.jsonl", "b.jsonl"]
    );
}

#[test]
fn a_line_of_the_history_is_scanned() {
    let tools = scanned_tools();
    assert_eq!(tools.len(), 13);
    let mut acc = empty_scan();
    scan_line(
        &mut acc,
        "curl -s https://api.example.com/v1/items?x=1 and http://api.example.com. then GET /api/runs",
        None,
        &tools,
    );
    assert_eq!((acc.events_parsed, acc.strings_extracted), (0, 1));
    assert_eq!(counts(&acc.host_counts), [("api.example.com".to_string(), 2)]);
    assert_eq!(
        counts(&acc.path_counts),
        [
            ("/v1/items".to_string(), 1),
            ("/".to_string(), 1),
            ("/api.example.com/v1/items?x=1".to_string(), 1),
            ("/api.example.com.".to_string(), 1),
            ("/api/runs".to_string(), 1)
        ]
    );
    assert_eq!(counts(&acc.tool_counts), [("curl".to_string(), 1)]);
    assert_eq!(acc.samples.len(), 1);
    assert!(acc.samples[0].starts_with("curl -s https://"));

    let event = fields(vec![
        ("cmd", txt("Cargo build && git status")),
        ("n", Json::Int(3)),
        ("blank", txt("   ")),
        ("nested", Json::List(vec![txt("plain words")])),
    ]);
    scan_line(&mut acc, "{...}", Some(&event), &tools);
    assert_eq!((acc.events_parsed, acc.strings_extracted), (1, 3));
    assert_eq!(
        counts(&acc.tool_counts),
        [
            ("curl".to_string(), 1),
            ("cargo".to_string(), 1),
            ("git".to_string(), 1),
            ("rg".to_string(), 1)
        ]
    );
    assert_eq!(acc.samples.len(), 2);
    assert_eq!(acc.samples[1], "Cargo build && git status");

    scan_line(&mut acc, "   ", None, &tools);
    assert_eq!(acc.strings_extracted, 3);
    let long = format!("git {}", "x".repeat(500));
    scan_line(&mut acc, &long, None, &tools);
    assert_eq!(acc.samples[2].chars().count(), 400);
}

#[test]
fn no_more_than_thirty_samples_are_kept() {
    let tools = scanned_tools();
    let lines: Vec<(String, Option<Json>)> =
        (0..40).map(|i| (format!("git commit -m {}", i), None)).collect();
    let acc = scan_jsonl_file(&lines, 1234, &tools);
    assert_eq!(acc.tailed_lines, 40);
    assert_eq!(acc.size_bytes, 1234);
    assert_eq!(acc.strings_extracted, 40);
    assert_eq!(acc.samples.len(), 30);
    assert_eq!(acc.samples[29], "git commit -m 29");
    assert_eq!(counts(&acc.tool_counts), [("git".to_string(), 40)]);

    let mut totals = ScanTotals::new();
    totals.absorb("meta3_rollouts", "a.jsonl", acc);
    let more = scan_jsonl_file(
        &vec![("npm install https://registry.example.org/pkg".to_string(), None)],
        10,
        &tools,
    );
    totals.absorb("orchestrator_archives", "codex_history_1.jsonl", more);
    assert_eq!(totals.samples.len(), 30);
    assert_eq!(totals.strings_extracted, 41);
    assert_eq!(totals.files_scanned.len(), 2);
    assert_eq!(totals.files_scanned[1].source, "orchestrator_archives");
    assert_eq!(totals.files_scanned[1].file, "codex_history_1.jsonl");
    assert_eq!((totals.files_scanned[0].size_bytes, totals.files_scanned[0].tailed_lines), (1234, 40));

    let report = capabilities("2024-01-01T00:00:00Z", totals);
    assert_eq!(report.generated_at, "2024-01-01T00:00:00Z");
    assert_eq!(report.strings_extracted, 41);
    assert_eq!(
        counts(&report.tool_signals),
        [("git".to_string(), 40), ("npm".to_string(), 1), ("rg".to_string(), 1)]
    );
    assert_eq!(counts(&report.top_hosts), [("registry.example.org".to_string(), 1)]);
    assert_eq!(counts(&report.top_paths), [("/pkg".to_string(), 1)]);
    assert_eq!(report.samples.len(), 30);
    assert_eq!(
        report.next_actions,
        [
            "Promote top_hosts/top_paths into a stable API surface doc.",
            "Add /codex/search to find exact prior commands/snippets.",
            "Add /codex/capabilities/export.md to publish a readable report."
        ]
    );
}

#[test]
fn what_is_shown_of_a_matching_line() {
    assert_eq!(excerpt_around("short line", Some((0, 5))), "short line");
    assert_eq!(excerpt_around("short line", None), "short line");
    let long: String = "a".repeat(300) + "MATCH" + &"b".repeat(300);
    let shown = excerpt_around(&long, Some((300, 305)));
    assert_eq!(shown, format!("…{}MATCH{}…", "a".repeat(220), "b".repeat(220)));
    let at_start = excerpt_around(&long, Some((0, 3)));
    assert_eq!(at_start, format!("{}…", "a".repeat(223)));
    let at_end = excerpt_around(&long, Some((600, 605)));
    assert_eq!(at_end, format!("…{}{}", "a".repeat(0), &long[380..]));
    assert_eq!(excerpt_around(&"c".repeat(600), None), "c".repeat(500));

    let wide: String = "é".repeat(200) + "X" + &"é".repeat(200);
    let shown = excerpt_around(&wide, Some((400, 401)));
    assert_eq!(shown, format!("…{}X{}…", "é".repeat(110), "é".repeat(110)));
    let odd = excerpt_around(&wide, Some((401, 402)));
    assert_eq!(odd, format!("…{}X{}…", "é".repeat(110), "é".repeat(111)));
    let whole = "z".repeat(700);
    let cut = excerpt_around(&whole, Some((350, 351)));
    assert_eq!(cut.chars().count(), 443);
    let huge = excerpt_around(&"y".repeat(2000), Some((0, 2000)));
    assert_eq!(huge.chars().count(), 501);
    assert!(huge.ends_with('…'));
}

#[test]
fn the_lines_of_a_file_are_searched() {
    let lines = vec![
        ("{\"ts\":\"t1\",\"type\":\"cmd\",\"text\":\"Cargo Build\"}".to_string(),
         Some(fields(vec![("ts", txt("t1")), ("type", txt("cmd")), ("text", txt("Cargo Build"))]))),
        ("nothing here".to_string(), None),
        ("x-api-key: secret123 cargo test".to_string(), None),
        ("cargo again".to_string(), None),
    ];
    let mut results = Vec::new();
    search_jsonl_file_tail("utir", "f.jsonl", &lines, "cargo", false, None, 10, &mut results);
    assert_eq!(results.iter().map(|r| r.line).collect::<Vec<_>>(), [1, 3, 4]);
    assert_eq!(results[0].source, "utir");
    assert_eq!(results[0].file, "f.jsonl");
    assert_eq!(results[0].ts.as_deref(), Some("t1"));
    assert_eq!(results[0].kind.as_deref(), Some("cmd"));
    assert_eq!(results[0].snippet, lines[0].0);
    assert_eq!(results[1].ts, None);
    assert_eq!(results[1].snippet, "x-api-key: [REDACTED] cargo test");

    let mut exact = Vec::new();
    search_jsonl_file_tail("utir", "f.jsonl", &lines, "cargo", true, None, 10, &mut exact);
    assert_eq!(exact.iter().map(|r| r.line).collect::<Vec<_>>(), [3, 4]);

    let mut by_pattern = Vec::new();
    search_jsonl_file_tail("utir", "f.jsonl", &lines, "", false, Some("ag?ain$"), 10, &mut by_pattern);
    assert_eq!(by_pattern.iter().map(|r| r.line).collect::<Vec<_>>(), [4]);
    let mut unusable = Vec::new();
    search_jsonl_file_tail("utir", "f.jsonl", &lines, "cargo", false, Some("("), 10, &mut unusable);
    assert!(unusable.is_empty());

    search_jsonl_file_tail("other", "g.jsonl", &lines, "cargo", false, None, 4, &mut results);
    assert_eq!(results.len(), 4);
    assert_eq!((results[3].source.as_str(), results[3].line), ("other", 1));
    search_jsonl_file_tail("other", "g.jsonl", &lines, "cargo", false, None, 4, &mut results);
    assert_eq!(results.len(), 4);

    let resp = search_resp("now", "cargo".to_string(), 2, results, 4);
    assert!(resp.truncated);
    assert_eq!((resp.query.as_str(), resp.scanned_files, resp.results.len()), ("cargo", 2, 4));
    assert!(!search_resp("now", "q".to_string(), 0, Vec::new(), 1).truncated);
}

#[test]
fn searches_are_asked_with_a_text_or_a_pattern() {
    assert_eq!(search_request("  cargo  ").unwrap(), "cargo");
    assert_eq!(search_request("   ").unwrap_err(), "q must be non-empty and <= 4000 chars");
    assert_eq!(search_request("").unwrap_err(), "q must be non-empty and <= 4000 chars");
    assert!(search_request(&"a".repeat(4000)).is_ok());
    assert!(search_request(&"a".repeat(4001)).is_err());
    assert!(search_request(&"é".repeat(2001)).is_err());

    assert_eq!(pattern_of("a+", false).unwrap(), None);
    assert_eq!(pattern_of("(", false).unwrap(), None);
    assert_eq!(pattern_of("a+", true).unwrap().as_deref(), Some("a+"));
    let fault = pattern_of("(", true).unwrap_err();
    assert!(fault.starts_with("invalid regex: "));
    assert!(fault.len() > "invalid regex: ".len());
    assert_eq!(
        pattern_given("(", true, Some("unclosed".to_string())).unwrap_err(),
        "invalid regex: unclosed"
    );
    assert_eq!(pattern_given("x", true, None).unwrap().as_deref(), Some("x"));
    assert_eq!(pattern_given("x", false, Some("odd".to_string())).unwrap(), None);
}
