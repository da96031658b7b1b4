use one_engine::api::browse::{browse_html, browse_json, list_latest, Listed};
use one_engine::api::nudges::{
    compute_nudges, copy_nudge, evergreen_nudges, nudge_for_feature, nudges_html, nudges_json,
    Nudge, StalenessEntry, StalenessReport, BUILD_PROBE, READ_PROBE,
};
use one_engine::json::Json;

fn entry(feature: &str, status: &str) -> StalenessEntry {
    StalenessEntry {
        feature: feature.into(),
        status: status.into(),
        ts: "2024-01-01T00:00:00Z".into(),
        detail: "".into(),
    }
}

fn ids(nudges: &Vec<Nudge>) -> Vec<&str> {
    nudges.iter().map(|n| n.id.as_str()).collect()
}

fn policy_of(n: &Nudge) -> (Option<i64>, Option<u64>, Option<i64>, Option<i64>) {
    let p = n.run_payload.as_ref().and_then(|r| r.get("policy")).expect("a policy");
    (
        p.get("gamma_gate").and_then(|v| v.as_level()),
        p.get("time_ms").and_then(|v| v.as_u64()),
        p.get("max_risk").and_then(|v| v.as_level()),
        p.get("tiny_diff_loc").and_then(|v| v.as_i64()),
    )
}

#[test]
fn the_latest_entries_of_a_directory() {
    let listed = |mtime: u64, name: &str| Listed { mtime, name: name.into() };
    let entries = || vec![listed(5, "b"), listed(9, "a"), listed(5, "c"), listed(1, "z")];
    assert_eq!(list_latest(entries(), 10), ["a", "c", "b", "z"]);
    assert_eq!(list_latest(entries(), 2), ["a", "c"]);
    assert!(list_latest(entries(), 0).is_empty());
    assert!(list_latest(Vec::new(), 3).is_empty());
}

#[test]
fn the_browse_page_links_to_receipts_and_logs() {
    let receipts = vec!["r-2".to_string(), "r-1".to_string()];
    let logs = vec!["build.log".to_string()];
    let page = browse_html(&receipts, &logs);
    assert!(page.starts_with("<!doctype html><html><head><meta charset=\"utf-8\"><title>One Engine Browse</title>"));
    assert!(page.contains(
        "<h2>Latest receipts</h2><ul><li><a href=\"/runs/receipts/r-2/RECEIPT.md\">r-2</a></li><li><a href=\"/runs/receipts/r-1/RECEIPT.md\">r-1</a></li></ul><h2>meta3.build logs</h2><ul><li><a href=\"/runs/meta3-build/build.log\">build.log</a></li></ul>"
    ));
    assert!(page.ends_with("this page links to concrete artifacts.</p></body></html>"));
    let empty = browse_html(&Vec::new(), &Vec::new());
    assert!(empty.contains("<h2>Latest receipts</h2><ul></ul><h2>meta3.build logs</h2><ul></ul>"));

    let v = browse_json("/data", &receipts, &logs);
    assert_eq!(v.get("meta3_root").and_then(|x| x.as_str()), Some("/data"));
    assert_eq!(v.get("receipts").and_then(|x| x.as_array()).map(|a| a.len()), Some(2));
    assert_eq!(
        v.get("meta3_build_logs").and_then(|x| x.item(0)).and_then(|x| x.as_str()),
        Some("build.log")
    );
    let links = v.get("links").unwrap();
    assert_eq!(links.get("ui").and_then(|x| x.as_str()), Some("/ui/"));
    assert_eq!(links.get("browse").and_then(|x| x.as_str()), Some("/browse"));
    assert_eq!(links.get("swagger").and_then(|x| x.as_str()), Some("/swagger-ui"));
    assert_eq!(links.get("staleness").and_then(|x| x.as_str()), Some("/docs/staleness_matrix.md"));
    assert_eq!(links.get("impact").and_then(|x| x.as_str()), Some("/docs/financial_impact.md"));
}

#[test]
fn features_that_pass_need_no_nudge() {
    assert!(nudge_for_feature(&entry("health", "pass")).is_none());
    assert!(nudge_for_feature(&entry("health", "  PASS \n")).is_none());
    assert!(nudge_for_feature(&entry("anything", "Pass")).is_none());
    assert!(nudge_for_feature(&entry("health", "passed")).is_some());
    assert!(nudge_for_feature(&entry("health", "")).is_some());
}

#[test]
fn each_feature_has_its_nudge() {
    let n = nudge_for_feature(&entry(" health ", "FAIL")).unwrap();
    assert_eq!(n.id, "staleness:health");
    assert_eq!(n.title, "Health check failing");
    assert_eq!(n.severity, "error");
    assert_eq!(n.action, "Restart the engine and re-check /health");
    assert_eq!(n.link.as_deref(), Some("/health"));
    assert_eq!(n.command.as_deref(), Some("curl -s http://127.0.0.1:8080/health"));
    assert!(n.run_payload.is_none());

    let n = nudge_for_feature(&entry("version", "unknown")).unwrap();
    assert_eq!(n.title, "Version endpoint failing");
    assert_eq!(n.severity, "warn");
    assert_eq!(n.command.as_deref(), Some("curl -s http://127.0.0.1:8080/version | jq"));

    let n = nudge_for_feature(&entry("run.demo.ping.async", "fail")).unwrap();
    assert_eq!(n.id, "staleness:run.demo.ping.async");
    assert_eq!(n.title, "demo.ping failing");
    assert_eq!(n.link.as_deref(), Some("/browse"));
    assert_eq!(n.command, None);
    let run = n.run_payload.as_ref().unwrap();
    assert_eq!(run.get("goal_id").and_then(|v| v.as_str()), Some("demo.ping"));
    assert_eq!(
        run.get("inputs").and_then(|v| v.get("message")).and_then(|v| v.as_str()),
        Some("staleness nudge ping")
    );
    assert_eq!(policy_of(&n), (Some(500_000), Some(8000), Some(300_000), Some(120)));

    let n = nudge_for_feature(&entry("x.run.demo.ping", "fail")).unwrap();
    assert_eq!(n.title, "x.run.demo.ping is fail");

    let n = nudge_for_feature(&entry("goal research.read stale", "fail")).unwrap();
    assert_eq!(n.title, "research.read failing");
    assert_eq!(
        n.run_payload
            .as_ref()
            .and_then(|r| r.get("inputs"))
            .and_then(|v| v.get("path"))
            .and_then(|v| v.as_str()),
        Some(READ_PROBE)
    );
    assert_eq!(policy_of(&n).1, Some(12000));

    let n = nudge_for_feature(&entry("run.meta3.build", "fail")).unwrap();
    assert_eq!(n.title, "meta3.build failing");
    assert_eq!(
        n.run_payload
            .as_ref()
            .and_then(|r| r.get("inputs"))
            .and_then(|v| v.get("repo_path"))
            .and_then(|v| v.as_str()),
        Some(BUILD_PROBE)
    );
    assert_eq!(policy_of(&n).1, Some(300000));

    let n = nudge_for_feature(&entry("progress.sse", "unknown")).unwrap();
    assert_eq!(n.title, "progress.sse missing/unknown");
    assert_eq!(n.link.as_deref(), Some("/progress.sse"));
    assert_eq!(
        n.command.as_deref(),
        Some("curl -N 'http://127.0.0.1:8080/progress.sse?run_id=r-sseprobe' | head -n 30")
    );

    let n = nudge_for_feature(&entry(" docs ", " Fail ")).unwrap();
    assert_eq!(n.id, "staleness:docs");
    assert_eq!(n.title, "docs is  Fail ");
    assert_eq!(n.severity, "error");
    assert_eq!(n.action, "Inspect staleness detail and logs");
    assert_eq!(n.link.as_deref(), Some("/docs/staleness_matrix.json"));
    assert!(n.command.is_none() && n.run_payload.is_none());
}

#[test]
fn what_is_always_on_offer() {
    let offers = evergreen_nudges("/data");
    assert_eq!(
        ids(&offers),
        [
            "evergreen:wiki_local",
            "evergreen:green_build",
            "evergreen:threads_report",
            "evergreen:graphs_thread"
        ]
    );
    assert!(offers.iter().all(|n| n.severity == "info" && n.command.is_none()));
    assert_eq!(offers[0].link.as_deref(), Some("/browse"));
    assert_eq!(offers[2].link.as_deref(), Some("/terminal"));
    assert_eq!(policy_of(&offers[0]), (Some(500_000), Some(300000), Some(200_000), Some(120)));
    assert_eq!(policy_of(&offers[1]), (Some(500_000), Some(300000), Some(300_000), Some(120)));
    assert_eq!(policy_of(&offers[3]).1, Some(120000));
    let build = offers[1].run_payload.as_ref().unwrap();
    assert_eq!(build.get("goal_id").and_then(|v| v.as_str()), Some("meta3.build"));
    let inputs = build.get("inputs").unwrap();
    assert_eq!(inputs.get("repo_path").and_then(|v| v.as_str()), Some("/data"));
    assert_eq!(
        inputs.get("build_cmd").and_then(|v| v.as_str()),
        Some("cargo build --profile release-fast --bin one-engine")
    );
    let graph = offers[3].run_payload.as_ref().and_then(|r| r.get("inputs")).unwrap();
    assert_eq!(graph.get("recursive").and_then(|v| v.as_bool()), Some(true));
    assert_eq!(graph.get("depth").and_then(|v| v.as_i64()), Some(2));
    assert_eq!(graph.get("max_nodes").and_then(|v| v.as_i64()), Some(400));
    let report = offers[2].run_payload.as_ref().and_then(|r| r.get("inputs")).unwrap();
    assert_eq!(report.get("max_events").and_then(|v| v.as_i64()), Some(600));
    assert_eq!(report.get("content_chars").and_then(|v| v.as_i64()), Some(240));
    let wiki = offers[0].run_payload.as_ref().and_then(|r| r.get("inputs")).unwrap();
    assert!(matches!(wiki, Json::Object(fields) if fields.is_empty()));

    let copy = copy_nudge(&offers[1]);
    assert_eq!(copy.id, offers[1].id);
    assert_eq!(copy.title, offers[1].title);
    assert_eq!(format!("{:?}", copy.run_payload), format!("{:?}", offers[1].run_payload));
}

#[test]
fn nudges_are_computed_from_the_report() {
    let (n, missing) = compute_nudges(&StalenessReport::Missing, true, "/data");
    assert_eq!(n, 0);
    assert_eq!(
        ids(&missing),
        [
            "staleness:missing",
            "evergreen:wiki_local",
            "evergreen:green_build",
            "evergreen:threads_report",
            "evergreen:graphs_thread"
        ]
    );
    assert_eq!(missing[0].title, "Staleness report missing");
    assert_eq!(missing[0].link.as_deref(), Some("/docs/"));
    assert_eq!(missing[0].severity, "warn");

    let (n, unreadable) = compute_nudges(&StalenessReport::Unreadable, false, "/data");
    assert_eq!(n, 0);
    assert_eq!(ids(&unreadable)[..2], ["staleness:parse_error", "wiki:missing"]);
    assert_eq!(unreadable.len(), 6);
    assert_eq!(unreadable[0].action, "Fix docs/staleness_matrix.json or regenerate it");
    assert_eq!(unreadable[1].title, "No wiki snapshots yet");
    assert_eq!(policy_of(&unreadable[1]).2, Some(200_000));

    let report = StalenessReport::Entries(vec![
        entry("health", "pass"),
        entry("version", "fail"),
        entry("wiki_local", "fail"),
        entry("health", "unknown"),
    ]);
    let (n, found) = compute_nudges(&report, true, "/data");
    assert_eq!(n, 4);
    assert_eq!(
        ids(&found),
        [
            "staleness:version",
            "staleness:wiki_local",
            "staleness:health",
            "evergreen:wiki_local",
            "evergreen:green_build",
            "evergreen:threads_report",
            "evergreen:graphs_thread"
        ]
    );

    let taken = StalenessReport::Entries(vec![StalenessEntry {
        feature: "x".into(),
        status: "fail".into(),
        ts: "".into(),
        detail: "".into(),
    }]);
    let (_, mut some) = compute_nudges(&taken, true, "/data");
    assert_eq!(some.len(), 5);
    some.truncate(1);
    assert_eq!(some[0].title, "x is fail");
    let (n, none) = compute_nudges(&StalenessReport::Entries(Vec::new()), true, "/data");
    assert_eq!((n, none.len()), (0, 4));
}

#[test]
fn the_page_and_the_value_of_the_nudges() {
    let nudges = vec![
        nudge_for_feature(&entry("health", "fail")).unwrap(),
        nudge_for_feature(&entry("a<b", "odd")).unwrap(),
    ];
    let page = nudges_html(&nudges);
    assert!(page.starts_with("<!doctype html><html><head><meta charset=\"utf-8\"><title>One Engine Nudges</title>"));
    assert!(page.contains(
        "<ul><li style=\"margin:12px 0\"><span class=\"pill error\">error</span><strong>Health check failing</strong><div class=\"muted\">Restart the engine and re-check /health</div><div><a href=\"/health\" target=\"_blank\" rel=\"noreferrer\">/health</a></div><div><code>curl -s http://127.0.0.1:8080/health</code></div></li>"
    ));
    assert!(page.contains(
        "<li style=\"margin:12px 0\"><span class=\"pill warn\">warn</span><strong>a&lt;b is odd</strong><div class=\"muted\">Inspect staleness detail and logs</div><div><a href=\"/docs/staleness_matrix.json\" target=\"_blank\" rel=\"noreferrer\">/docs/staleness_matrix.json</a></div></li></ul></body></html>"
    ));
    assert!(nudges_html(&Vec::new()).ends_with("</p><ul></ul></body></html>"));

    let v = nudges_json("/data", 7, &nudges);
    assert_eq!(v.get("meta3_root").and_then(|x| x.as_str()), Some("/data"));
    assert_eq!(v.get("staleness_entries").and_then(|x| x.as_u64()), Some(7));
    let listed = v.get("nudges").and_then(|x| x.as_array()).unwrap();
    assert_eq!(listed.len(), 2);
    assert_eq!(listed[0].get("id").and_then(|x| x.as_str()), Some("staleness:health"));
    assert_eq!(listed[0].get("severity").and_then(|x| x.as_str()), Some("error"));
    assert!(matches!(listed[0].get("run_payload"), Some(Json::Null)));
    assert!(matches!(listed[1].get("command"), Some(Json::Null)));
    assert_eq!(
        listed[1].get("link").and_then(|x| x.as_str()),
        Some("/docs/staleness_matrix.json")
    );
}
