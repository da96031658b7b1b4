//! Nudges: the next steps that the engine suggests, from the staleness
//! report and from what it always has to offer.

use vstd::prelude::*;
use crate::json::{entries_view, items_view, put, Json, JsonView};
use crate::text::{
    ascii_lowercase, begins_with, chars_of, contains_str, contains_text, escaped, html_escaped,
    is_str, opt_view, push_all, push_str, starts_with, str_eq, text_of, to_ascii_lowercase, trim,
    trimmed,
};
use super::{opt_text_json, opt_text_view};

verus! {

/// What the staleness report says of one feature.
#[derive(Debug)]
pub struct StalenessEntry {
    pub feature: String,
    pub status: String,
    pub ts: String,
    pub detail: String,
}

/// One suggested step: what it is about, how grave it is (`info`, `warn` or
/// `error`), what to do, and where there is one a link to follow, a command
/// to run by hand, and a run to start.
#[derive(Debug)]
pub struct Nudge {
    pub id: String,
    pub title: String,
    pub severity: String,
    pub action: String,
    pub link: Option<String>,
    pub command: Option<String>,
    pub run_payload: Option<Json>,
}

/// What a nudge holds.
pub struct NudgeView {
    pub id: Seq<char>,
    pub title: Seq<char>,
    pub severity: Seq<char>,
    pub action: Seq<char>,
    pub link: Option<Seq<char>>,
    pub command: Option<Seq<char>>,
    pub run_payload: Option<JsonView>,
}

impl View for Nudge {
    type V = NudgeView;

    open spec fn view(&self) -> NudgeView {
        NudgeView {
            id: self.id@,
            title: self.title@,
            severity: self.severity@,
            action: self.action@,
            link: opt_view(self.link),
            command: opt_view(self.command),
            run_payload: match self.run_payload {
                Some(p) => Some(p@),
                None => None,
            },
        }
    }
}

/// What nudges hold.
pub open spec fn nudges_view(nudges: Seq<Nudge>) -> Seq<NudgeView> {
    Seq::new(nudges.len(), |i: int| nudges[i]@)
}

/// The request of a run of the goal `goal_id` with one text as its input,
/// or with none, under a policy with the time `time_ms` and the risk
/// `max_risk`.
pub open spec fn run_request(
    goal_id: Seq<char>,
    input: Option<(Seq<char>, Seq<char>)>,
    time_ms: int,
    max_risk: int,
) -> JsonView {
    JsonView::Object(
        seq![
            ("goal_id"@, JsonView::Text(goal_id)),
            (
                "inputs"@,
                JsonView::Object(
                    match input {
                        Some(kv) => seq![(kv.0, JsonView::Text(kv.1))],
                        None => Seq::<(Seq<char>, JsonView)>::empty(),
                    },
                ),
            ),
            ("policy"@, policy_of(time_ms, max_risk)),
        ],
    )
}

/// The policy of a suggested run.
pub open spec fn policy_of(time_ms: int, max_risk: int) -> JsonView {
    JsonView::Object(
        seq![
            ("gamma_gate"@, JsonView::Real(500_000)),
            ("time_ms"@, JsonView::Int(time_ms)),
            ("max_risk"@, JsonView::Real(max_risk)),
            ("tiny_diff_loc"@, JsonView::Int(120)),
        ],
    )
}

/// The policy of a suggested run.
fn policy_json(time_ms: u64, max_risk: i64) -> (r: Json)
    ensures
        r@ == policy_of(time_ms as int, max_risk as int),
{
    let mut e: Vec<(String, Json)> = Vec::new();
    put(&mut e, "gamma_gate", Json::Real(500_000));
    put(&mut e, "time_ms", Json::Nat(time_ms));
    put(&mut e, "max_risk", Json::Real(max_risk));
    put(&mut e, "tiny_diff_loc", Json::Int(120));
    assert(entries_view(e@) =~= policy_of(time_ms as int, max_risk as int)->Object_0);
    Json::Object(e)
}

/// The request of a suggested run.
fn run_request_json(goal_id: &str, input: Option<(&str, &str)>, time_ms: u64, max_risk: i64) -> (r:
    Json)
    ensures
        r@ == run_request(
            goal_id@,
            match input {
                Some(kv) => Some((kv.0@, kv.1@)),
                None => None,
            },
            time_ms as int,
            max_risk as int,
        ),
{
    let ghost wanted: Seq<(Seq<char>, JsonView)> = match input {
        Some(kv) => seq![(kv.0@, JsonView::Text(kv.1@))],
        None => Seq::<(Seq<char>, JsonView)>::empty(),
    };
    let mut inputs: Vec<(String, Json)> = Vec::new();
    if let Some(kv) = input {
        put(&mut inputs, kv.0, Json::text(kv.1));
    }
    assert(entries_view(inputs@) =~= wanted);
    let mut e: Vec<(String, Json)> = Vec::new();
    put(&mut e, "goal_id", Json::text(goal_id));
    put(&mut e, "inputs", Json::Object(inputs));
    put(&mut e, "policy", policy_json(time_ms, max_risk));
    assert(entries_view(e@) =~= seq![
        ("goal_id"@, JsonView::Text(goal_id@)),
        ("inputs"@, JsonView::Object(wanted)),
        ("policy"@, policy_of(time_ms as int, max_risk as int)),
    ]);
    proof {
        let asked: Option<(Seq<char>, Seq<char>)> = match input {
            Some(kv) => Some((kv.0@, kv.1@)),
            None => None,
        };
        let whole = run_request(goal_id@, asked, time_ms as int, max_risk as int)->Object_0;
        assert(whole[1].1->Object_0 =~= wanted);
        assert(entries_view(e@) =~= whole);
    }
    Json::Object(e)
}

/// What is suggested for a feature that does not pass: a title, what to do,
/// a link, and where there is one a command and a run. `status` is the
/// status as the report gives it.
pub open spec fn advice(feature: Seq<char>, status: Seq<char>) -> (
    Seq<char>,
    Seq<char>,
    Seq<char>,
    Option<Seq<char>>,
    Option<JsonView>,
) {
    if feature == "health"@ {
        (
            "Health check failing"@,
            "Restart the engine and re-check /health"@,
            "/health"@,
            Some("curl -s http://127.0.0.1:8080/health"@),
            None,
        )
    } else if feature == "version"@ {
        (
            "Version endpoint failing"@,
            "Check /version output and logs"@,
            "/version"@,
            Some("curl -s http://127.0.0.1:8080/version | jq"@),
            None,
        )
    } else if starts_with(feature, "run.demo.ping"@) {
        (
            "demo.ping failing"@,
            "Run demo.ping and confirm a receipt is written"@,
            "/browse"@,
            None,
            Some(
                run_request(
                    "demo.ping"@,
                    Some(("message"@, "staleness nudge ping"@)),
                    8000,
                    300_000,
                ),
            ),
        )
    } else if contains_text(feature, "research.read"@) {
        (
            "research.read failing"@,
            "Re-run the read and verify stale=false"@,
            "/browse"@,
            None,
            Some(run_request("research.read"@, Some(("path"@, READ_PROBE@)), 12000, 300_000)),
        )
    } else if contains_text(feature, "meta3.build"@) {
        (
            "meta3.build failing"@,
            "Re-run meta3.build (policy-driven default_cmd) and inspect log"@,
            "/browse"@,
            None,
            Some(
                run_request("meta3.build"@, Some(("repo_path"@, BUILD_PROBE@)), 300000, 300_000),
            ),
        )
    } else if feature == "progress.sse"@ {
        (
            "progress.sse missing/unknown"@,
            "Connect SSE and verify events are emitted"@,
            "/progress.sse"@,
            Some(
                "curl -N 'http://127.0.0.1:8080/progress.sse?run_id=r-sseprobe' | head -n 30"@,
            ),
            None,
        )
    } else {
        (
            feature + " is "@ + status,
            "Inspect staleness detail and logs"@,
            "/docs/staleness_matrix.json"@,
            None,
            None,
        )
    }
}

/// The file that a suggested read reads.
pub const READ_PROBE: &'static str =
    "/Users/jobs/Desktop/tmp-meta3-engine-test/research/sources/history_miner_folder/memory/policy_ucb.json";

/// The repository that a suggested build builds.
pub const BUILD_PROBE: &'static str = "/Users/jobs/Desktop/meta3-monorepo";

/// The nudge for an entry of the staleness report: none for a feature that
/// passes; else what is suggested for the feature, as an error where the
/// feature fails and as a warning otherwise. The feature and the status
/// are read without the white space around them, the status without
/// regard to case.
pub open spec fn nudge_for(entry: StalenessEntry) -> Option<NudgeView> {
    let feature = trimmed(entry.feature@);
    let status = ascii_lowercase(trimmed(entry.status@));
    if status == "pass"@ {
        None
    } else {
        let a = advice(feature, entry.status@);
        Some(
            NudgeView {
                id: "staleness:"@ + feature,
                title: a.0,
                severity: if status == "fail"@ {
                    "error"@
                } else {
                    "warn"@
                },
                action: a.1,
                link: Some(a.2),
                command: a.3,
                run_payload: a.4,
            },
        )
    }
}

/// The nudge for an entry of the staleness report.
pub fn nudge_for_feature(entry: &StalenessEntry) -> (r: Option<Nudge>)
    ensures
        match r {
            Some(n) => nudge_for(*entry) == Some(n@),
            None => nudge_for(*entry) is None,
        },
{
    let feature = trim(&chars_of(entry.feature.as_str()));
    let status = to_ascii_lowercase(&trim(&chars_of(entry.status.as_str())));
    if is_str(&status, "pass") {
        return None;
    }
    let severity = if is_str(&status, "fail") {
        "error"
    } else {
        "warn"
    };
    let mut id = chars_of("staleness:");
    push_all(&mut id, &feature);
    let mut title: Vec<char> = Vec::new();
    let action: &str;
    let link: &str;
    let mut command: Option<String> = None;
    let mut run_payload: Option<Json> = None;
    if is_str(&feature, "health") {
        title = chars_of("Health check failing");
        action = "Restart the engine and re-check /health";
        link = "/health";
        command = Some("curl -s http://127.0.0.1:8080/health".to_owned());
    } else if is_str(&feature, "version") {
        title = chars_of("Version endpoint failing");
        action = "Check /version output and logs";
        link = "/version";
        command = Some("curl -s http://127.0.0.1:8080/version | jq".to_owned());
    } else if begins_with(&feature, "run.demo.ping") {
        title = chars_of("demo.ping failing");
        action = "Run demo.ping and confirm a receipt is written";
        link = "/browse";
        run_payload = Some(
            run_request_json("demo.ping", Some(("message", "staleness nudge ping")), 8000, 300_000),
        );
    } else if contains_str(&feature, "research.read") {
        title = chars_of("research.read failing");
        action = "Re-run the read and verify stale=false";
        link = "/browse";
        run_payload = Some(
            run_request_json("research.read", Some(("path", READ_PROBE)), 12000, 300_000),
        );
    } else if contains_str(&feature, "meta3.build") {
        title = chars_of("meta3.build failing");
        action = "Re-run meta3.build (policy-driven default_cmd) and inspect log";
        link = "/browse";
        run_payload = Some(
            run_request_json("meta3.build", Some(("repo_path", BUILD_PROBE)), 300000, 300_000),
        );
    } else if is_str(&feature, "progress.sse") {
        title = chars_of("progress.sse missing/unknown");
        action = "Connect SSE and verify events are emitted";
        link = "/progress.sse";
        command = Some(
            "curl -N 'http://127.0.0.1:8080/progress.sse?run_id=r-sseprobe' | head -n 30".to_owned(),
        );
    } else {
        push_all(&mut title, &feature);
        push_str(&mut title, " is ");
        push_str(&mut title, entry.status.as_str());
        assert(title@ =~= feature@ + " is "@ + entry.status@);
        action = "Inspect staleness detail and logs";
        link = "/docs/staleness_matrix.json";
    }
    Some(
        Nudge {
            id: text_of(&id),
            title: text_of(&title),
            severity: severity.to_owned(),
            action: action.to_owned(),
            link: Some(link.to_owned()),
            command,
            run_payload,
        },
    )
}

/// The nudge for a staleness report that is missing (`missing`) or cannot
/// be read.
pub open spec fn report_nudge(missing: bool) -> NudgeView {
    NudgeView {
        id: if missing {
            "staleness:missing"@
        } else {
            "staleness:parse_error"@
        },
        title: if missing {
            "Staleness report missing"@
        } else {
            "Staleness report parse error"@
        },
        severity: "warn"@,
        action: if missing {
            "Generate docs/staleness_matrix.json to populate nudges"@
        } else {
            "Fix docs/staleness_matrix.json or regenerate it"@
        },
        link: Some(
            if missing {
                "/docs/"@
            } else {
                "/docs/staleness_matrix.json"@
            },
        ),
        command: Some("cd /Users/jobs/Desktop && ./scripts/workflows/run_all.sh"@),
        run_payload: None,
    }
}

/// The nudge for a missing or unreadable staleness report.
pub fn report_nudge_of(missing: bool) -> (n: Nudge)
    ensures
        n@ == report_nudge(missing),
{
    Nudge {
        id: if missing {
            "staleness:missing".to_owned()
        } else {
            "staleness:parse_error".to_owned()
        },
        title: if missing {
            "Staleness report missing".to_owned()
        } else {
            "Staleness report parse error".to_owned()
        },
        severity: "warn".to_owned(),
        action: if missing {
            "Generate docs/staleness_matrix.json to populate nudges".to_owned()
        } else {
            "Fix docs/staleness_matrix.json or regenerate it".to_owned()
        },
        link: Some(
            if missing {
                "/docs/".to_owned()
            } else {
                "/docs/staleness_matrix.json".to_owned()
            },
        ),
        command: Some("cd /Users/jobs/Desktop && ./scripts/workflows/run_all.sh".to_owned()),
        run_payload: None,
    }
}

/// The nudge to make the first wiki snapshot.
pub open spec fn first_wiki() -> NudgeView {
    NudgeView {
        id: "wiki:missing"@,
        title: "No wiki snapshots yet"@,
        severity: "warn"@,
        action: "Run wiki.generate to create the first /runs/wiki/<run_id>/index.html"@,
        link: Some("/browse"@),
        command: None,
        run_payload: Some(run_request("wiki.generate"@, None, 300000, 200_000)),
    }
}

/// The nudge to make the first wiki snapshot.
pub fn first_wiki_nudge() -> (n: Nudge)
    ensures
        n@ == first_wiki(),
{
    Nudge {
        id: "wiki:missing".to_owned(),
        title: "No wiki snapshots yet".to_owned(),
        severity: "warn".to_owned(),
        action: "Run wiki.generate to create the first /runs/wiki/<run_id>/index.html".to_owned(),
        link: Some("/browse".to_owned()),
        command: None,
        run_payload: Some(run_request_json("wiki.generate", None, 300000, 200_000)),
    }
}

/// A step that is always on offer.
pub open spec fn offer(
    id: Seq<char>,
    title: Seq<char>,
    action: Seq<char>,
    link: Seq<char>,
    run: JsonView,
) -> NudgeView {
    NudgeView {
        id,
        title,
        severity: "info"@,
        action,
        link: Some(link),
        command: None,
        run_payload: Some(run),
    }
}

/// The request of a run of the goal `goal_id` with the input `inputs`
/// under a policy with the time `time_ms` and the risk `max_risk`.
pub open spec fn run_with(goal_id: Seq<char>, inputs: JsonView, time_ms: int, max_risk: int) -> JsonView {
    JsonView::Object(
        seq![
            ("goal_id"@, JsonView::Text(goal_id)),
            ("inputs"@, inputs),
            ("policy"@, policy_of(time_ms, max_risk)),
        ],
    )
}

/// The steps that are always on offer: a wiki snapshot, a build of the
/// engine under `root`, a report and a graph of the demo thread.
pub open spec fn evergreen(root: Seq<char>) -> Seq<NudgeView> {
    seq![
        offer(
            "evergreen:wiki_local"@,
            "Generate a local DeepWiki snapshot"@,
            "Generate wiki under /runs/wiki/<run_id>/index.html"@,
            "/browse"@,
            run_request("wiki.generate"@, None, 300000, 200_000),
        ),
        offer(
            "evergreen:green_build"@,
            "Produce a fresh green receipt (fast)"@,
            "Run a real build of the engine repo and write a receipt"@,
            "/browse"@,
            run_with(
                "meta3.build"@,
                JsonView::Object(
                    seq![
                        ("repo_path"@, JsonView::Text(root)),
                        (
                            "build_cmd"@,
                            JsonView::Text(
                                "cargo build --profile release-fast --bin one-engine"@,
                            ),
                        ),
                    ],
                ),
                300000,
                300_000,
            ),
        ),
        offer(
            "evergreen:threads_report"@,
            "Summarize this chat thread (auto)"@,
            "Generate an HTML report from recent chat turns + receipts"@,
            "/terminal"@,
            run_with(
                "threads.report"@,
                JsonView::Object(
                    seq![
                        ("user_id"@, JsonView::Text("demo"@)),
                        ("thread"@, JsonView::Text("auto"@)),
                        ("max_events"@, JsonView::Int(600)),
                        ("content_chars"@, JsonView::Int(240)),
                    ],
                ),
                120000,
                200_000,
            ),
        ),
        offer(
            "evergreen:graphs_thread"@,
            "Generate a thread graph (auto)"@,
            "Generate a recursive, bits-native graph from recent chat turns"@,
            "/terminal"@,
            run_with(
                "graphs.thread"@,
                JsonView::Object(
                    seq![
                        ("user_id"@, JsonView::Text("demo"@)),
                        ("thread"@, JsonView::Text("auto"@)),
                        ("recursive"@, JsonView::Bool(true)),
                        ("depth"@, JsonView::Int(2)),
                        ("max_nodes"@, JsonView::Int(400)),
                        ("include_bits"@, JsonView::Bool(true)),
                    ],
                ),
                120000,
                200_000,
            ),
        ),
    ]
}

/// A step that is always on offer.
fn offer_of(id: &str, title: &str, action: &str, link: &str, run: Json) -> (n: Nudge)
    ensures
        n@ == offer(id@, title@, action@, link@, run@),
{
    Nudge {
        id: id.to_owned(),
        title: title.to_owned(),
        severity: "info".to_owned(),
        action: action.to_owned(),
        link: Some(link.to_owned()),
        command: None,
        run_payload: Some(run),
    }
}

/// The request of a run with the input `inputs`.
fn run_with_json(goal_id: &str, inputs: Vec<(String, Json)>, time_ms: u64, max_risk: i64) -> (r:
    Json)
    ensures
        r@ == run_with(
            goal_id@,
            JsonView::Object(entries_view(inputs@)),
            time_ms as int,
            max_risk as int,
        ),
{
    let ghost fields = entries_view(inputs@);
    let mut e: Vec<(String, Json)> = Vec::new();
    put(&mut e, "goal_id", Json::text(goal_id));
    put(&mut e, "inputs", Json::Object(inputs));
    put(&mut e, "policy", policy_json(time_ms, max_risk));
    assert(entries_view(e@) =~= seq![
        ("goal_id"@, JsonView::Text(goal_id@)),
        ("inputs"@, JsonView::Object(fields)),
        ("policy"@, policy_of(time_ms as int, max_risk as int)),
    ]);
    Json::Object(e)
}

/// The steps that are always on offer.
pub fn evergreen_nudges(root: &str) -> (out: Vec<Nudge>)
    ensures
        nudges_view(out@) == evergreen(root@),
{
    let mut build: Vec<(String, Json)> = Vec::new();
    put(&mut build, "repo_path", Json::text(root));
    put(
        &mut build,
        "build_cmd",
        Json::text("cargo build --profile release-fast --bin one-engine"),
    );
    assert(entries_view(build@) =~= seq![
        ("repo_path"@, JsonView::Text(root@)),
        (
            "build_cmd"@,
            JsonView::Text("cargo build --profile release-fast --bin one-engine"@),
        ),
    ]);
    let mut report: Vec<(String, Json)> = Vec::new();
    put(&mut report, "user_id", Json::text("demo"));
    put(&mut report, "thread", Json::text("auto"));
    put(&mut report, "max_events", Json::Int(600));
    put(&mut report, "content_chars", Json::Int(240));
    assert(entries_view(report@) =~= seq![
        ("user_id"@, JsonView::Text("demo"@)),
        ("thread"@, JsonView::Text("auto"@)),
        ("max_events"@, JsonView::Int(600)),
        ("content_chars"@, JsonView::Int(240)),
    ]);
    let mut graph: Vec<(String, Json)> = Vec::new();
    put(&mut graph, "user_id", Json::text("demo"));
    put(&mut graph, "thread", Json::text("auto"));
    put(&mut graph, "recursive", Json::Bool(true));
    put(&mut graph, "depth", Json::Int(2));
    put(&mut graph, "max_nodes", Json::Int(400));
    put(&mut graph, "include_bits", Json::Bool(true));
    assert(entries_view(graph@) =~= seq![
        ("user_id"@, JsonView::Text("demo"@)),
        ("thread"@, JsonView::Text("auto"@)),
        ("recursive"@, JsonView::Bool(true)),
        ("depth"@, JsonView::Int(2)),
        ("max_nodes"@, JsonView::Int(400)),
        ("include_bits"@, JsonView::Bool(true)),
    ]);
    let mut out: Vec<Nudge> = Vec::new();
    out.push(
        offer_of(
            "evergreen:wiki_local",
            "Generate a local DeepWiki snapshot",
            "Generate wiki under /runs/wiki/<run_id>/index.html",
            "/browse",
            run_request_json("wiki.generate", None, 300000, 200_000),
        ),
    );
    out.push(
        offer_of(
            "evergreen:green_build",
            "Produce a fresh green receipt (fast)",
            "Run a real build of the engine repo and write a receipt",
            "/browse",
            run_with_json("meta3.build", build, 300000, 300_000),
        ),
    );
    out.push(
        offer_of(
            "evergreen:threads_report",
            "Summarize this chat thread (auto)",
            "Generate an HTML report from recent chat turns + receipts",
            "/terminal",
            run_with_json("threads.report", report, 120000, 200_000),
        ),
    );
    out.push(
        offer_of(
            "evergreen:graphs_thread",
            "Generate a thread graph (auto)",
            "Generate a recursive, bits-native graph from recent chat turns",
            "/terminal",
            run_with_json("graphs.thread", graph, 120000, 200_000),
        ),
    );
    assert(nudges_view(out@) =~= evergreen(root@));
    out
}

/// What was found of the staleness report: nothing, something that cannot
/// be read, or its entries.
#[derive(Debug)]
pub enum StalenessReport {
    Missing,
    Unreadable,
    Entries(Vec<StalenessEntry>),
}

/// The nudges for the first `n` entries of a report, in the order of the
/// entries.
pub open spec fn entry_nudges(entries: Seq<StalenessEntry>, n: int) -> Seq<NudgeView>
    decreases n,
{
    if n <= 0 {
        Seq::<NudgeView>::empty()
    } else {
        match nudge_for(entries[n - 1]) {
            Some(v) => entry_nudges(entries, n - 1).push(v),
            None => entry_nudges(entries, n - 1),
        }
    }
}

/// One of the nudges has the identifier `id`.
pub open spec fn has_id(nudges: Seq<NudgeView>, id: Seq<char>) -> bool {
    exists|i: int| 0 <= i < nudges.len() && (#[trigger] nudges[i]).id == id
}

/// The nudges with the first `n` of the offers added, each unless a nudge
/// with its identifier stands there already.
pub open spec fn with_offers(nudges: Seq<NudgeView>, offers: Seq<NudgeView>, n: int) -> Seq<
    NudgeView,
>
    decreases n,
{
    if n <= 0 {
        nudges
    } else {
        let before = with_offers(nudges, offers, n - 1);
        if has_id(before, offers[n - 1].id) {
            before
        } else {
            before.push(offers[n - 1])
        }
    }
}

/// The nudges that the report leads to, before anything else is added.
pub open spec fn report_nudges(report: StalenessReport) -> Seq<NudgeView> {
    match report {
        StalenessReport::Missing => seq![report_nudge(true)],
        StalenessReport::Unreadable => seq![report_nudge(false)],
        StalenessReport::Entries(entries) => entry_nudges(entries@, entries@.len() as int),
    }
}

/// How many entries the report has.
pub open spec fn entry_count(report: StalenessReport) -> nat {
    match report {
        StalenessReport::Entries(entries) => entries@.len(),
        _ => 0,
    }
}

/// All nudges: those that the report leads to, the nudge to make the
/// first wiki snapshot where there is none yet, and the steps that are
/// always on offer.
pub open spec fn all_nudges(report: StalenessReport, has_any_wiki: bool, root: Seq<char>) -> Seq<
    NudgeView,
> {
    with_offers(
        if has_any_wiki {
            report_nudges(report)
        } else {
            report_nudges(report).push(first_wiki())
        },
        evergreen(root),
        evergreen(root).len() as int,
    )
}

/// Whether one of the nudges has the identifier `id`.
fn holds_id(nudges: &Vec<Nudge>, id: &str) -> (r: bool)
    ensures
        r == has_id(nudges_view(nudges@), id@),
{
    let mut i: usize = 0;
    while i < nudges.len()
        invariant
            i <= nudges.len(),
            forall|j: int| 0 <= j < i ==> (#[trigger] nudges_view(nudges@)[j]).id != id@,
        decreases nudges.len() - i,
    {
        if str_eq(nudges[i].id.as_str(), id) {
            assert(nudges_view(nudges@)[i as int].id == id@);
            return true;
        }
        i += 1;
    }
    false
}

/// Adds an offer unless a nudge with its identifier stands there already.
fn add_offer(nudges: &mut Vec<Nudge>, offer: Nudge)
    ensures
        nudges_view(final(nudges)@) == if has_id(nudges_view(old(nudges)@), offer@.id) {
            nudges_view(old(nudges)@)
        } else {
            nudges_view(old(nudges)@).push(offer@)
        },
{
    if !holds_id(nudges, offer.id.as_str()) {
        nudges.push(offer);
        assert(nudges_view(nudges@) =~= nudges_view(old(nudges)@).push(offer@));
    }
}

/// All nudges, and how many entries the staleness report has.
pub fn compute_nudges(report: &StalenessReport, has_any_wiki: bool, root: &str) -> (r: (
    usize,
    Vec<Nudge>,
))
    ensures
        r.0 == entry_count(*report),
        nudges_view(r.1@) == all_nudges(*report, has_any_wiki, root@),
{
    let mut nudges: Vec<Nudge> = Vec::new();
    let mut count: usize = 0;
    match report {
        StalenessReport::Missing => {
            nudges.push(report_nudge_of(true));
            assert(nudges_view(nudges@) =~= seq![report_nudge(true)]);
        },
        StalenessReport::Unreadable => {
            nudges.push(report_nudge_of(false));
            assert(nudges_view(nudges@) =~= seq![report_nudge(false)]);
        },
        StalenessReport::Entries(entries) => {
            count = entries.len();
            let mut i: usize = 0;
            assert(nudges_view(nudges@) =~= Seq::<NudgeView>::empty());
            while i < entries.len()
                invariant
                    i <= entries.len(),
                    nudges_view(nudges@) == entry_nudges(entries@, i as int),
                decreases entries.len() - i,
            {
                let ghost before = nudges_view(nudges@);
                if let Some(n) = nudge_for_feature(&entries[i]) {
                    nudges.push(n);
                    assert(nudges_view(nudges@) =~= before.push(n@));
                }
                i += 1;
            }
        },
    }
    assert(nudges_view(nudges@) == report_nudges(*report));
    if !has_any_wiki {
        let ghost before = nudges_view(nudges@);
        let n = first_wiki_nudge();
        nudges.push(n);
        assert(nudges_view(nudges@) =~= before.push(first_wiki()));
    }
    let ghost start = nudges_view(nudges@);
    let offers = evergreen_nudges(root);
    let ghost all = nudges_view(offers@);
    let mut k: usize = 0;
    while k < offers.len()
        invariant
            k <= offers.len(),
            all == nudges_view(offers@),
            nudges_view(nudges@) == with_offers(start, all, k as int),
        decreases offers.len() - k,
    {
        assert(all[k as int] == offers@[k as int]@);
        add_offer(&mut nudges, copy_nudge(&offers[k]));
        k += 1;
    }
    (count, nudges)
}

/// A copy of a nudge.
pub fn copy_nudge(n: &Nudge) -> (r: Nudge)
    ensures
        r@ == n@,
{
    Nudge {
        id: n.id.clone(),
        title: n.title.clone(),
        severity: n.severity.clone(),
        action: n.action.clone(),
        link: match &n.link {
            Some(s) => Some(s.clone()),
            None => None,
        },
        command: match &n.command {
            Some(s) => Some(s.clone()),
            None => None,
        },
        run_payload: match &n.run_payload {
            Some(p) => Some(p.copy()),
            None => None,
        },
    }
}

/// The item of a nudge on the page: how grave it is, its title, what to
/// do, and below that its link and its command where it has them.
pub open spec fn nudge_item(n: NudgeView) -> Seq<char> {
    "<li style=\"margin:12px 0\">"@ + ("<span class=\"pill "@ + n.severity + "\">"@ + n.severity
        + "</span><strong>"@ + html_escaped(n.title) + "</strong><div class=\"muted\">"@
        + html_escaped(n.action) + "</div>"@) + (match n.link {
        Some(h) => "<div><a href=\""@ + h + "\" target=\"_blank\" rel=\"noreferrer\">"@
            + html_escaped(h) + "</a></div>"@,
        None => Seq::<char>::empty(),
    }) + (match n.command {
        Some(c) => "<div><code>"@ + html_escaped(c) + "</code></div>"@,
        None => Seq::<char>::empty(),
    }) + "</li>"@
}

/// The items of the first `k` nudges.
pub open spec fn nudge_items(nudges: Seq<NudgeView>, k: int) -> Seq<char>
    decreases k,
{
    if k <= 0 {
        Seq::<char>::empty()
    } else {
        nudge_items(nudges, k - 1) + nudge_item(nudges[k - 1])
    }
}

/// The beginning of the page of the nudges.
pub const NUDGES_HEAD: &'static str =
    "<!doctype html><html><head><meta charset=\"utf-8\"><title>One Engine Nudges</title><meta name=\"viewport\" content=\"width=device-width,initial-scale=1\"><style>body{font-family:system-ui,-apple-system,Segoe UI,Roboto,Arial;margin:24px} a{color:#1f6feb;text-decoration:none} a:hover{text-decoration:underline} code{background:#f6f8fa;padding:2px 6px;border-radius:6px} .muted{color:#57606a} .pill{display:inline-block;padding:2px 8px;border-radius:999px;font-size:12px;background:#eef2ff;margin-right:8px} .pill.warn{background:#fff7ed} .pill.error{background:#fee2e2}</style></head><body><h1>Nudges</h1><p class=\"muted\">Next steps computed from <a href=\"/docs/staleness_matrix.json\">staleness_matrix.json</a>. Quick links: <a href=\"/ui/\">UI</a> · <a href=\"/browse\">Browse</a> · <a href=\"/swagger-ui\">Swagger</a></p><ul>";

/// The page of the nudges.
pub open spec fn nudges_page(nudges: Seq<NudgeView>) -> Seq<char> {
    NUDGES_HEAD@ + nudge_items(nudges, nudges.len() as int) + "</ul></body></html>"@
}

/// The item of a nudge on the page.
fn nudge_item_of(n: &Nudge) -> (out: Vec<char>)
    ensures
        out@ == nudge_item(n@),
{
    let mut head = chars_of("<span class=\"pill ");
    push_str(&mut head, n.severity.as_str());
    push_str(&mut head, "\">");
    push_str(&mut head, n.severity.as_str());
    push_str(&mut head, "</span><strong>");
    push_all(&mut head, &escaped(&chars_of(n.title.as_str())));
    push_str(&mut head, "</strong><div class=\"muted\">");
    push_all(&mut head, &escaped(&chars_of(n.action.as_str())));
    push_str(&mut head, "</div>");
    let mut link: Vec<char> = Vec::new();
    if let Some(h) = &n.link {
        link = chars_of("<div><a href=\"");
        push_str(&mut link, h.as_str());
        push_str(&mut link, "\" target=\"_blank\" rel=\"noreferrer\">");
        push_all(&mut link, &escaped(&chars_of(h.as_str())));
        push_str(&mut link, "</a></div>");
    }
    let mut command: Vec<char> = Vec::new();
    if let Some(c) = &n.command {
        command = chars_of("<div><code>");
        push_all(&mut command, &escaped(&chars_of(c.as_str())));
        push_str(&mut command, "</code></div>");
    }
    let mut out = chars_of("<li style=\"margin:12px 0\">");
    push_all(&mut out, &head);
    push_all(&mut out, &link);
    push_all(&mut out, &command);
    push_str(&mut out, "</li>");
    out
}

/// The page of the nudges.
pub fn nudges_html(nudges: &Vec<Nudge>) -> (r: String)
    ensures
        r@ == nudges_page(nudges_view(nudges@)),
{
    let ghost all = nudges_view(nudges@);
    let mut items: Vec<char> = Vec::new();
    let mut i: usize = 0;
    while i < nudges.len()
        invariant
            i <= nudges.len(),
            all == nudges_view(nudges@),
            items@ == nudge_items(all, i as int),
        decreases nudges.len() - i,
    {
        assert(all[i as int] == nudges@[i as int]@);
        push_all(&mut items, &nudge_item_of(&nudges[i]));
        i += 1;
    }
    let mut out = chars_of(NUDGES_HEAD);
    push_all(&mut out, &items);
    push_str(&mut out, "</ul></body></html>");
    text_of(&out)
}

/// A nudge as a structured value.
pub open spec fn nudge_json_view(n: NudgeView) -> JsonView {
    JsonView::Object(
        seq![
            ("id"@, JsonView::Text(n.id)),
            ("title"@, JsonView::Text(n.title)),
            ("severity"@, JsonView::Text(n.severity)),
            ("action"@, JsonView::Text(n.action)),
            ("link"@, opt_text_view(n.link)),
            ("command"@, opt_text_view(n.command)),
            ("run_payload"@, match n.run_payload {
                Some(p) => p,
                None => JsonView::Null,
            }),
        ],
    )
}

/// The nudges as a structured value: the root, the number of entries of
/// the staleness report, and the nudges.
pub open spec fn nudges_json_view(root: Seq<char>, entries: usize, nudges: Seq<NudgeView>) -> JsonView {
    JsonView::Object(
        seq![
            ("meta3_root"@, JsonView::Text(root)),
            ("staleness_entries"@, JsonView::Int(entries as int)),
            (
                "nudges"@,
                JsonView::List(Seq::new(nudges.len(), |i: int| nudge_json_view(nudges[i]))),
            ),
        ],
    )
}

/// A nudge as a structured value.
fn nudge_json(n: &Nudge) -> (r: Json)
    ensures
        r@ == nudge_json_view(n@),
{
    let payload = match &n.run_payload {
        Some(p) => p.copy(),
        None => Json::Null,
    };
    let mut e: Vec<(String, Json)> = Vec::new();
    put(&mut e, "id", Json::text(n.id.as_str()));
    put(&mut e, "title", Json::text(n.title.as_str()));
    put(&mut e, "severity", Json::text(n.severity.as_str()));
    put(&mut e, "action", Json::text(n.action.as_str()));
    put(&mut e, "link", opt_text_json(&n.link));
    put(&mut e, "command", opt_text_json(&n.command));
    put(&mut e, "run_payload", payload);
    assert(entries_view(e@) =~= nudge_json_view(n@)->Object_0);
    Json::Object(e)
}

/// The nudges as a structured value.
pub fn nudges_json(root: &str, entries: usize, nudges: &Vec<Nudge>) -> (r: Json)
    ensures
        r@ == nudges_json_view(root@, entries, nudges_view(nudges@)),
{
    let ghost all = nudges_view(nudges@);
    let mut list: Vec<Json> = Vec::new();
    let mut i: usize = 0;
    while i < nudges.len()
        invariant
            i <= nudges.len(),
            all == nudges_view(nudges@),
            list@.len() == i,
            forall|j: int| 0 <= j < i ==> (#[trigger] list@[j])@ == nudge_json_view(all[j]),
        decreases nudges.len() - i,
    {
        assert(all[i as int] == nudges@[i as int]@);
        list.push(nudge_json(&nudges[i]));
        i += 1;
    }
    assert(items_view(list@) =~= Seq::new(all.len(), |i: int| nudge_json_view(all[i])));
    let mut e: Vec<(String, Json)> = Vec::new();
    put(&mut e, "meta3_root", Json::text(root));
    put(&mut e, "staleness_entries", Json::Nat(entries as u64));
    put(&mut e, "nudges", Json::List(list));
    assert(entries_view(e@) =~= nudges_json_view(root@, entries, all)->Object_0);
    Json::Object(e)
}

} // verus!
