//! One run of the N* loop: what is made of the answer of the model, which
//! operations the answer asks for and what is reported of them, when a
//! world is grown, and what is recorded.

use vstd::prelude::*;
use crate::api::threads::field_text;
use crate::json::{entries_view, items_view, put, text_or, Json, JsonView};
use crate::level::{decimal, decimal_of};
use crate::nstar::{
    execute_meta6_local_kernel, local_ops, local_reply, ContextMatch, NStarRunResp, ResolveResp,
};
use crate::text::{
    begins_with, chars_of, concat, concat3, contains, contains_str, contains_text, join,
    join_texts, lowercase, opt_view, prefix, prefix_of, push_all, push_str, starts_with, str_eq,
    text_of, views,
};

verus! {

/// The policy of a run of the loop.
pub open spec fn loop_policy() -> JsonView {
    JsonView::Object(
        seq![("branches"@, JsonView::Int(1)), ("explore_budget"@, JsonView::Real(150_000))],
    )
}

/// The policy of a run of the loop.
pub fn loop_policy_json() -> (r: Json)
    ensures
        r@ == loop_policy(),
{
    let mut e: Vec<(String, Json)> = Vec::new();
    put(&mut e, "branches", Json::Int(1));
    put(&mut e, "explore_budget", Json::Real(150_000));
    assert(entries_view(e@) =~= loop_policy()->Object_0);
    Json::Object(e)
}

/// The identifier of a run of the loop: the first eight characters of a
/// fresh identifier.
pub fn short_run_id(fresh: &str) -> (r: String)
    ensures
        r@ == prefix(fresh@, 8),
{
    text_of(&prefix_of(&chars_of(fresh), 8))
}

/// The reply that the answer of the model gives: the reply of the
/// evidence of its manifest, where it has a manifest with one; else its
/// own reply; else a note that it is at work.
pub open spec fn reply_of(val: JsonView) -> Seq<char> {
    let own = text_or(val, "reply"@, "Processing..."@);
    match val.get("manifest"@) {
        Some(m) => match m.get("evidence"@) {
            Some(e) => text_or(e, "reply"@, own),
            None => own,
        },
        None => own,
    }
}

/// The intent that the answer of the model names, `unknown` where it names
/// none.
pub open spec fn intent_of(val: JsonView) -> Seq<char> {
    text_or(val, "intent"@, "unknown"@)
}

/// What the answer of the model says: its reply, its intent, and the
/// address of what it made, where it made something.
pub fn answer_parts(val: &Json) -> (r: (String, String, Option<String>))
    ensures
        r.0@ == reply_of(val@),
        r.1@ == intent_of(val@),
        opt_view(r.2) == val@.text_at("impact_url"@),
{
    let own = val.text_or("reply", "Processing...");
    let reply = match val.get("manifest") {
        Some(m) => match m.get("evidence") {
            Some(e) => e.text_or("reply", own.as_str()),
            None => own,
        },
        None => own,
    };
    (reply, val.text_or("intent", "unknown"), val.text_at("impact_url"))
}

/// An operation that the answer of the model asks for.
#[derive(Debug)]
pub enum Op {
    /// Write the content to the file at the path.
    Write { path: String, content: String },
    /// A write outside the directories that may be written to.
    BlockedWrite { path: String },
    /// Run the command with the arguments.
    Exec { cmd: String, args: Vec<String> },
    /// A request to run no command.
    EmptyCmd,
    /// An operation of a kind that is not known.
    Unknown { kind: String },
}

/// What an operation holds.
pub enum OpView {
    Write { path: Seq<char>, content: Seq<char> },
    BlockedWrite { path: Seq<char> },
    Exec { cmd: Seq<char>, args: Seq<Seq<char>> },
    EmptyCmd,
    Unknown { kind: Seq<char> },
}

impl View for Op {
    type V = OpView;

    open spec fn view(&self) -> OpView {
        match self {
            Op::Write { path, content } => OpView::Write { path: path@, content: content@ },
            Op::BlockedWrite { path } => OpView::BlockedWrite { path: path@ },
            Op::Exec { cmd, args } => OpView::Exec { cmd: cmd@, args: views(args@) },
            Op::EmptyCmd => OpView::EmptyCmd,
            Op::Unknown { kind } => OpView::Unknown { kind: kind@ },
        }
    }
}

/// A path may be written to: it lies under `src/`, `ui/`, `scripts/` or
/// `docs/`.
pub open spec fn writable(path: Seq<char>) -> bool {
    starts_with(path, "src/"@) || starts_with(path, "ui/"@) || starts_with(path, "scripts/"@)
        || starts_with(path, "docs/"@)
}

/// The arguments of a command: the texts of a list, an empty text for
/// what is no text.
pub open spec fn args_of(v: JsonView) -> Seq<Seq<char>> {
    match v.get("args"@) {
        Some(a) => match a.as_list() {
            Some(items) => Seq::new(
                items.len(),
                |i: int|
                    match items[i].as_text() {
                        Some(s) => s,
                        None => Seq::<char>::empty(),
                    },
            ),
            None => Seq::<Seq<char>>::empty(),
        },
        None => Seq::<Seq<char>>::empty(),
    }
}

/// The operation that one entry of the answer asks for; none where the
/// entry names no kind of operation.
pub open spec fn op_of(v: JsonView) -> Option<OpView> {
    match v.text_at("op"@) {
        None => None,
        Some(kind) => Some(
            if kind == "write"@ {
                if writable(field_text(v, "path"@)) {
                    OpView::Write {
                        path: field_text(v, "path"@),
                        content: field_text(v, "content"@),
                    }
                } else {
                    OpView::BlockedWrite { path: field_text(v, "path"@) }
                }
            } else if kind == "exec"@ {
                if field_text(v, "cmd"@).len() == 0 {
                    OpView::EmptyCmd
                } else {
                    OpView::Exec { cmd: field_text(v, "cmd"@), args: args_of(v) }
                }
            } else {
                OpView::Unknown { kind }
            },
        ),
    }
}

/// The operations that the first `n` entries ask for, in order.
pub open spec fn ops_among(entries: Seq<JsonView>, n: int) -> Seq<OpView>
    decreases n,
{
    if n <= 0 {
        Seq::<OpView>::empty()
    } else {
        match op_of(entries[n - 1]) {
            Some(op) => ops_among(entries, n - 1).push(op),
            None => ops_among(entries, n - 1),
        }
    }
}

/// The operations that the answer of the model asks for.
pub open spec fn asked_ops(val: JsonView) -> Seq<OpView> {
    match val.get("ops"@) {
        Some(o) => match o.as_list() {
            Some(entries) => ops_among(entries, entries.len() as int),
            None => Seq::<OpView>::empty(),
        },
        None => Seq::<OpView>::empty(),
    }
}

/// What operations hold.
pub open spec fn ops_view(ops: Seq<Op>) -> Seq<OpView> {
    Seq::new(ops.len(), |i: int| ops[i]@)
}

/// The text of the field `key`, empty where there is none.
fn text_field(v: &Json, key: &str) -> (r: String)
    ensures
        r@ == field_text(v@, key@),
{
    match v.text_at(key) {
        Some(s) => s,
        None => {
            let e = String::new();
            assert(e@ =~= Seq::<char>::empty());
            e
        },
    }
}

/// The arguments of a command.
fn args_in(v: &Json) -> (r: Vec<String>)
    ensures
        views(r@) == args_of(v@),
{
    let mut out: Vec<String> = Vec::new();
    assert(views(out@) =~= Seq::<Seq<char>>::empty());
    if let Some(a) = v.get("args") {
        if let Some(items) = a.as_array() {
            let ghost all = items_view(items@);
            let mut i: usize = 0;
            while i < items.len()
                invariant
                    i <= items.len(),
                    all == items_view(items@),
                    out@.len() == i,
                    forall|j: int|
                        0 <= j < i ==> (#[trigger] out@[j])@ == match all[j].as_text() {
                            Some(s) => s,
                            None => Seq::<char>::empty(),
                        },
                decreases items.len() - i,
            {
                assert(all[i as int] == items@[i as int]@);
                let s = match items[i].as_str() {
                    Some(s) => s.to_owned(),
                    None => {
                        let e = String::new();
                        assert(e@ =~= Seq::<char>::empty());
                        e
                    },
                };
                out.push(s);
                i += 1;
            }
            assert(views(out@) =~= args_of(v@));
        }
    }
    out
}

/// The operation that one entry of the answer asks for.
pub fn op_in(v: &Json) -> (r: Option<Op>)
    ensures
        match r {
            Some(op) => op_of(v@) == Some(op@),
            None => op_of(v@) is None,
        },
{
    let kind = match v.text_at("op") {
        Some(k) => k,
        None => {
            return None;
        },
    };
    if str_eq(kind.as_str(), "write") {
        let path = text_field(v, "path");
        let p = chars_of(path.as_str());
        if begins_with(&p, "src/") || begins_with(&p, "ui/") || begins_with(&p, "scripts/")
            || begins_with(&p, "docs/") {
            Some(Op::Write { path, content: text_field(v, "content") })
        } else {
            Some(Op::BlockedWrite { path })
        }
    } else if str_eq(kind.as_str(), "exec") {
        let cmd = text_field(v, "cmd");
        if cmd.as_str().unicode_len() == 0 {
            Some(Op::EmptyCmd)
        } else {
            Some(Op::Exec { cmd, args: args_in(v) })
        }
    } else {
        Some(Op::Unknown { kind })
    }
}

/// The operations that the answer of the model asks for.
pub fn plan_ops(val: &Json) -> (ops: Vec<Op>)
    ensures
        ops_view(ops@) == asked_ops(val@),
{
    let mut ops: Vec<Op> = Vec::new();
    assert(ops_view(ops@) =~= Seq::<OpView>::empty());
    if let Some(o) = val.get("ops") {
        if let Some(entries) = o.as_array() {
            let ghost all = items_view(entries@);
            let mut i: usize = 0;
            while i < entries.len()
                invariant
                    i <= entries.len(),
                    all == items_view(entries@),
                    ops_view(ops@) == ops_among(all, i as int),
                decreases entries.len() - i,
            {
                assert(all[i as int] == entries@[i as int]@);
                let ghost before = ops_view(ops@);
                if let Some(op) = op_in(&entries[i]) {
                    ops.push(op);
                    assert(ops_view(ops@) =~= before.push(op@));
                }
                i += 1;
            }
        }
    }
    ops
}

/// How an operation went.
#[derive(Debug)]
pub enum OpOutcome {
    /// The file was written.
    Written,
    /// The file could not be written.
    NotWritten,
    /// The command ran and left so many bytes on its output.
    Ran(usize),
    /// The command could not be run, for this reason.
    NotRun(String),
    /// Nothing was done.
    Skipped,
}

/// What is reported of an operation, given how it went.
pub open spec fn op_report(op: OpView, outcome: OpOutcome, content_bytes: usize) -> Seq<char> {
    match op {
        OpView::Write { path, content } => match outcome {
            OpOutcome::Written => "Wrote "@ + decimal(content_bytes as nat) + " bytes to "@ + path,
            _ => "Failed to write "@ + path,
        },
        OpView::BlockedWrite { path } => "Blocked unsafe write to "@ + path,
        OpView::Exec { cmd, args } => match outcome {
            OpOutcome::Ran(len) => "Exec OK (len: "@ + decimal(len as nat) + ")"@,
            OpOutcome::NotRun(e) => "Exec Failed: "@ + e@,
            _ => "Exec Failed: "@,
        },
        OpView::EmptyCmd => "Empty cmd"@,
        OpView::Unknown { kind } => "Unknown op: "@ + kind,
    }
}

/// The number of bytes that the content of a write takes, zero for any
/// other operation.
pub open spec fn content_bytes(op: Op) -> usize {
    match op {
        Op::Write { path, content } => crate::text::byte_len(content@),
        _ => 0,
    }
}

/// What is reported of an operation, given how it went.
pub fn report_op(op: &Op, outcome: &OpOutcome) -> (r: String)
    ensures
        r@ == op_report(op@, *outcome, content_bytes(*op)),
{
    match op {
        Op::Write { path, content } => match outcome {
            OpOutcome::Written => {
                let mut out = chars_of("Wrote ");
                push_all(&mut out, &decimal_of(content.as_str().len() as u64));
                push_str(&mut out, " bytes to ");
                push_str(&mut out, path.as_str());
                text_of(&out)
            },
            _ => concat("Failed to write ", path.as_str()),
        },
        Op::BlockedWrite { path } => concat("Blocked unsafe write to ", path.as_str()),
        Op::Exec { cmd: _, args: _ } => match outcome {
            OpOutcome::Ran(len) => {
                let mut out = chars_of("Exec OK (len: ");
                push_all(&mut out, &decimal_of(*len as u64));
                push_str(&mut out, ")");
                text_of(&out)
            },
            OpOutcome::NotRun(e) => concat("Exec Failed: ", e.as_str()),
            _ => "Exec Failed: ".to_owned(),
        },
        Op::EmptyCmd => "Empty cmd".to_owned(),
        Op::Unknown { kind } => concat("Unknown op: ", kind.as_str()),
    }
}

/// The reports of the operations as one text: `No ops` where there are
/// none.
pub fn ops_summary(log: &Vec<String>) -> (r: String)
    ensures
        r@ == if log@.len() == 0 {
            "No ops"@
        } else {
            join(views(log@), "; "@)
        },
{
    if log.len() == 0 {
        "No ops".to_owned()
    } else {
        join_texts(log, "; ")
    }
}

/// A world is grown after the answer: nothing was made yet, and the reply
/// or the intent asks for one.
pub open spec fn grows_world(reply: Seq<char>, intent: Seq<char>, made: bool) -> bool {
    !made && (contains_text(reply, "DIVINE_CODE"@) || intent == "divine"@ || intent
        == "generate_graph"@)
}

/// Whether a world is grown after the answer.
pub fn wants_world(reply: &str, intent: &str, impact_url: &Option<String>) -> (r: bool)
    ensures
        r == grows_world(reply@, intent@, *impact_url is Some),
{
    impact_url.is_none() && (contains_str(&chars_of(reply), "DIVINE_CODE") || str_eq(
        intent,
        "divine",
    ) || str_eq(intent, "generate_graph"))
}

/// What is recorded of a run of the loop. `latency` is the time that the
/// run took, in millionths of a second.
pub open spec fn record_view(
    run_id: Seq<char>,
    ts: Seq<char>,
    task: Seq<char>,
    intent: Seq<char>,
    best: Seq<char>,
    latency: i64,
    impact_url: Option<Seq<char>>,
) -> JsonView {
    JsonView::Object(
        seq![
            ("run_id"@, JsonView::Text(run_id)),
            ("ts"@, JsonView::Text(ts)),
            ("task"@, JsonView::Text(task)),
            ("ok"@, JsonView::Bool(true)),
            ("note"@, JsonView::Text("Intent: "@ + intent)),
            ("policy"@, loop_policy()),
            ("best"@, JsonView::Text(best)),
            ("cost"@, JsonView::Real(1000)),
            ("latency_s"@, JsonView::Real(latency as int)),
            ("mode"@, JsonView::Text("hybrid_omni_v1"@)),
            ("impact_url"@, crate::api::opt_text_view(impact_url)),
        ],
    )
}

/// What is recorded of a run of the loop.
pub fn run_record(
    run_id: &str,
    ts: &str,
    task: &str,
    intent: &str,
    best: &str,
    latency: i64,
    impact_url: &Option<String>,
) -> (r: Json)
    ensures
        r@ == record_view(run_id@, ts@, task@, intent@, best@, latency, opt_view(*impact_url)),
{
    let mut e: Vec<(String, Json)> = Vec::new();
    put(&mut e, "run_id", Json::text(run_id));
    put(&mut e, "ts", Json::text(ts));
    put(&mut e, "task", Json::text(task));
    put(&mut e, "ok", Json::Bool(true));
    put(&mut e, "note", Json::Text(concat("Intent: ", intent)));
    put(&mut e, "policy", loop_policy_json());
    put(&mut e, "best", Json::text(best));
    put(&mut e, "cost", Json::Real(1000));
    put(&mut e, "latency_s", Json::Real(latency));
    put(&mut e, "mode", Json::text("hybrid_omni_v1"));
    put(&mut e, "impact_url", crate::api::opt_text_json(impact_url));
    assert(entries_view(e@) =~= record_view(
        run_id@,
        ts@,
        task@,
        intent@,
        best@,
        latency,
        opt_view(*impact_url),
    )->Object_0);
    Json::Object(e)
}

/// What a run of the loop yields: the reply, the policy, and that nothing
/// was adapted.
pub fn loop_resp(best: String, impact_url: &Option<String>) -> (r: NStarRunResp)
    ensures
        r.ok,
        r.result == best,
        r.policy@ == loop_policy(),
        r.adapt@ == JsonView::Object(
            seq![
                ("changed"@, JsonView::Bool(false)),
                ("impact_url"@, crate::api::opt_text_view(opt_view(*impact_url))),
            ],
        ),
{
    let mut e: Vec<(String, Json)> = Vec::new();
    put(&mut e, "changed", Json::Bool(false));
    put(&mut e, "impact_url", crate::api::opt_text_json(impact_url));
    assert(entries_view(e@) =~= seq![
        ("changed"@, JsonView::Bool(false)),
        ("impact_url"@, crate::api::opt_text_view(opt_view(*impact_url))),
    ]);
    NStarRunResp { ok: true, result: best, policy: loop_policy_json(), adapt: Json::Object(e) }
}

/// The task of a record of the trace: its field `task`, where it has the
/// field, else its field `text`; empty where what is there is no text.
pub open spec fn recorded_task(v: JsonView) -> Seq<char> {
    let shown = match v.get("task"@) {
        Some(t) => Some(t),
        None => v.get("text"@),
    };
    match shown {
        Some(t) => match t.as_text() {
            Some(s) => s,
            None => Seq::<char>::empty(),
        },
        None => Seq::<char>::empty(),
    }
}

/// The run of a record of the trace: its field `run_id`, where it has the
/// field, else its field `ts`; `?` where what is there is no text.
pub open spec fn recorded_run(v: JsonView) -> Seq<char> {
    let shown = match v.get("run_id"@) {
        Some(t) => Some(t),
        None => v.get("ts"@),
    };
    match shown {
        Some(t) => match t.as_text() {
            Some(s) => s,
            None => "?"@,
        },
        None => "?"@,
    }
}

/// A record matches a query: it has a task, and the task holds the query,
/// both read in lowercase.
pub open spec fn record_matches(v: JsonView, query: Seq<char>) -> bool {
    recorded_task(v).len() > 0 && contains_text(lowercase(recorded_task(v)), lowercase(query))
}

/// The latest five of the first `n` records that match a query, the
/// latest first: of each the first two hundred characters of its task,
/// and its run.
pub open spec fn matches_among(records: Seq<JsonView>, query: Seq<char>, n: int) -> Seq<
    (Seq<char>, Seq<char>),
>
    decreases n,
{
    if n <= 0 {
        Seq::<(Seq<char>, Seq<char>)>::empty()
    } else if record_matches(records[n - 1], query) {
        let before = matches_among(records, query, n - 1);
        seq![(prefix(recorded_task(records[n - 1]), 200), recorded_run(records[n - 1]))] + (
        if before.len() >= 5 {
            before.take(4)
        } else {
            before
        })
    } else {
        matches_among(records, query, n - 1)
    }
}

/// What matches hold.
pub open spec fn matches_view(matches: Seq<ContextMatch>) -> Seq<(Seq<char>, Seq<char>)> {
    Seq::new(matches.len(), |i: int| (matches[i].task@, matches[i].run_id@))
}

/// The task of a record of the trace.
fn recorded_task_of(v: &Json) -> (r: String)
    ensures
        r@ == recorded_task(v@),
{
    let shown = match v.get("task") {
        Some(t) => Some(t),
        None => v.get("text"),
    };
    match shown {
        Some(t) => match t.as_str() {
            Some(s) => s.to_owned(),
            None => {
                let e = String::new();
                assert(e@ =~= Seq::<char>::empty());
                e
            },
        },
        None => {
            let e = String::new();
            assert(e@ =~= Seq::<char>::empty());
            e
        },
    }
}

/// The run of a record of the trace.
fn recorded_run_of(v: &Json) -> (r: String)
    ensures
        r@ == recorded_run(v@),
{
    let shown = match v.get("run_id") {
        Some(t) => Some(t),
        None => v.get("ts"),
    };
    match shown {
        Some(t) => match t.as_str() {
            Some(s) => s.to_owned(),
            None => "?".to_owned(),
        },
        None => "?".to_owned(),
    }
}

/// The earlier runs that match a query: the latest five, the latest
/// first, and how many there are.
pub fn resolve_context(records: &Vec<Json>, query: &str) -> (r: ResolveResp)
    ensures
        matches_view(r.matches@) == matches_among(
            items_view(records@),
            query@,
            records@.len() as int,
        ),
        r.suggestion@ == "Found "@ + decimal(r.matches@.len() as nat)
            + " historical nodes relevant to '"@ + query@ + "'."@,
{
    let ghost all = items_view(records@);
    let needle = chars_of(query.to_lowercase().as_str());
    let mut matches: Vec<ContextMatch> = Vec::new();
    let mut i: usize = 0;
    assert(matches_view(matches@) =~= Seq::<(Seq<char>, Seq<char>)>::empty());
    while i < records.len()
        invariant
            i <= records.len(),
            all == items_view(records@),
            needle@ == lowercase(query@),
            matches@.len() <= 5,
            matches_view(matches@) == matches_among(all, query@, i as int),
        decreases records.len() - i,
    {
        assert(all[i as int] == records@[i as int]@);
        let ghost before = matches_view(matches@);
        let task = recorded_task_of(&records[i]);
        if task.as_str().unicode_len() > 0 && contains(
            &chars_of(task.as_str().to_lowercase().as_str()),
            &needle,
        ) {
            let hit = ContextMatch {
                task: text_of(&prefix_of(&chars_of(task.as_str()), 200)),
                run_id: recorded_run_of(&records[i]),
            };
            if matches.len() >= 5 {
                matches.truncate(4);
                assert(matches_view(matches@) =~= before.take(4));
            }
            let ghost kept = matches_view(matches@);
            matches.insert(0, hit);
            assert(matches_view(matches@) =~= seq![(hit.task@, hit.run_id@)] + kept);
        }
        i += 1;
    }
    let mut suggestion = chars_of("Found ");
    push_all(&mut suggestion, &decimal_of(matches.len() as u64));
    push_str(&mut suggestion, " historical nodes relevant to '");
    push_str(&mut suggestion, query);
    push_str(&mut suggestion, "'.");
    ResolveResp { matches, suggestion: text_of(&suggestion) }
}

/// What the loop answers where the model cannot be reached: the local
/// kernel handles the task.
pub fn local_answer(task: &str) -> (r: (String, String, String))
    ensures
        r.0@ == local_reply(task@),
        r.1@ == "meta6_kernel"@,
        r.2@ == local_ops(task@),
{
    let (reply, ops) = execute_meta6_local_kernel(task);
    (reply, "meta6_kernel".to_owned(), ops)
}

/// The beginning of the page of the dashboard.
pub const HUD_HEAD: &'static str =
    "<!doctype html>\n            <html>\n            <head>\n                <title>NStar HUD</title>\n                <style>\n                    body { font-family: monospace; background-color: #0b0c10; color: #c5c6c7; padding: 20px; }\n                    h1 { color: #66fcf1; }\n                    pre { background-color: #1f2833; padding: 15px; border-radius: 5px; overflow-x: auto; }\n                </style>\n            </head>\n            <body>\n                <h1>NStar HUD (Recent Receipts)</h1>\n                <pre>";

/// The end of the page of the dashboard.
pub const HUD_FOOT: &'static str =
    "</pre>\n            </body>\n            </html>";

/// The records among the last `k` lines of the trace, the latest first; a
/// line that stands for no structured value is left out.
pub open spec fn records_among(lines: Seq<Option<JsonView>>, k: int) -> Seq<JsonView>
    decreases k,
{
    if k <= 0 || k > lines.len() {
        Seq::<JsonView>::empty()
    } else {
        match lines[lines.len() - k] {
            Some(v) => records_among(lines, k - 1).push(v),
            None => records_among(lines, k - 1),
        }
    }
}

/// What the lines of a trace stand for.
pub open spec fn parsed_view(lines: Seq<Option<Json>>) -> Seq<Option<JsonView>> {
    Seq::new(
        lines.len(),
        |i: int|
            match lines[i] {
                Some(v) => Some(v@),
                None => None,
            },
    )
}

/// The records that the dashboard shows: those among the last hundred
/// lines of the trace, the latest first.
pub fn hud_records(lines: &Vec<Option<Json>>) -> (out: Vec<Json>)
    ensures
        items_view(out@) == records_among(
            parsed_view(lines@),
            if lines@.len() < 100 {
                lines@.len() as int
            } else {
                100
            },
        ),
{
    let ghost all = parsed_view(lines@);
    let n = lines.len();
    let most: usize = if n < 100 {
        n
    } else {
        100
    };
    let mut out: Vec<Json> = Vec::new();
    let mut k: usize = 0;
    assert(items_view(out@) =~= Seq::<JsonView>::empty());
    while k < most
        invariant
            k <= most <= n,
            n == lines@.len(),
            all == parsed_view(lines@),
            items_view(out@) == records_among(all, k as int),
        decreases most - k,
    {
        let ghost before = items_view(out@);
        assert(all[n - (k + 1)] == match lines@[n - (k + 1)] {
            Some(v) => Some(v@),
            None => None,
        });
        if let Some(v) = &lines[n - 1 - k] {
            out.push(v.copy());
            assert(items_view(out@) =~= before.push(v@));
        }
        k += 1;
    }
    out
}

/// The page of the dashboard around the records, written out.
pub fn hud_page(records: &str) -> (r: String)
    ensures
        r@ == HUD_HEAD@ + records@ + HUD_FOOT@,
{
    concat3(HUD_HEAD, records, HUD_FOOT)
}

/// Whether the dashboard is asked for as a structured value.
pub fn hud_as_json(format: &Option<String>) -> (r: bool)
    ensures
        r == (opt_view(*format) == Some("json"@)),
{
    match format {
        Some(f) => str_eq(f.as_str(), "json"),
        None => false,
    }
}

} // verus!
