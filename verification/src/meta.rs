//! The meta selection step: what its requests carry, and what is made of
//! what the step leaves behind.

use vstd::prelude::*;
use crate::api::threads::field_text;
use crate::api::users::{refuses, Refused};
use crate::json::{entries_view, Json, JsonView};
use crate::text::concat;

verus! {

/// A request to run one meta selection step on a task.
#[derive(Debug)]
pub struct MetaRunReq {
    pub task: String,
}

/// What one meta selection step yields. `score` is a level, `latency_ms` the
/// time it took.
#[derive(Debug)]
pub struct MetaRunResp {
    pub run_id: String,
    pub task: String,
    pub plan: String,
    pub config: Json,
    pub artifact: String,
    pub telemetry: Json,
    pub score: i64,
    pub latency_ms: u64,
}

/// The state of the meta selection.
#[derive(Debug)]
pub struct MetaState {
    pub beta: Json,
    pub gamma: Json,
    pub beta_ids: Vec<String>,
    pub gamma_ids: Vec<String>,
    pub rubric: Option<String>,
    pub ts: Option<String>,
}

/// The value of the field `key`, or an empty object where there is none.
pub open spec fn object_at(v: JsonView, key: Seq<char>) -> JsonView {
    match v.get(key) {
        Some(x) => x,
        None => JsonView::Object(Seq::empty()),
    }
}

/// The level in the field `key`, or zero where there is none.
pub open spec fn level_or_zero(v: JsonView, key: Seq<char>) -> i64 {
    match v.level_at(key) {
        Some(x) => x,
        None => 0,
    }
}

/// `r` is what the step yields according to its output `v`: texts that the
/// output lacks are empty, values that it lacks are empty objects, and a
/// score that it lacks is zero.
pub open spec fn yields(r: MetaRunResp, v: JsonView, latency_ms: u64) -> bool {
    &&& r.run_id@ == field_text(v, "run_id"@)
    &&& r.task@ == field_text(v, "task"@)
    &&& r.plan@ == field_text(v, "plan"@)
    &&& r.config@ == object_at(v, "config"@)
    &&& r.artifact@ == field_text(v, "artifact"@)
    &&& r.telemetry@ == object_at(v, "telemetry"@)
    &&& r.score == level_or_zero(v, "score"@)
    &&& r.latency_ms == latency_ms
}

/// The text of the field `key`, empty where there is none.
fn text_field(v: &Json, key: &str) -> (r: String)
    ensures
        r@ == field_text(v@, key@),
{
    match v.text_at(key) {
        Some(s) => s,
        None => {
            let e = String::new();
            assert(e@ =~= Seq::<char>::empty());
            e
        },
    }
}

/// The value of the field `key`, or an empty object.
fn object_field(v: &Json, key: &str) -> (r: Json)
    ensures
        r@ == object_at(v@, key@),
{
    match v.get(key) {
        Some(x) => x.copy(),
        None => {
            let none: Vec<(String, Json)> = Vec::new();
            assert(entries_view(none@) =~= Seq::<(Seq<char>, JsonView)>::empty());
            Json::Object(none)
        },
    }
}

/// What the step yields according to its output, given the time that the
/// output says it took.
pub fn meta_resp(v: &Json, latency_ms: u64) -> (r: MetaRunResp)
    ensures
        yields(r, v@, latency_ms),
{
    MetaRunResp {
        run_id: text_field(v, "run_id"),
        task: text_field(v, "task"),
        plan: text_field(v, "plan"),
        config: object_field(v, "config"),
        artifact: text_field(v, "artifact"),
        telemetry: object_field(v, "telemetry"),
        score: match v.level_at("score") {
            Some(x) => x,
            None => 0,
        },
        latency_ms,
    }
}

/// How the script of the step ended.
#[derive(Debug)]
pub enum MetaOutcome {
    /// The script could not be started, for this reason.
    NotStarted(String),
    /// The script failed and left this on its error output.
    Failed(String),
    /// The script succeeded, and its output is no structured value, for
    /// this reason.
    Unreadable(String),
    /// The script succeeded with this output, after so many milliseconds
    /// by its own account.
    Output(Json, u64),
}

/// What a step that did not yield is refused with.
pub open spec fn meta_refusal(outcome: MetaOutcome) -> Option<(u16, Seq<char>)> {
    match outcome {
        MetaOutcome::NotStarted(e) => Some((500, "spawn error: "@ + e@)),
        MetaOutcome::Failed(stderr) => Some((400, "meta failed: "@ + stderr@)),
        MetaOutcome::Unreadable(e) => Some((400, "meta invalid json: "@ + e@)),
        MetaOutcome::Output(_, _) => None,
    }
}

/// The answer to a request for one step, given how the script ended.
pub fn meta_answer(outcome: MetaOutcome) -> (r: Result<MetaRunResp, Refused>)
    ensures
        match r {
            Ok(resp) => outcome matches MetaOutcome::Output(v, ms) && yields(resp, v@, ms),
            Err(e) => meta_refusal(outcome) == Some((e.status, e.message@)),
        },
{
    match outcome {
        MetaOutcome::NotStarted(e) => Err(
            Refused { status: 500, message: concat("spawn error: ", e.as_str()) },
        ),
        MetaOutcome::Failed(stderr) => Err(
            Refused { status: 400, message: concat("meta failed: ", stderr.as_str()) },
        ),
        MetaOutcome::Unreadable(e) => Err(
            Refused { status: 400, message: concat("meta invalid json: ", e.as_str()) },
        ),
        MetaOutcome::Output(v, ms) => Ok(meta_resp(&v, ms)),
    }
}

/// What a request for the state of the selection is refused with: there
/// is none (`missing`), or it cannot be read, for the reason `error`.
pub fn meta_state_refusal(missing: bool, error: &str) -> (r: Refused)
    ensures
        if missing {
            refuses(r, 404, "no meta state"@)
        } else {
            refuses(r, 500, "invalid meta state: "@ + error@)
        },
{
    if missing {
        Refused { status: 404, message: "no meta state".to_owned() }
    } else {
        Refused { status: 500, message: concat("invalid meta state: ", error) }
    }
}

} // verus!
