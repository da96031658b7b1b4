//! The requests of users: who is admitted, what a request is refused
//! with, and what is made of a run, of a chat and of an attached run.

use vstd::prelude::*;
use crate::engine::types::{Manifest, Policy};
use crate::json::{entries_view, items_view, put, Json, JsonView};
use crate::text::{chars_of, join, opt_view, str_eq, text_of, trim, trimmed};
use super::history::{authenticate_user, holder, Access};
use super::requests::{AppState, AttachRunResp, ChatResp, UserRunResp, UserStatus};
use super::threads::{
    attached_goal, attachment_lines, field_text, summarize_receipt_for_context,
};
use super::{
    effective_policy, is_safe_segment, resolve_policy, safe_segment, RunResp, UserContext,
};

verus! {

/// What a request is refused with: a status of HTTP and a message.
#[derive(Debug)]
pub struct Refused {
    pub status: u16,
    pub message: String,
}

/// `r` refuses with this status and this message.
pub open spec fn refuses(r: Refused, status: u16, message: Seq<char>) -> bool {
    r.status == status && r.message@ == message
}

/// A request is refused with this status and this message.
fn refuse(status: u16, message: &str) -> (r: Refused)
    ensures
        refuses(r, status, message@),
{
    Refused { status, message: message.to_owned() }
}

/// The key of a request belongs to the user `user_id`: its first holder is
/// that user.
pub open spec fn key_of_user(users: Seq<UserContext>, api_key: Seq<char>, user_id: Seq<char>) -> bool {
    holder(users, api_key) < users.len() && users[holder(users, api_key)].user_id@ == user_id
}

/// The caller of a request for the user `user_id`, given the key that the
/// request carries; a request without a key is refused with `missing`, one
/// whose key does not belong to that user with `invalid`.
pub fn caller_of<'a>(
    state: &'a AppState,
    api_key: Option<&str>,
    user_id: &str,
    missing: &str,
    invalid: &str,
) -> (r: Result<&'a UserContext, Refused>)
    ensures
        match r {
            Ok(u) => api_key matches Some(k) && key_of_user(state.users@, k@, user_id@) && *u
                == state.users@[holder(state.users@, k@)],
            Err(e) => match api_key {
                None => refuses(e, 401, missing@),
                Some(k) => !key_of_user(state.users@, k@, user_id@) && refuses(
                    e,
                    401,
                    invalid@,
                ),
            },
        },
{
    let key = match api_key {
        Some(k) => k,
        None => {
            return Err(refuse(401, missing));
        },
    };
    match authenticate_user(state, key) {
        Some(u) => if str_eq(u.user_id.as_str(), user_id) {
            Ok(u)
        } else {
            Err(refuse(401, invalid))
        },
        None => Err(refuse(401, invalid)),
    }
}

/// What a request for the recorded history is refused with, where it is:
/// it finds nothing where the history is switched off, and is not
/// authorized without the key of a known caller.
pub fn access_refusal(access: Access) -> (r: Option<Refused>)
    ensures
        match access {
            Access::Disabled => r matches Some(e) && refuses(e, 404, "not found"@),
            Access::MissingKey => r matches Some(e) && refuses(e, 401, "Missing x-api-key"@),
            Access::InvalidKey => r matches Some(e) && refuses(e, 401, "Invalid x-api-key"@),
            Access::Granted => r is None,
        },
{
    match access {
        Access::Disabled => Some(refuse(404, "not found")),
        Access::MissingKey => Some(refuse(401, "Missing x-api-key")),
        Access::InvalidKey => Some(refuse(401, "Invalid x-api-key")),
        Access::Granted => None,
    }
}

/// What a user may still do.
pub fn user_status(user: &UserContext) -> (r: UserStatus)
    ensures
        r.user_id@ == user.user_id@,
        r.quota_remaining == user.quota_remaining,
        r.has_premium_policy == (user.policy_overrides is Some),
{
    UserStatus {
        user_id: user.user_id.clone(),
        quota_remaining: user.quota_remaining,
        has_premium_policy: user.policy_overrides.is_some(),
    }
}

/// The goal of a user as the kernel runs it: under the name of the user.
pub open spec fn user_goal(user_id: Seq<char>, goal_id: Seq<char>) -> Seq<char> {
    "user:"@ + user_id + "."@ + goal_id
}

/// A run that a user may start: the goal as the kernel runs it, and the
/// policy that holds for it.
#[derive(Debug)]
pub struct UserRun {
    pub goal_id: String,
    pub policy: Policy,
}

/// Admits a run of a user: the key must belong to the user, and the user
/// must have quota left.
pub fn admit_user_run(
    state: &AppState,
    api_key: Option<&str>,
    user_id: &str,
    goal_id: &str,
    req_policy: Option<Policy>,
) -> (r: Result<UserRun, Refused>)
    ensures
        match r {
            Ok(run) => api_key matches Some(k) && key_of_user(state.users@, k@, user_id@) && {
                let u = state.users@[holder(state.users@, k@)];
                &&& u.quota_remaining > 0
                &&& run.goal_id@ == user_goal(user_id@, goal_id@)
                &&& run.policy == effective_policy("run"@, u.policy_overrides, req_policy)
            },
            Err(e) => match api_key {
                None => refuses(e, 401, "Missing x-api-key header"@),
                Some(k) => if key_of_user(state.users@, k@, user_id@) {
                    state.users@[holder(state.users@, k@)].quota_remaining == 0 && refuses(
                        e,
                        429,
                        "Quota exceeded"@,
                    )
                } else {
                    refuses(e, 401, "Invalid API key or user ID"@)
                },
            },
        },
{
    let user = match caller_of(
        state,
        api_key,
        user_id,
        "Missing x-api-key header",
        "Invalid API key or user ID",
    ) {
        Ok(u) => u,
        Err(e) => {
            return Err(e);
        },
    };
    if user.quota_remaining == 0 {
        return Err(refuse(429, "Quota exceeded"));
    }
    let policy = resolve_policy("run", Some(user), req_policy);
    let mut goal = chars_of("user:");
    crate::text::push_str(&mut goal, user_id);
    crate::text::push_str(&mut goal, ".");
    crate::text::push_str(&mut goal, goal_id);
    Ok(UserRun { goal_id: text_of(&goal), policy })
}

/// The first of the callers with the identifier `user_id`; the number of
/// callers where none has it.
pub open spec fn place_of_user(users: Seq<UserContext>, user_id: Seq<char>) -> int
    decreases users.len(),
{
    if users.len() == 0 || users[0].user_id@ == user_id {
        0
    } else {
        1 + place_of_user(users.drop_first(), user_id)
    }
}

/// What is left of a quota after one run.
pub open spec fn spent(quota: u32) -> u32 {
    if quota > 0 {
        (quota - 1) as u32
    } else {
        0
    }
}

/// Takes one run from the quota of a user and returns what is left; for an
/// unknown user nothing changes, and nothing is left.
pub fn spend_quota(state: &mut AppState, user_id: &str) -> (left: u32)
    ensures
        0 <= place_of_user(old(state).users@, user_id@) <= old(state).users@.len(),
        final(state).users@.len() == old(state).users@.len(),
        forall|i: int|
            0 <= i < old(state).users@.len() && i != place_of_user(old(state).users@, user_id@)
                ==> #[trigger] final(state).users@[i] == old(state).users@[i],
        place_of_user(old(state).users@, user_id@) < old(state).users@.len() ==> {
            let k = place_of_user(old(state).users@, user_id@);
            &&& final(state).users@[k].user_id@ == old(state).users@[k].user_id@
            &&& final(state).users@[k].api_key@ == old(state).users@[k].api_key@
            &&& final(state).users@[k].policy_overrides == old(state).users@[k].policy_overrides
            &&& final(state).users@[k].quota_remaining == spent(
                old(state).users@[k].quota_remaining,
            )
            &&& left == final(state).users@[k].quota_remaining
        },
        place_of_user(old(state).users@, user_id@) == old(state).users@.len() ==> left == 0,
{
    let ghost all = state.users@;
    let mut i: usize = 0;
    assert(all.skip(0) =~= all);
    while i < state.users.len()
        invariant
            i <= state.users.len(),
            state.users@ == all,
            all == old(state).users@,
            place_of_user(all, user_id@) == i + place_of_user(all.skip(i as int), user_id@),
        decreases state.users.len() - i,
    {
        proof {
            assert(all.skip(i as int)[0] == all[i as int]);
            assert(all.skip(i as int).drop_first() =~= all.skip(i + 1));
        }
        if str_eq(state.users[i].user_id.as_str(), user_id) {
            assert(place_of_user(all.skip(i as int), user_id@) == 0);
            let user = &state.users[i];
            let left = if user.quota_remaining > 0 {
                user.quota_remaining - 1
            } else {
                0
            };
            let changed = UserContext {
                user_id: user.user_id.clone(),
                api_key: user.api_key.clone(),
                quota_remaining: left,
                policy_overrides: user.policy_overrides,
            };
            state.users.set(i, changed);
            return left;
        }
        i += 1;
    }
    assert(all.skip(all.len() as int).len() == 0);
    0
}

/// The response to a run of a user: the manifest of the run under the
/// identifier `run_id`, and what is left of the quota.
pub fn user_run_resp(user_id: &str, quota_remaining: u32, run_id: &str, resp: RunResp) -> (r:
    UserRunResp)
    ensures
        r.user_id@ == user_id@,
        r.quota_remaining == quota_remaining,
        r.manifest.run_id@ == run_id@,
        r.manifest.goal_id == resp.manifest.goal_id,
        r.manifest.deliverables == resp.manifest.deliverables,
        r.manifest.evidence == resp.manifest.evidence,
        r.manifest.bits == resp.manifest.bits,
        r.bits == resp.bits,
        r.pr_created == resp.pr_created,
        r.meta2_proposal == resp.meta2_proposal,
{
    let RunResp { manifest, bits, pr_created, meta2_proposal } = resp;
    UserRunResp {
        user_id: user_id.to_owned(),
        quota_remaining,
        manifest: Manifest {
            run_id: run_id.to_owned(),
            goal_id: manifest.goal_id,
            deliverables: manifest.deliverables,
            evidence: manifest.evidence,
            bits: manifest.bits,
        },
        bits,
        pr_created,
        meta2_proposal,
    }
}

/// The thread of a chat: the one that the message names, else the default
/// thread; refused where it is no safe segment.
pub fn chat_thread(thread: Option<&str>) -> (r: Result<String, Refused>)
    ensures
        match r {
            Ok(t) => safe_segment(t@) && t@ == match thread {
                Some(x) => x@,
                None => "t-default"@,
            },
            Err(e) => thread matches Some(x) && !safe_segment(x@) && refuses(
                e,
                400,
                "Invalid thread id"@,
            ),
        },
{
    let t = match thread {
        Some(x) => x,
        None => "t-default",
    };
    if !is_safe_segment(t) {
        proof {
            if thread is None {
                lemma_default_thread_safe();
            }
        }
        return Err(refuse(400, "Invalid thread id"));
    }
    Ok(t.to_owned())
}

/// The default thread is a safe segment.
pub proof fn lemma_default_thread_safe()
    ensures
        safe_segment("t-default"@),
{
    reveal_strlit("t-default");
    let s = "t-default"@;
    assert(s.len() == 9);
    assert forall|i: int| 0 <= i < s.len() implies super::safe_char(#[trigger] s[i]) by {
        if i == 0 {
        } else if i == 1 {
        } else if i == 2 {
        } else if i == 3 {
        } else if i == 4 {
        } else if i == 5 {
        } else if i == 6 {
        } else if i == 7 {
        } else {
        }
    }
    assert(!crate::text::contains_char(s, '/')) by {
        if crate::text::contains_char(s, '/') {
            let i = choose|i: int| 0 <= i < s.len() && s[i] == '/';
            assert(super::safe_char(s[i]));
        }
    }
    assert(!crate::text::contains_char(s, '\\')) by {
        if crate::text::contains_char(s, '\\') {
            let i = choose|i: int| 0 <= i < s.len() && s[i] == '\\';
            assert(super::safe_char(s[i]));
        }
    }
    reveal_strlit("..");
    assert(!crate::text::contains_text(s, ".."@)) by {
        if crate::text::contains_text(s, ".."@) {
            let i = choose|i: int| crate::text::occurs_at(s, ".."@, i);
            assert(s.subrange(i, i + 2)[0] == '.');
            assert(s[i] == '.');
        }
    }
}

/// The input of the conversational goal for a message of a chat.
pub open spec fn chat_input(
    message: Seq<char>,
    thread: Seq<char>,
    history: Seq<JsonView>,
    loop_mode: bool,
) -> JsonView {
    JsonView::Object(
        seq![
            ("message"@, JsonView::Text(message)),
            ("thread"@, JsonView::Text(thread)),
            ("history"@, JsonView::List(history)),
            ("loop_mode"@, JsonView::Bool(loop_mode)),
        ],
    )
}

/// The input of the conversational goal for a message of a chat.
pub fn chat_inputs(message: &str, thread: &str, history: Vec<Json>, loop_mode: bool) -> (r: Json)
    ensures
        r@ == chat_input(message@, thread@, items_view(history@), loop_mode),
{
    let ghost h = items_view(history@);
    let mut e: Vec<(String, Json)> = Vec::new();
    put(&mut e, "message", Json::text(message));
    put(&mut e, "thread", Json::text(thread));
    put(&mut e, "history", Json::List(history));
    put(&mut e, "loop_mode", Json::Bool(loop_mode));
    assert(entries_view(e@) =~= chat_input(message@, thread@, h, loop_mode)->Object_0);
    Json::Object(e)
}

/// What is published when a chat run reaches a phase.
pub open spec fn chat_phase(run_id: Seq<char>, phase: Seq<char>) -> Seq<char> {
    "{\"run_id\":\""@ + run_id + "\",\"phase\":\""@ + phase + "\"}"@
}

/// What is published when a chat run reaches a phase.
pub fn chat_phase_event(run_id: &str, phase: &str) -> (r: String)
    ensures
        r@ == chat_phase(run_id@, phase@),
{
    let mut out = chars_of("{\"run_id\":\"");
    crate::text::push_str(&mut out, run_id);
    crate::text::push_str(&mut out, "\",\"phase\":\"");
    crate::text::push_str(&mut out, phase);
    crate::text::push_str(&mut out, "\"}");
    text_of(&out)
}

/// The reply to a chat message from the response of its run: the reply
/// and the suggested run that the evidence holds, and the manifest under
/// the identifier `run_id`.
pub fn chat_resp(run_id: &str, user_id: &str, thread: &str, resp: RunResp) -> (r: ChatResp)
    ensures
        r.run_id@ == run_id@,
        r.user_id@ == user_id@,
        opt_view(r.thread) == Some(thread@),
        r.reply@ == field_text(resp.manifest.evidence@, "reply"@),
        match r.run_payload {
            Some(p) => resp.manifest.evidence@.get("run_payload"@) == Some(p@),
            None => resp.manifest.evidence@.get("run_payload"@) is None,
        },
        r.manifest.run_id@ == run_id@,
        r.manifest.goal_id == resp.manifest.goal_id,
        r.manifest.deliverables == resp.manifest.deliverables,
        r.manifest.evidence == resp.manifest.evidence,
        r.manifest.bits == resp.manifest.bits,
        r.bits == resp.bits,
{
    proof {
        reveal_strlit("");
    }
    let RunResp { manifest, bits, pr_created: _, meta2_proposal: _ } = resp;
    let reply: String = match manifest.evidence.str_at("reply") {
        Some(s) => s.to_owned(),
        None => {
            let e = String::new();
            assert(e@ =~= Seq::<char>::empty());
            e
        },
    };
    let run_payload = match manifest.evidence.get("run_payload") {
        Some(p) => Some(p.copy()),
        None => None,
    };
    ChatResp {
        run_id: run_id.to_owned(),
        user_id: user_id.to_owned(),
        thread: Some(thread.to_owned()),
        reply,
        run_payload,
        manifest: Manifest {
            run_id: run_id.to_owned(),
            goal_id: manifest.goal_id,
            deliverables: manifest.deliverables,
            evidence: manifest.evidence,
            bits: manifest.bits,
        },
        bits,
    }
}

/// Why a run cannot be attached to a thread, where it cannot: the thread
/// or the run is named by no safe segment, the run has no receipt, or its
/// receipt holds no manifest yet.
pub open spec fn attach_refusal(
    thread: Seq<char>,
    run_id: Seq<char>,
    resp: Option<JsonView>,
) -> Option<(u16, Seq<char>)> {
    if !safe_segment(thread) {
        Some((400, "Invalid thread id"@))
    } else if !safe_segment(trimmed(run_id)) {
        Some((400, "Invalid run_id"@))
    } else {
        match resp {
            None => Some((404, "Receipt not found"@)),
            Some(v) => if v.get("manifest"@) is None {
                Some((409, "Run not ready (no manifest yet)"@))
            } else {
                None
            },
        }
    }
}

/// The run that a request to attach names: its identifier without the
/// white space around it, where that is a safe segment.
pub fn attach_run_id(thread: &str, run_id: &str) -> (r: Result<String, Refused>)
    ensures
        match r {
            Ok(id) => safe_segment(thread@) && id@ == trimmed(run_id@) && safe_segment(id@),
            Err(e) => if !safe_segment(thread@) {
                refuses(e, 400, "Invalid thread id"@)
            } else {
                !safe_segment(trimmed(run_id@)) && refuses(e, 400, "Invalid run_id"@)
            },
        },
{
    if !is_safe_segment(thread) {
        return Err(refuse(400, "Invalid thread id"));
    }
    let id = text_of(&trim(&chars_of(run_id)));
    if !is_safe_segment(id.as_str()) {
        return Err(refuse(400, "Invalid run_id"));
    }
    Ok(id)
}

/// Attaches the output of a run to a thread of a user: the summary that
/// goes into the thread, given the response of the run as its receipt
/// holds it, where there is a receipt.
pub fn attach_run(
    user_id: &str,
    thread: &str,
    run_id: &str,
    resp: Option<&Json>,
    note: Option<&str>,
) -> (r: Result<AttachRunResp, Refused>)
    ensures
        match r {
            Ok(a) => {
                &&& attach_refusal(
                    thread@,
                    run_id@,
                    match resp {
                        Some(v) => Some(v@),
                        None => None,
                    },
                ) is None
                &&& a.ok
                &&& a.user_id@ == user_id@
                &&& a.thread@ == thread@
                &&& a.run_id@ == trimmed(run_id@)
                &&& resp matches Some(v) && opt_view(a.goal_id) == attached_goal(v@)
                    && a.summary@ == join(
                    attachment_lines(
                        trimmed(run_id@),
                        v@,
                        match note {
                            Some(n) => Some(n@),
                            None => None,
                        },
                    ),
                    "\n"@,
                )
            },
            Err(e) => attach_refusal(
                thread@,
                run_id@,
                match resp {
                    Some(v) => Some(v@),
                    None => None,
                },
            ) == Some((e.status, e.message@)),
        },
{
    let id = match attach_run_id(thread, run_id) {
        Ok(id) => id,
        Err(e) => {
            return Err(e);
        },
    };
    let v = match resp {
        Some(v) => v,
        None => {
            return Err(refuse(404, "Receipt not found"));
        },
    };
    if v.get("manifest").is_none() {
        return Err(refuse(409, "Run not ready (no manifest yet)"));
    }
    let (summary, goal_id) = summarize_receipt_for_context(id.as_str(), v, note);
    Ok(
        AttachRunResp {
            ok: true,
            user_id: user_id.to_owned(),
            thread: thread.to_owned(),
            run_id: id,
            goal_id,
            summary,
        },
    )
}

} // verus!
