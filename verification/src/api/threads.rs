//! Chat threads: their events, what of them goes into the context of a chat,
//! how much they hold, and how the output of a run is attached to them.

use vstd::prelude::*;
use crate::json::{entries_view, items_view, put, Json, JsonView};
use crate::text::{
    blank, byte_len, concat, concat3, is_blank_str, join, join_texts, opt_view, str_eq, views,
};
use super::extract::{extract_strings_limited, gathered};
use super::redact::{redact, redacted};
use super::requests::ThreadSummaryResp;
use super::{is_safe_segment, receipt_url_of, safe_segment};

verus! {

/// One event of a thread.
#[derive(Debug)]
pub struct ThreadEvent {
    pub ts: String,
    pub role: String,
    pub content: String,
    pub run_id: String,
}

/// The event that is appended to a thread: the content after redaction.
pub fn thread_event(ts: &str, role: &str, content: &str, run_id: &str) -> (ev: ThreadEvent)
    ensures
        ev.ts@ == ts@,
        ev.role@ == role@,
        ev.content@ == redacted(content@),
        ev.run_id@ == run_id@,
{
    ThreadEvent {
        ts: ts.to_owned(),
        role: role.to_owned(),
        content: redact(content),
        run_id: run_id.to_owned(),
    }
}

/// An event as it is stored: one object with the fields `ts`, `role`,
/// `content` and `run_id`.
pub open spec fn thread_event_view(ev: ThreadEvent) -> JsonView {
    JsonView::Object(
        seq![
            ("ts"@, JsonView::Text(ev.ts@)),
            ("role"@, JsonView::Text(ev.role@)),
            ("content"@, JsonView::Text(ev.content@)),
            ("run_id"@, JsonView::Text(ev.run_id@)),
        ],
    )
}

/// An event as it is stored.
pub fn thread_event_json(ev: &ThreadEvent) -> (r: Json)
    ensures
        r@ == thread_event_view(*ev),
{
    let mut e: Vec<(String, Json)> = Vec::new();
    put(&mut e, "ts", Json::text(ev.ts.as_str()));
    put(&mut e, "role", Json::text(ev.role.as_str()));
    put(&mut e, "content", Json::text(ev.content.as_str()));
    put(&mut e, "run_id", Json::text(ev.run_id.as_str()));
    assert(entries_view(e@) =~= thread_event_view(*ev)->Object_0);
    Json::Object(e)
}

/// The text of the field `key`, empty where there is none.
pub open spec fn field_text(v: JsonView, key: Seq<char>) -> Seq<char> {
    match v.text_at(key) {
        Some(s) => s,
        None => Seq::<char>::empty(),
    }
}

/// A message of the context of a chat.
pub open spec fn message(role: Seq<char>, content: Seq<char>) -> JsonView {
    JsonView::Object(seq![("role"@, JsonView::Text(role)), ("content"@, JsonView::Text(content))])
}

/// What an event of a thread contributes to the context of a chat: the
/// messages of the user and the assistant as they are, those of tools and
/// the system as system messages; nothing for an event without content or
/// with any other role.
pub open spec fn context_message(v: JsonView) -> Option<JsonView> {
    let role = field_text(v, "role"@);
    let content = field_text(v, "content"@);
    if blank(content) {
        None
    } else if role == "user"@ || role == "assistant"@ {
        Some(message(role, content))
    } else if role == "tool"@ || role == "system"@ {
        Some(message("system"@, content))
    } else {
        None
    }
}

/// The context that the events `events` give, in order.
pub open spec fn context_of(events: Seq<JsonView>) -> Seq<JsonView>
    decreases events.len(),
{
    if events.len() == 0 {
        Seq::<JsonView>::empty()
    } else {
        match context_message(events.last()) {
            Some(m) => context_of(events.drop_last()).push(m),
            None => context_of(events.drop_last()),
        }
    }
}

/// A message of the context of a chat.
fn message_json(role: &str, content: &str) -> (r: Json)
    ensures
        r@ == message(role@, content@),
{
    let mut e: Vec<(String, Json)> = Vec::new();
    put(&mut e, "role", Json::text(role));
    put(&mut e, "content", Json::text(content));
    assert(entries_view(e@) =~= seq![
        ("role"@, JsonView::Text(role@)),
        ("content"@, JsonView::Text(content@)),
    ]);
    Json::Object(e)
}

/// The context of a chat from the events of its thread, each given as it
/// was read from the thread.
pub fn thread_history(events: &Vec<Json>) -> (out: Vec<Json>)
    ensures
        items_view(out@) == context_of(items_view(events@)),
{
    let mut out: Vec<Json> = Vec::new();
    let ghost all = items_view(events@);
    let mut i: usize = 0;
    assert(all.take(0) =~= Seq::<JsonView>::empty());
    assert(items_view(out@) =~= Seq::<JsonView>::empty());
    while i < events.len()
        invariant
            i <= events.len(),
            all == items_view(events@),
            items_view(out@) == context_of(all.take(i as int)),
        decreases events.len() - i,
    {
        let ghost before = items_view(out@);
        proof {
            assert(all.take(i + 1).drop_last() =~= all.take(i as int));
            assert(all.take(i + 1).last() == events@[i as int]@);
            reveal_strlit("");
        }
        let v = &events[i];
        let role = match v.str_at("role") {
            Some(r) => r,
            None => "",
        };
        let content = match v.str_at("content") {
            Some(c) => c,
            None => "",
        };
        assert(role@ =~= field_text(v@, "role"@));
        assert(content@ =~= field_text(v@, "content"@));
        if !is_blank_str(content) {
            if str_eq(role, "user") || str_eq(role, "assistant") {
                out.push(message_json(role, content));
                assert(items_view(out@) =~= before.push(message(role@, content@)));
            } else if str_eq(role, "tool") || str_eq(role, "system") {
                out.push(message_json("system", content));
                assert(items_view(out@) =~= before.push(message("system"@, content@)));
            }
        }
        i += 1;
    }
    assert(all.take(events@.len() as int) =~= all);
    out
}

/// How many of the events have the role `role`.
pub open spec fn with_role(events: Seq<JsonView>, role: Seq<char>) -> nat
    decreases events.len(),
{
    if events.len() == 0 {
        0
    } else {
        with_role(events.drop_last(), role) + if field_text(events.last(), "role"@) == role {
            1nat
        } else {
            0nat
        }
    }
}

/// How many of the events have a role.
pub open spec fn with_any_role(events: Seq<JsonView>) -> nat
    decreases events.len(),
{
    if events.len() == 0 {
        0
    } else {
        with_any_role(events.drop_last()) + if field_text(events.last(), "role"@).len() > 0 {
            1nat
        } else {
            0nat
        }
    }
}

/// The runs that the events name, the latest first, each once, at most
/// eight: `found` holds those of the events that follow.
pub open spec fn latest_runs(events: Seq<JsonView>, found: Seq<Seq<char>>) -> Seq<Seq<char>>
    decreases events.len(),
{
    if events.len() == 0 || found.len() >= 8 {
        found
    } else {
        let next = match events.last().text_at("run_id"@) {
            Some(r) => if safe_segment(r) && !found.contains(r) {
                found.push(r)
            } else {
                found
            },
            None => found,
        };
        latest_runs(events.drop_last(), next)
    }
}

/// The rough number of tokens in a thread of this many bytes: a quarter of
/// them, one at least.
pub open spec fn rough_tokens(bytes: u64) -> u64 {
    if bytes / 4 > 1 {
        bytes / 4
    } else {
        1
    }
}

/// Whether `name` stands among `names`.
fn has_name(names: &Vec<String>, name: &str) -> (r: bool)
    ensures
        r == views(names@).contains(name@),
{
    let mut i: usize = 0;
    while i < names.len()
        invariant
            i <= names.len(),
            forall|j: int| 0 <= j < i ==> views(names@)[j] != name@,
        decreases names.len() - i,
    {
        assert(views(names@)[i as int] == names@[i as int]@);
        if str_eq(names[i].as_str(), name) {
            return true;
        }
        i += 1;
    }
    false
}

/// The runs that the events name, the latest first, each once, at most
/// eight.
pub fn last_run_ids(events: &Vec<Json>) -> (found: Vec<String>)
    ensures
        views(found@) == latest_runs(items_view(events@), Seq::empty()),
{
    let mut found: Vec<String> = Vec::new();
    let ghost all = items_view(events@);
    let mut n: usize = events.len();
    assert(all.take(n as int) =~= all);
    assert(views(found@) =~= Seq::<Seq<char>>::empty());
    while n > 0 && found.len() < 8
        invariant
            n <= events.len(),
            all == items_view(events@),
            latest_runs(all, Seq::empty()) == latest_runs(all.take(n as int), views(found@)),
        decreases n,
    {
        let ghost before = views(found@);
        proof {
            assert(all.take(n as int).last() == events@[n - 1]@);
            assert(all.take(n as int).drop_last() =~= all.take(n - 1));
        }
        if let Some(r) = events[n - 1].str_at("run_id") {
            if is_safe_segment(r) && !has_name(&found, r) {
                found.push(r.to_owned());
                assert(views(found@) =~= before.push(r@));
            }
        }
        n -= 1;
    }
    found
}

/// How much a thread holds, from its latest events as they were read, its
/// size in bytes and the time of its last change.
pub fn thread_summary(
    user_id: &str,
    thread: &str,
    events: &Vec<Json>,
    bytes_total: u64,
    last_updated: Option<String>,
) -> (r: ThreadSummaryResp)
    ensures
        r.user_id@ == user_id@,
        r.thread@ == thread@,
        r.messages_total == with_any_role(items_view(events@)),
        r.messages_user == with_role(items_view(events@), "user"@),
        r.messages_assistant == with_role(items_view(events@), "assistant"@),
        r.messages_system == with_role(items_view(events@), "system"@),
        r.messages_tool == with_role(items_view(events@), "tool"@),
        r.bytes_total == bytes_total,
        r.approx_tokens == rough_tokens(bytes_total),
        views(r.last_run_ids@) == latest_runs(items_view(events@), Seq::empty()),
        r.last_updated == last_updated,
{
    let mut total: usize = 0;
    let mut user: usize = 0;
    let mut assistant: usize = 0;
    let mut system: usize = 0;
    let mut tool: usize = 0;
    let ghost all = items_view(events@);
    let mut i: usize = 0;
    while i < events.len()
        invariant
            i <= events.len(),
            all == items_view(events@),
            total == with_any_role(all.take(i as int)),
            user == with_role(all.take(i as int), "user"@),
            assistant == with_role(all.take(i as int), "assistant"@),
            system == with_role(all.take(i as int), "system"@),
            tool == with_role(all.take(i as int), "tool"@),
            total <= i,
            user <= i,
            assistant <= i,
            system <= i,
            tool <= i,
        decreases events.len() - i,
    {
        proof {
            assert(all.take(i + 1).drop_last() =~= all.take(i as int));
            assert(all.take(i + 1).last() == events@[i as int]@);
            reveal_strlit("");
        }
        let role = match events[i].str_at("role") {
            Some(r) => r,
            None => "",
        };
        assert(role@ =~= field_text(events@[i as int]@, "role"@));
        if role.unicode_len() > 0 {
            total += 1;
        }
        if str_eq(role, "user") {
            user += 1;
        }
        if str_eq(role, "assistant") {
            assistant += 1;
        }
        if str_eq(role, "system") {
            system += 1;
        }
        if str_eq(role, "tool") {
            tool += 1;
        }
        i += 1;
    }
    assert(all.take(events@.len() as int) =~= all);
    let approx_tokens = if bytes_total / 4 > 1 {
        bytes_total / 4
    } else {
        1
    };
    ThreadSummaryResp {
        user_id: user_id.to_owned(),
        thread: thread.to_owned(),
        messages_total: total,
        messages_user: user,
        messages_assistant: assistant,
        messages_system: system,
        messages_tool: tool,
        bytes_total,
        approx_tokens,
        last_run_ids: last_run_ids(events),
        last_updated,
    }
}

/// The texts of `texts` that are no longer than 240 bytes, in order.
pub open spec fn short_ones(texts: Seq<Seq<char>>) -> Seq<Seq<char>>
    decreases texts.len(),
{
    if texts.len() == 0 {
        Seq::<Seq<char>>::empty()
    } else if byte_len(texts.last()) <= 240 {
        short_ones(texts.drop_last()).push(texts.last())
    } else {
        short_ones(texts.drop_last())
    }
}

/// The lines that list the first `n` snippets.
pub open spec fn snippet_lines(snippets: Seq<Seq<char>>, n: int) -> Seq<Seq<char>>
    decreases n,
{
    if n <= 0 {
        Seq::<Seq<char>>::empty()
    } else {
        snippet_lines(snippets, n - 1).push("  - "@ + snippets[n - 1])
    }
}

/// The lines that tell what the evidence of a run holds: whether the run
/// succeeded, the page of the run, and up to six short texts of the
/// evidence.
pub open spec fn evidence_lines(ev: JsonView) -> Seq<Seq<char>> {
    let snippets = short_ones(gathered(ev, 4, 8));
    (match ev.bool_at("actual_success"@) {
        Some(b) => seq!["- success: `"@ + super::bool_text(b) + "`"@],
        None => Seq::<Seq<char>>::empty(),
    }) + (match super::receipt_view(ev) {
        Some(u) => seq!["- view: `"@ + u + "`"@],
        None => Seq::<Seq<char>>::empty(),
    }) + (if snippets.len() > 0 {
        seq!["- evidence_snippets:"@] + snippet_lines(
            snippets,
            if snippets.len() < 6 {
                snippets.len() as int
            } else {
                6
            },
        )
    } else {
        Seq::<Seq<char>>::empty()
    })
}

/// The manifest of a response, where it has one that is an object.
pub open spec fn manifest_of(resp: JsonView) -> Option<JsonView> {
    match resp.get("manifest"@) {
        Some(JsonView::Object(entries)) => Some(JsonView::Object(entries)),
        _ => None,
    }
}

/// The lines that tell what a response holds: the goal and the evidence of
/// its manifest, or its status where it has no manifest.
pub open spec fn response_lines(resp: JsonView) -> Seq<Seq<char>> {
    match manifest_of(resp) {
        Some(m) => (match m.text_at("goal_id"@) {
            Some(g) => seq!["- goal_id: `"@ + g + "`"@],
            None => Seq::<Seq<char>>::empty(),
        }) + (match m.get("evidence"@) {
            Some(ev) => evidence_lines(ev),
            None => Seq::<Seq<char>>::empty(),
        }),
        None => if field_text(resp, "status"@).len() > 0 {
            seq!["- status: `"@ + field_text(resp, "status"@) + "`"@]
        } else {
            Seq::<Seq<char>>::empty()
        },
    }
}

/// The lines of the summary of a run that is attached to a thread.
pub open spec fn attachment_lines(
    run_id: Seq<char>,
    resp: JsonView,
    note: Option<Seq<char>>,
) -> Seq<Seq<char>> {
    seq!["Tool: attached run output `"@ + run_id + "`."@] + response_lines(resp) + seq![
        "- receipt: `"@ + receipt_url_of(run_id) + "`"@,
    ] + (match note {
        Some(n) => if blank(n) {
            Seq::<Seq<char>>::empty()
        } else {
            seq!["- note: "@ + redacted(n)]
        },
        None => Seq::<Seq<char>>::empty(),
    })
}

/// The goal that a response names: the goal of its manifest.
pub open spec fn attached_goal(resp: JsonView) -> Option<Seq<char>> {
    match manifest_of(resp) {
        Some(m) => m.text_at("goal_id"@),
        None => None,
    }
}

/// The lines that tell what the evidence of a run holds.
fn evidence_lines_of(ev: &Json) -> (lines: Vec<String>)
    ensures
        views(lines@) == evidence_lines(ev@),
{
    let mut success: Vec<String> = Vec::new();
    if let Some(b) = ev.bool_at("actual_success") {
        success.push(concat3("- success: `", if b { "true" } else { "false" }, "`"));
    }
    assert(views(success@) =~= match ev@.bool_at("actual_success"@) {
        Some(b) => seq!["- success: `"@ + super::bool_text(b) + "`"@],
        None => Seq::<Seq<char>>::empty(),
    });
    let view = match ev.str_at("static_html_url") {
        Some(u) => Some(u),
        None => ev.str_at("index_html_url"),
    };
    let mut page: Vec<String> = Vec::new();
    if let Some(u) = view {
        page.push(concat3("- view: `", u, "`"));
    }
    assert(views(page@) =~= match super::receipt_view(ev@) {
        Some(u) => seq!["- view: `"@ + u + "`"@],
        None => Seq::<Seq<char>>::empty(),
    });
    let mut strs: Vec<String> = Vec::new();
    let mut budget: usize = 8;
    assert(views(strs@) =~= Seq::<Seq<char>>::empty());
    extract_strings_limited(ev, &mut strs, 4, &mut budget);
    assert(views(strs@) =~= gathered(ev@, 4, 8));
    let ghost all = views(strs@);
    let mut kept: Vec<String> = Vec::new();
    let mut i: usize = 0;
    assert(all.take(0) =~= Seq::<Seq<char>>::empty());
    assert(views(kept@) =~= Seq::<Seq<char>>::empty());
    while i < strs.len()
        invariant
            i <= strs.len(),
            all == views(strs@),
            views(kept@) == short_ones(all.take(i as int)),
        decreases strs.len() - i,
    {
        let ghost before = views(kept@);
        proof {
            assert(all.take(i + 1).drop_last() =~= all.take(i as int));
            assert(all.take(i + 1).last() == strs@[i as int]@);
        }
        if strs[i].as_str().len() <= 240 {
            kept.push(strs[i].clone());
            assert(views(kept@) =~= before.push(strs@[i as int]@));
        }
        i += 1;
    }
    assert(all.take(strs@.len() as int) =~= all);
    let ghost snippets = views(kept@);
    let mut listed: Vec<String> = Vec::new();
    if kept.len() > 0 {
        listed.push("- evidence_snippets:".to_owned());
        let n: usize = if kept.len() < 6 {
            kept.len()
        } else {
            6
        };
        let mut k: usize = 0;
        assert(views(listed@) =~= seq!["- evidence_snippets:"@] + snippet_lines(snippets, 0));
        while k < n
            invariant
                k <= n <= kept.len(),
                snippets == views(kept@),
                views(listed@) == seq!["- evidence_snippets:"@] + snippet_lines(snippets, k as int),
            decreases n - k,
        {
            let ghost before = views(listed@);
            listed.push(concat("  - ", kept[k].as_str()));
            assert(snippets[k as int] == kept@[k as int]@);
            assert(views(listed@) =~= before.push("  - "@ + snippets[k as int]));
            k += 1;
        }
    }
    assert(views(listed@) =~= if snippets.len() > 0 {
        seq!["- evidence_snippets:"@] + snippet_lines(
            snippets,
            if snippets.len() < 6 {
                snippets.len() as int
            } else {
                6
            },
        )
    } else {
        Seq::<Seq<char>>::empty()
    });
    let mut lines = success;
    append_lines(&mut lines, page);
    append_lines(&mut lines, listed);
    lines
}

/// Appends the lines of `more` to `lines`.
fn append_lines(lines: &mut Vec<String>, more: Vec<String>)
    ensures
        views(final(lines)@) == views(old(lines)@) + views(more@),
{
    let mut i: usize = 0;
    assert(views(more@).take(0) =~= Seq::<Seq<char>>::empty());
    assert(views(lines@) + Seq::<Seq<char>>::empty() =~= views(lines@));
    while i < more.len()
        invariant
            i <= more.len(),
            views(lines@) == views(old(lines)@) + views(more@).take(i as int),
        decreases more.len() - i,
    {
        let ghost before = views(lines@);
        lines.push(more[i].clone());
        assert(views(lines@) =~= before.push(more@[i as int]@));
        assert(views(more@).take(i + 1) =~= views(more@).take(i as int).push(more@[i as int]@));
        i += 1;
    }
    assert(views(more@).take(more@.len() as int) =~= views(more@));
}

/// The lines that tell what a response holds.
fn response_lines_of(resp: &Json) -> (lines: Vec<String>)
    ensures
        views(lines@) == response_lines(resp@),
{
    let manifest = match resp.get("manifest") {
        Some(m) => match m {
            Json::Object(_) => Some(m),
            _ => None,
        },
        None => None,
    };
    match manifest {
        Some(m) => {
            let mut goal: Vec<String> = Vec::new();
            if let Some(g) = m.str_at("goal_id") {
                goal.push(concat3("- goal_id: `", g, "`"));
            }
            assert(views(goal@) =~= match m@.text_at("goal_id"@) {
                Some(g) => seq!["- goal_id: `"@ + g + "`"@],
                None => Seq::<Seq<char>>::empty(),
            });
            let ev: Vec<String> = match m.get("evidence") {
                Some(ev) => evidence_lines_of(ev),
                None => Vec::new(),
            };
            assert(views(ev@) =~= match m@.get("evidence"@) {
                Some(e) => evidence_lines(e),
                None => Seq::<Seq<char>>::empty(),
            });
            let mut lines = goal;
            append_lines(&mut lines, ev);
            lines
        },
        None => {
            proof {
                reveal_strlit("");
            }
            let status = match resp.str_at("status") {
                Some(s) => s,
                None => "",
            };
            assert(status@ =~= field_text(resp@, "status"@));
            let mut lines: Vec<String> = Vec::new();
            if status.unicode_len() > 0 {
                lines.push(concat3("- status: `", status, "`"));
                assert(views(lines@) =~= seq!["- status: `"@ + status@ + "`"@]);
            } else {
                assert(views(lines@) =~= Seq::<Seq<char>>::empty());
            }
            lines
        },
    }
}

/// The summary of a run that is attached to a thread, and the goal of the
/// run where the response names it. `resp` is the response of the run as its
/// receipt holds it, `note` what the user adds.
pub fn summarize_receipt_for_context(run_id: &str, resp: &Json, note: Option<&str>) -> (r: (
    String,
    Option<String>,
))
    ensures
        r.0@ == join(
            attachment_lines(
                run_id@,
                resp@,
                match note {
                    Some(n) => Some(n@),
                    None => None,
                },
            ),
            "\n"@,
        ),
        opt_view(r.1) == attached_goal(resp@),
{
    let mut lines: Vec<String> = Vec::new();
    lines.push(concat3("Tool: attached run output `", run_id, "`."));
    assert(views(lines@) =~= seq!["Tool: attached run output `"@ + run_id@ + "`."@]);
    append_lines(&mut lines, response_lines_of(resp));
    let mut tail: Vec<String> = Vec::new();
    let url = super::receipt_url(run_id);
    tail.push(concat3("- receipt: `", url.as_str(), "`"));
    assert(views(tail@) =~= seq!["- receipt: `"@ + receipt_url_of(run_id@) + "`"@]);
    append_lines(&mut lines, tail);
    let mut noted: Vec<String> = Vec::new();
    if let Some(n) = note {
        if !is_blank_str(n) {
            let r = redact(n);
            noted.push(concat("- note: ", r.as_str()));
        }
    }
    assert(views(noted@) =~= match note {
        Some(n) => if blank(n@) {
            Seq::<Seq<char>>::empty()
        } else {
            seq!["- note: "@ + redacted(n@)]
        },
        None => Seq::<Seq<char>>::empty(),
    });
    append_lines(&mut lines, noted);
    let goal = match resp.get("manifest") {
        Some(m) => match m {
            Json::Object(_) => m.text_at("goal_id"),
            _ => None,
        },
        None => None,
    };
    (join_texts(&lines, "\n"), goal)
}

} // verus!
