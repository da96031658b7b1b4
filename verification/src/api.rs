//! The run lifecycle: identifiers, the active-run registry, progress events,
//! receipts, and the values that requests and responses carry.

pub mod answers;
pub mod browse;
pub mod codex;
pub mod extract;
pub mod history;
pub mod nudges;
pub mod paths;
pub mod redact;
pub mod requests;
pub mod scan;
pub mod search;
pub mod threads;
pub mod users;

use vstd::prelude::*;
use crate::ambient::{clock_now, fresh_uuid, hyphenated, lower_hex};
use crate::engine::bits::Bits;
use crate::engine::run::run_id_of;
use crate::engine::types::{Manifest, Policy};
use crate::json::{entries_view, items_view, put, set_field, Json, JsonView};
use crate::level::{plain, push_plain};
use crate::order::{
    is_text_before, lemma_text_before_asymmetric, lemma_text_before_total,
    lemma_text_before_transitive, ranked, sort_ranked, text_before, Ranked,
};
use crate::text::{
    blank, chars_of, concat, concat3, contains_char, contains_str, contains_text, has_char,
    is_blank_str, is_str, join_path, joined, occurs_at, push_all, push_str, same_text, str_eq,
    text_of, views,
};

verus! {

/// `c` is an ASCII letter or digit, a hyphen, an underscore or a dot.
pub open spec fn safe_char(c: char) -> bool {
    ('a' <= c && c <= 'z') || ('A' <= c && c <= 'Z') || ('0' <= c && c <= '9') || c == '-' || c
        == '_' || c == '.'
}

/// Every character of `s` is safe.
pub open spec fn all_safe(s: Seq<char>) -> bool {
    forall|i: int| 0 <= i < s.len() ==> safe_char(#[trigger] s[i])
}

/// `s` can stand as one segment of a path: it is not empty, holds no path
/// separator and no `..`, and is made of safe characters only.
pub open spec fn safe_segment(s: Seq<char>) -> bool {
    &&& s.len() > 0
    &&& !contains_char(s, '/')
    &&& !contains_char(s, '\\')
    &&& !contains_text(s, ".."@)
    &&& all_safe(s)
}

/// Whether `c` is an ASCII letter or digit, a hyphen, an underscore or a dot.
pub fn is_safe_char(c: char) -> (r: bool)
    ensures
        r == safe_char(c),
{
    ('a' <= c && c <= 'z') || ('A' <= c && c <= 'Z') || ('0' <= c && c <= '9') || c == '-' || c
        == '_' || c == '.'
}

/// Whether every character of `s` is safe.
pub fn is_all_safe(s: &Vec<char>) -> (r: bool)
    ensures
        r == all_safe(s@),
{
    let mut i: usize = 0;
    while i < s.len()
        invariant
            i <= s.len(),
            forall|j: int| 0 <= j < i ==> safe_char(#[trigger] s@[j]),
        decreases s.len() - i,
    {
        if !is_safe_char(s[i]) {
            return false;
        }
        i += 1;
    }
    true
}

/// Whether `seg` can stand as one segment of a path.
pub fn is_safe_segment(seg: &str) -> (r: bool)
    ensures
        r == safe_segment(seg@),
{
    let s = chars_of(seg);
    s.len() > 0 && !has_char(&s, '/') && !has_char(&s, '\\') && !contains_str(&s, "..")
        && is_all_safe(&s)
}

/// The identifier under which a run is known: the one that was asked for,
/// where it is a safe segment, else one made from the fresh identifier.
pub open spec fn resolved_run_id(requested: Option<Seq<char>>, fresh: Seq<char>) -> Seq<char> {
    match requested {
        Some(id) => if safe_segment(id) {
            id
        } else {
            run_id_of(fresh)
        },
        None => run_id_of(fresh),
    }
}

/// The identifier under which a run is known.
pub fn resolve_run_id(requested: Option<&str>, fresh_id: &str) -> (r: String)
    ensures
        r@ == resolved_run_id(
            match requested {
                Some(id) => Some(id@),
                None => None,
            },
            fresh_id@,
        ),
{
    match requested {
        Some(id) => if is_safe_segment(id) {
            id.to_owned()
        } else {
            concat("r-", fresh_id)
        },
        None => concat("r-", fresh_id),
    }
}

/// An identifier made from a fresh unique identifier is a safe segment.
pub proof fn lemma_fresh_run_id_safe(fresh: Seq<char>)
    requires
        hyphenated(fresh),
    ensures
        safe_segment(run_id_of(fresh)),
{
    reveal_strlit("r-");
    reveal_strlit("..");
    let id = run_id_of(fresh);
    assert(id.len() == 38);
    assert forall|i: int| 0 <= i < id.len() implies safe_char(#[trigger] id[i]) && id[i] != '.'
        && id[i] != '/' && id[i] != '\\' by {
        if i >= 2 {
            assert(id[i] == fresh[i - 2]);
            if i - 2 == 8 || i - 2 == 13 || i - 2 == 18 || i - 2 == 23 {
                assert(fresh[i - 2] == '-');
            } else {
                assert(lower_hex(fresh[i - 2]));
            }
        }
    }
    assert(!contains_text(id, ".."@)) by {
        assert forall|i: int| !occurs_at(id, ".."@, i) by {
            if occurs_at(id, ".."@, i) {
                assert(id.subrange(i, i + 2)[0] == '.');
                assert(id[i] == '.');
            }
        }
    }
}

/// Whatever was asked for, and whichever fresh identifier was drawn, the
/// identifier under which a run is known is a safe segment.
pub proof fn law_run_id_is_safe(requested: Option<Seq<char>>, fresh: Seq<char>)
    requires
        hyphenated(fresh),
    ensures
        safe_segment(resolved_run_id(requested, fresh)),
{
    lemma_fresh_run_id_safe(fresh);
}

/// The policy of a run that names none.
pub fn default_policy_run() -> (p: Policy)
    ensures
        p == Policy::standard(),
{
    Policy { gamma_gate: 500_000, time_ms: 300_000, max_risk: 200_000, tiny_diff_loc: 120 }
}

/// The policy of a chat that names none: the standard one with half a minute
/// of time, so that a chat stays fast.
pub fn default_policy_chat() -> (p: Policy)
    ensures
        p == (Policy { time_ms: 30_000, ..Policy::standard() }),
{
    Policy { gamma_gate: 500_000, time_ms: 30_000, max_risk: 200_000, tiny_diff_loc: 120 }
}

/// What the kernel knows of a caller.
#[derive(Debug)]
pub struct UserContext {
    pub user_id: String,
    pub api_key: String,
    pub quota_remaining: u32,
    pub policy_overrides: Option<Policy>,
}

/// The policy that holds for a request: the one of the request, else the
/// override of the user, else the default of the kind of request.
pub open spec fn effective_policy(
    kind: Seq<char>,
    user_override: Option<Policy>,
    req_policy: Option<Policy>,
) -> Policy {
    match req_policy {
        Some(p) => p,
        None => match user_override {
            Some(p) => p,
            None => if kind == "chat"@ {
                Policy { time_ms: 30_000, ..Policy::standard() }
            } else {
                Policy::standard()
            },
        },
    }
}

/// The policy that holds for a request of the kind `kind`.
pub fn resolve_policy(kind: &str, user: Option<&UserContext>, req_policy: Option<Policy>) -> (p:
    Policy)
    ensures
        p == effective_policy(
            kind@,
            match user {
                Some(u) => u.policy_overrides,
                None => None,
            },
            req_policy,
        ),
{
    if let Some(p) = req_policy {
        return p;
    }
    if let Some(u) = user {
        if let Some(p) = u.policy_overrides {
            return p;
        }
    }
    let k = chars_of(kind);
    if is_str(&k, "chat") {
        default_policy_chat()
    } else {
        default_policy_run()
    }
}

/// A limit within bounds: the given one, or the default, at most `max` and at
/// least one.
pub open spec fn clamped_limit(v: Option<usize>, default: usize, max: usize) -> usize {
    let x = match v {
        Some(x) => x,
        None => default,
    };
    let y = if x < max {
        x
    } else {
        max
    };
    if y > 1 {
        y
    } else {
        1
    }
}

pub fn clamp_limit(v: Option<usize>, default: usize, max: usize) -> (r: usize)
    ensures
        r == clamped_limit(v, default, max),
        r >= 1,
{
    let x = match v {
        Some(x) => x,
        None => default,
    };
    let y = if x < max {
        x
    } else {
        max
    };
    if y > 1 {
        y
    } else {
        1
    }
}

/// A byte budget within bounds: the given one, or the default, at most `max`
/// and at least 1024.
pub open spec fn clamped_u64(v: Option<u64>, default: u64, max: u64) -> u64 {
    let x = match v {
        Some(x) => x,
        None => default,
    };
    let y = if x < max {
        x
    } else {
        max
    };
    if y > 1024 {
        y
    } else {
        1024
    }
}

pub fn clamp_u64(v: Option<u64>, default: u64, max: u64) -> (r: u64)
    ensures
        r == clamped_u64(v, default, max),
        r >= 1024,
{
    let x = match v {
        Some(x) => x,
        None => default,
    };
    let y = if x < max {
        x
    } else {
        max
    };
    if y > 1024 {
        y
    } else {
        1024
    }
}

/// A run that was accepted and has not ended. `status` is `queued` or
/// `running`.
#[derive(Debug)]
pub struct ActiveRun {
    pub run_id: String,
    pub goal_id: String,
    pub status: String,
    pub ts: String,
    pub receipt_url: String,
    pub sse_url: String,
}

/// The address of the receipt of a run.
pub open spec fn receipt_url_of(run_id: Seq<char>) -> Seq<char> {
    "/runs/receipts/"@ + run_id + "/RECEIPT.md"@
}

/// The address of the progress stream of a run.
pub open spec fn sse_url_of(run_id: Seq<char>) -> Seq<char> {
    "/progress.sse?run_id="@ + run_id
}

/// The address of the receipt of a run.
pub fn receipt_url(run_id: &str) -> (r: String)
    ensures
        r@ == receipt_url_of(run_id@),
{
    concat3("/runs/receipts/", run_id, "/RECEIPT.md")
}

/// The address of the progress stream of a run.
pub fn sse_url(run_id: &str) -> (r: String)
    ensures
        r@ == sse_url_of(run_id@),
{
    concat("/progress.sse?run_id=", run_id)
}

impl ActiveRun {
    /// The entry of the run `run_id` with this goal, status and time stamp.
    pub open spec fn is_entry(
        self,
        run_id: Seq<char>,
        goal_id: Seq<char>,
        status: Seq<char>,
        ts: Seq<char>,
    ) -> bool {
        &&& self.run_id@ == run_id
        &&& self.goal_id@ == goal_id
        &&& self.status@ == status
        &&& self.ts@ == ts
        &&& self.receipt_url@ == receipt_url_of(run_id)
        &&& self.sse_url@ == sse_url_of(run_id)
    }

    /// A copy of the entry.
    pub fn copy(&self) -> (r: Self)
        ensures
            r == *self,
    {
        ActiveRun {
            run_id: self.run_id.clone(),
            goal_id: self.goal_id.clone(),
            status: self.status.clone(),
            ts: self.ts.clone(),
            receipt_url: self.receipt_url.clone(),
            sse_url: self.sse_url.clone(),
        }
    }
}

impl Ranked for ActiveRun {
    /// The later run comes first; of two runs with one time stamp, the one
    /// with the later identifier.
    open spec fn precedes(&self, other: &Self) -> bool {
        text_before(other.ts@, self.ts@) || (other.ts@ == self.ts@ && text_before(
            other.run_id@,
            self.run_id@,
        ))
    }

    fn comes_before(&self, other: &Self) -> (r: bool) {
        let a = chars_of(self.ts.as_str());
        let b = chars_of(other.ts.as_str());
        if is_text_before(&b, &a) {
            true
        } else if same_text(&a, &b) {
            let x = chars_of(self.run_id.as_str());
            let y = chars_of(other.run_id.as_str());
            is_text_before(&y, &x)
        } else {
            false
        }
    }

    proof fn lemma_asymmetric(a: &Self, b: &Self) {
        lemma_text_before_asymmetric(a.ts@, b.ts@);
        lemma_text_before_asymmetric(a.run_id@, b.run_id@);
        crate::order::lemma_text_before_irreflexive(a.ts@);
    }

    proof fn lemma_negatively_transitive(a: &Self, b: &Self, c: &Self) {
        lemma_text_before_total(a.ts@, b.ts@);
        lemma_text_before_total(b.ts@, c.ts@);
        lemma_text_before_total(a.ts@, c.ts@);
        lemma_text_before_total(a.run_id@, b.run_id@);
        lemma_text_before_total(b.run_id@, c.run_id@);
        lemma_text_before_total(a.run_id@, c.run_id@);
        lemma_text_before_asymmetric(a.ts@, b.ts@);
        lemma_text_before_asymmetric(b.ts@, c.ts@);
        lemma_text_before_asymmetric(a.ts@, c.ts@);
        lemma_text_before_asymmetric(a.run_id@, b.run_id@);
        lemma_text_before_asymmetric(b.run_id@, c.run_id@);
        lemma_text_before_asymmetric(a.run_id@, c.run_id@);
        crate::order::lemma_text_before_irreflexive(a.ts@);
        crate::order::lemma_text_before_irreflexive(a.run_id@);
        if c.precedes(a) {
            // a < c in the order of the keys, while c <= b and b <= a
            if text_before(a.ts@, c.ts@) {
                if text_before(c.ts@, b.ts@) {
                    lemma_text_before_transitive(a.ts@, c.ts@, b.ts@);
                }
            } else {
                if text_before(a.run_id@, c.run_id@) && text_before(c.run_id@, b.run_id@) {
                    lemma_text_before_transitive(a.run_id@, c.run_id@, b.run_id@);
                }
            }
        }
    }
}

/// The runs that were accepted and have not ended, each identifier once.
pub struct ActiveRuns {
    pub runs: Vec<ActiveRun>,
}

/// The position of the run `id` in `runs`, or the length of `runs` where it
/// is not among them.
pub open spec fn position(runs: Seq<ActiveRun>, id: Seq<char>) -> int
    decreases runs.len(),
{
    if runs.len() == 0 || runs[0].run_id@ == id {
        0
    } else {
        1 + position(runs.drop_first(), id)
    }
}

/// Where `position` points: at the first run with the identifier.
pub proof fn lemma_position(runs: Seq<ActiveRun>, id: Seq<char>, k: int)
    requires
        0 <= k <= runs.len(),
        forall|j: int| 0 <= j < k ==> (#[trigger] runs[j]).run_id@ != id,
        k < runs.len() ==> runs[k].run_id@ == id,
    ensures
        position(runs, id) == k,
    decreases k,
{
    if k > 0 {
        let t = runs.drop_first();
        assert forall|j: int| 0 <= j < k - 1 implies (#[trigger] t[j]).run_id@ != id by {
            assert(t[j] == runs[j + 1]);
        }
        lemma_position(t, id, k - 1);
    }
}

impl ActiveRuns {
    /// No identifier occurs twice.
    pub open spec fn wf(&self) -> bool {
        forall|i: int, j: int|
            #![trigger self.runs@[i], self.runs@[j]]
            0 <= i < j < self.runs@.len() ==> self.runs@[i].run_id@ != self.runs@[j].run_id@
    }

    /// An empty registry.
    pub fn new() -> (r: Self)
        ensures
            r.wf(),
            r.runs@.len() == 0,
    {
        ActiveRuns { runs: Vec::new() }
    }

    /// Whether no identifier occurs twice.
    pub fn is_wf(&self) -> (r: bool)
        ensures
            r == self.wf(),
    {
        let mut j: usize = 0;
        while j < self.runs.len()
            invariant
                j <= self.runs.len(),
                forall|a: int, b: int|
                    #![trigger self.runs@[a], self.runs@[b]]
                    0 <= a < b < j ==> self.runs@[a].run_id@ != self.runs@[b].run_id@,
            decreases self.runs.len() - j,
        {
            let id = chars_of(self.runs[j].run_id.as_str());
            let mut i: usize = 0;
            while i < j
                invariant
                    i <= j < self.runs.len(),
                    id@ == self.runs@[j as int].run_id@,
                    forall|a: int|
                        0 <= a < i ==> (#[trigger] self.runs@[a]).run_id@ != self.runs@[j as int].run_id@,
                decreases j - i,
            {
                let other = chars_of(self.runs[i].run_id.as_str());
                if same_text(&other, &id) {
                    return false;
                }
                i += 1;
            }
            j += 1;
        }
        true
    }

    /// The position of the run `run_id`, or the number of runs where it is
    /// not among them.
    pub fn find(&self, run_id: &str) -> (k: usize)
        ensures
            k == position(self.runs@, run_id@),
            k <= self.runs@.len(),
            k < self.runs@.len() ==> self.runs@[k as int].run_id@ == run_id@,
            forall|j: int| 0 <= j < k ==> (#[trigger] self.runs@[j]).run_id@ != run_id@,
    {
        let id = chars_of(run_id);
        let mut k: usize = 0;
        while k < self.runs.len()
            invariant
                k <= self.runs.len(),
                id@ == run_id@,
                forall|j: int| 0 <= j < k ==> (#[trigger] self.runs@[j]).run_id@ != run_id@,
            decreases self.runs.len() - k,
        {
            let other = chars_of(self.runs[k].run_id.as_str());
            if same_text(&other, &id) {
                proof {
                    lemma_position(self.runs@, run_id@, k as int);
                }
                return k;
            }
            k += 1;
        }
        proof {
            lemma_position(self.runs@, run_id@, k as int);
        }
        k
    }

    /// The runs, the latest first; of two runs with one time stamp the one
    /// with the later identifier first.
    pub fn snapshot(&self) -> (out: Vec<ActiveRun>)
        ensures
            ranked(out@),
            out@.to_multiset() == self.runs@.to_multiset(),
    {
        let mut copies: Vec<ActiveRun> = Vec::new();
        let mut i: usize = 0;
        while i < self.runs.len()
            invariant
                i <= self.runs.len(),
                copies@ == self.runs@.take(i as int),
            decreases self.runs.len() - i,
        {
            copies.push(self.runs[i].copy());
            assert(copies@ =~= self.runs@.take(i + 1));
            i += 1;
        }
        assert(self.runs@.take(self.runs@.len() as int) =~= self.runs@);
        sort_ranked(copies)
    }
}

/// `after` is the registry `before` with the run `run_id` registered with
/// this goal, status and time stamp: in place of what was registered under
/// the identifier before, or as one more run; the other runs stay as they
/// are. An identifier that is no safe segment is not registered.
pub open spec fn registered(
    before: ActiveRuns,
    after: ActiveRuns,
    run_id: Seq<char>,
    goal_id: Seq<char>,
    status: Seq<char>,
    ts: Seq<char>,
) -> bool {
    if safe_segment(run_id) {
        let k = position(before.runs@, run_id);
        &&& after.runs@.len() == if k < before.runs@.len() {
            before.runs@.len()
        } else {
            before.runs@.len() + 1
        }
        &&& after.runs@[k].is_entry(run_id, goal_id, status, ts)
        &&& forall|j: int|
            0 <= j < before.runs@.len() && j != k ==> #[trigger] after.runs@[j] == before.runs@[j]
    } else {
        after == before
    }
}

/// Registers the run `run_id` with this goal, status and time stamp, in place
/// of what was registered under the identifier before. An identifier that is
/// no safe segment is not registered.
pub fn set_active_run(
    registry: &mut ActiveRuns,
    run_id: &str,
    goal_id: &str,
    status: &str,
    ts: &str,
)
    requires
        old(registry).wf(),
    ensures
        final(registry).wf(),
        registered(*old(registry), *final(registry), run_id@, goal_id@, status@, ts@),
{
    if !is_safe_segment(run_id) {
        return ;
    }
    let entry = ActiveRun {
        run_id: run_id.to_owned(),
        goal_id: goal_id.to_owned(),
        status: status.to_owned(),
        ts: ts.to_owned(),
        receipt_url: receipt_url(run_id),
        sse_url: sse_url(run_id),
    };
    let k = registry.find(run_id);
    if k < registry.runs.len() {
        registry.runs.set(k, entry);
    } else {
        registry.runs.push(entry);
    }
}

/// Takes the run `run_id` out of the registry, where it is in it.
pub fn clear_active_run(registry: &mut ActiveRuns, run_id: &str)
    requires
        old(registry).wf(),
    ensures
        final(registry).wf(),
        forall|j: int|
            0 <= j < final(registry).runs@.len() ==> (#[trigger] final(registry).runs@[j]).run_id@
                != run_id@,
        ({
            let k = position(old(registry).runs@, run_id@);
            if k < old(registry).runs@.len() {
                final(registry).runs@ == old(registry).runs@.remove(k)
            } else {
                final(registry).runs@ == old(registry).runs@
            }
        }),
{
    let k = registry.find(run_id);
    if k < registry.runs.len() {
        registry.runs.remove(k);
    }
}

/// A progress event of a run that has just passed a phase boundary.
pub open spec fn phase_payload(run_id: Seq<char>, goal_id: Seq<char>, phase: Seq<char>) -> JsonView {
    JsonView::Object(
        seq![
            ("goal_id"@, JsonView::Text(goal_id)),
            ("phase"@, JsonView::Text(phase)),
            ("run_id"@, JsonView::Text(run_id)),
        ],
    )
}

/// A progress event with a time stamp and extra data.
pub open spec fn progress_payload(
    run_id: Seq<char>,
    goal_id: Seq<char>,
    phase: Seq<char>,
    ts: Seq<char>,
    extra: JsonView,
) -> JsonView {
    JsonView::Object(
        seq![
            ("extra"@, extra),
            ("goal_id"@, JsonView::Text(goal_id)),
            ("phase"@, JsonView::Text(phase)),
            ("run_id"@, JsonView::Text(run_id)),
            ("ts"@, JsonView::Text(ts)),
        ],
    )
}

/// A progress event of a run that has just passed a phase boundary.
pub fn phase_event(run_id: &str, goal_id: &str, phase: &str) -> (r: Json)
    ensures
        r@ == phase_payload(run_id@, goal_id@, phase@),
{
    let mut e: Vec<(String, Json)> = Vec::new();
    put(&mut e, "goal_id", Json::text(goal_id));
    put(&mut e, "phase", Json::text(phase));
    put(&mut e, "run_id", Json::text(run_id));
    assert(entries_view(e@) =~= phase_payload(run_id@, goal_id@, phase@)->Object_0);
    Json::Object(e)
}

/// A progress event with the time stamp `ts` and extra data.
pub fn progress_event(run_id: &str, goal_id: &str, phase: &str, ts: &str, extra: Json) -> (r: Json)
    ensures
        r@ == progress_payload(run_id@, goal_id@, phase@, ts@, extra@),
{
    let mut e: Vec<(String, Json)> = Vec::new();
    put(&mut e, "extra", extra);
    put(&mut e, "goal_id", Json::text(goal_id));
    put(&mut e, "phase", Json::text(phase));
    put(&mut e, "run_id", Json::text(run_id));
    put(&mut e, "ts", Json::text(ts));
    assert(entries_view(e@) =~= progress_payload(run_id@, goal_id@, phase@, ts@, extra@)->Object_0);
    Json::Object(e)
}

/// A progress event stamped with the current time, for the caller to publish.
pub fn emit_progress(run_id: &str, goal_id: &str, phase: &str, extra: Json) -> (r: Json)
    ensures
        exists|ts: Seq<char>| r@ == #[trigger] progress_payload(run_id@, goal_id@, phase@, ts, extra@),
{
    let now = clock_now();
    let r = progress_event(run_id, goal_id, phase, now.stamp.as_str(), extra);
    assert(r@ == progress_payload(run_id@, goal_id@, phase@, now.stamp@, extra@));
    r
}

/// Whether a subscriber that asked for the run `target` gets an event. A
/// subscriber that asked for no run gets every event; an event that cannot
/// be read as a structured value goes to every subscriber.
pub open spec fn event_passes(target: Option<Seq<char>>, event: Option<JsonView>) -> bool {
    match (target, event) {
        (Some(run_id), Some(v)) => v.text_at("run_id"@) == Some(run_id),
        _ => true,
    }
}

/// Whether a subscriber that asked for the run `target` gets an event;
/// `event` is the event where it could be read as a structured value.
pub fn passes_filter(target: Option<&str>, event: Option<&Json>) -> (r: bool)
    ensures
        r == event_passes(
            match target {
                Some(t) => Some(t@),
                None => None,
            },
            match event {
                Some(e) => Some(e@),
                None => None,
            },
        ),
{
    match (target, event) {
        (Some(run_id), Some(v)) => match v.str_at("run_id") {
            Some(id) => str_eq(id, run_id),
            None => false,
        },
        _ => true,
    }
}

/// The number of padding characters in a keep-alive event.
pub const KEEPALIVE_PAD: usize = 1200;

/// The data of a keep-alive event: padding only, so that intermediaries
/// flush the stream.
pub open spec fn keepalive_text() -> Seq<char> {
    "{\"keepalive\":true,\"pad\":\""@ + Seq::new(KEEPALIVE_PAD as nat, |i: int| 'x') + "\"}"@
}

/// The data of a keep-alive event.
pub fn keepalive_payload() -> (r: String)
    ensures
        r@ == keepalive_text(),
{
    let mut out: Vec<char> = Vec::new();
    push_str(&mut out, "{\"keepalive\":true,\"pad\":\"");
    let ghost head = out@;
    let mut i: usize = 0;
    while i < KEEPALIVE_PAD
        invariant
            i <= KEEPALIVE_PAD,
            out@ == head + Seq::new(i as nat, |j: int| 'x'),
        decreases KEEPALIVE_PAD - i,
    {
        out.push('x');
        assert(out@ =~= head + Seq::new((i + 1) as nat, |j: int| 'x'));
        i += 1;
    }
    push_str(&mut out, "\"}");
    text_of(&out)
}

/// The bits as they stand in a response: nine numbers under the keys `a`,
/// `u`, `p`, `e`, `d`, `i`, `r`, `t` and `m`.
pub open spec fn bits_view(b: Bits) -> JsonView {
    JsonView::Object(
        seq![
            ("a"@, JsonView::Real(b.a as int)),
            ("u"@, JsonView::Real(b.u as int)),
            ("p"@, JsonView::Real(b.p as int)),
            ("e"@, JsonView::Real(b.e as int)),
            ("d"@, JsonView::Real(b.d as int)),
            ("i"@, JsonView::Real(b.i as int)),
            ("r"@, JsonView::Real(b.r as int)),
            ("t"@, JsonView::Real(b.t as int)),
            ("m"@, JsonView::Real(b.m as int)),
        ],
    )
}

/// The bits as they stand in a response.
pub fn bits_json(b: &Bits) -> (r: Json)
    ensures
        r@ == bits_view(*b),
{
    let mut e: Vec<(String, Json)> = Vec::new();
    put(&mut e, "a", Json::Real(b.a));
    put(&mut e, "u", Json::Real(b.u));
    put(&mut e, "p", Json::Real(b.p));
    put(&mut e, "e", Json::Real(b.e));
    put(&mut e, "d", Json::Real(b.d));
    put(&mut e, "i", Json::Real(b.i));
    put(&mut e, "r", Json::Real(b.r));
    put(&mut e, "t", Json::Real(b.t));
    put(&mut e, "m", Json::Real(b.m));
    assert(entries_view(e@) =~= bits_view(*b)->Object_0);
    Json::Object(e)
}

/// A list of texts as a structured value.
pub open spec fn texts_view(items: Seq<String>) -> JsonView {
    JsonView::List(Seq::new(items.len(), |i: int| JsonView::Text(items[i]@)))
}

/// A list of texts as a structured value.
pub fn texts_json(items: &Vec<String>) -> (r: Json)
    ensures
        r@ == texts_view(items@),
{
    let mut out: Vec<Json> = Vec::new();
    let mut i: usize = 0;
    while i < items.len()
        invariant
            i <= items.len(),
            out@.len() == i,
            forall|j: int| 0 <= j < i ==> (#[trigger] out@[j])@ == JsonView::Text(items@[j]@),
        decreases items.len() - i,
    {
        out.push(Json::Text(items[i].clone()));
        i += 1;
    }
    assert(items_view(out@) =~= Seq::new(items@.len(), |i: int| JsonView::Text(items@[i]@)));
    Json::List(out)
}

/// A manifest as it stands in a response.
pub open spec fn manifest_view(m: Manifest) -> JsonView {
    JsonView::Object(
        seq![
            ("run_id"@, JsonView::Text(m.run_id@)),
            ("goal_id"@, JsonView::Text(m.goal_id@)),
            ("deliverables"@, texts_view(m.deliverables@)),
            ("evidence"@, m.evidence@),
            ("bits"@, bits_view(m.bits)),
        ],
    )
}

/// A manifest as it stands in a response.
pub fn manifest_json(m: &Manifest) -> (r: Json)
    ensures
        r@ == manifest_view(*m),
{
    let mut e: Vec<(String, Json)> = Vec::new();
    put(&mut e, "run_id", Json::text(m.run_id.as_str()));
    put(&mut e, "goal_id", Json::text(m.goal_id.as_str()));
    put(&mut e, "deliverables", texts_json(&m.deliverables));
    put(&mut e, "evidence", m.evidence.copy());
    put(&mut e, "bits", bits_json(&m.bits));
    assert(entries_view(e@) =~= manifest_view(*m)->Object_0);
    Json::Object(e)
}

/// An optional text as a structured value: the text, or null.
pub open spec fn opt_text_view(o: Option<Seq<char>>) -> JsonView {
    match o {
        Some(s) => JsonView::Text(s),
        None => JsonView::Null,
    }
}

/// An optional text as a structured value.
pub fn opt_text_json(o: &Option<String>) -> (r: Json)
    ensures
        r@ == opt_text_view(crate::text::opt_view(*o)),
{
    match o {
        Some(s) => Json::text(s.as_str()),
        None => Json::Null,
    }
}

/// The response to a finished run.
#[derive(Debug)]
pub struct RunResp {
    pub manifest: Manifest,
    pub bits: Bits,
    pub pr_created: Option<String>,
    /// The proposal of the slow loop, serialized, where there is one.
    pub meta2_proposal: Option<String>,
}

/// The response to a finished run as a structured value.
pub open spec fn run_resp_view(resp: RunResp) -> JsonView {
    JsonView::Object(
        seq![
            ("manifest"@, manifest_view(resp.manifest)),
            ("bits"@, bits_view(resp.bits)),
            ("pr_created"@, opt_text_view(crate::text::opt_view(resp.pr_created))),
            ("meta2_proposal"@, opt_text_view(crate::text::opt_view(resp.meta2_proposal))),
        ],
    )
}

/// The response to a finished run as a structured value.
pub fn run_resp_json(resp: &RunResp) -> (r: Json)
    ensures
        r@ == run_resp_view(*resp),
        r@.get("manifest"@) == Some(manifest_view(resp.manifest)),
{
    let mut e: Vec<(String, Json)> = Vec::new();
    put(&mut e, "manifest", manifest_json(&resp.manifest));
    put(&mut e, "bits", bits_json(&resp.bits));
    put(&mut e, "pr_created", opt_text_json(&resp.pr_created));
    put(&mut e, "meta2_proposal", opt_text_json(&resp.meta2_proposal));
    assert(entries_view(e@) =~= run_resp_view(*resp)->Object_0);
    Json::Object(e)
}

/// The response to a run that was accepted for the background. `status` is
/// `queued`, `running`, `done` or `error`.
#[derive(Debug)]
pub struct RunAsyncResp {
    pub run_id: String,
    pub goal_id: String,
    pub status: String,
    pub receipt_url: String,
    pub sse_url: String,
}

/// The response to an accepted run as a structured value.
pub open spec fn run_async_resp_view(resp: RunAsyncResp) -> JsonView {
    JsonView::Object(
        seq![
            ("run_id"@, JsonView::Text(resp.run_id@)),
            ("goal_id"@, JsonView::Text(resp.goal_id@)),
            ("status"@, JsonView::Text(resp.status@)),
            ("receipt_url"@, JsonView::Text(resp.receipt_url@)),
            ("sse_url"@, JsonView::Text(resp.sse_url@)),
        ],
    )
}

/// The response to an accepted run as a structured value.
pub fn run_async_resp_json(resp: &RunAsyncResp) -> (r: Json)
    ensures
        r@ == run_async_resp_view(*resp),
        r@.text_at("status"@) == Some(resp.status@),
{
    let mut e: Vec<(String, Json)> = Vec::new();
    put(&mut e, "run_id", Json::text(resp.run_id.as_str()));
    put(&mut e, "goal_id", Json::text(resp.goal_id.as_str()));
    put(&mut e, "status", Json::text(resp.status.as_str()));
    put(&mut e, "receipt_url", Json::text(resp.receipt_url.as_str()));
    put(&mut e, "sse_url", Json::text(resp.sse_url.as_str()));
    assert(entries_view(e@) =~= run_async_resp_view(*resp)->Object_0);
    proof {
        reveal_strlit("run_id");
        reveal_strlit("goal_id");
        reveal_strlit("status");
        let entries = run_async_resp_view(*resp)->Object_0;
        assert(entries.drop_first().drop_first()[0] == entries[2]);
        assert(crate::json::lookup(entries.drop_first().drop_first(), "status"@) == Some(
            entries[2].1,
        ));
        assert(crate::json::lookup(entries.drop_first(), "status"@) == crate::json::lookup(
            entries.drop_first().drop_first(),
            "status"@,
        )) by {
            assert(entries.drop_first()[0] == entries[1]);
            assert("goal_id"@ != "status"@) by {
                assert("goal_id"@[0] == 'g');
                assert("status"@[0] == 's');
            }
        }
        assert(crate::json::lookup(entries, "status"@) == crate::json::lookup(
            entries.drop_first(),
            "status"@,
        )) by {
            assert("run_id"@ != "status"@) by {
                assert("run_id"@[0] == 'r');
                assert("status"@[0] == 's');
            }
        }
    }
    Json::Object(e)
}

/// One file of a receipt.
#[derive(Debug)]
pub struct ReceiptFile {
    pub name: String,
    pub content: String,
}

/// The page that a receipt points to as the view of the run: the static page
/// where the evidence names one, else the index page.
pub open spec fn receipt_view(evidence: JsonView) -> Option<Seq<char>> {
    match evidence.text_at("static_html_url"@) {
        Some(u) => Some(u),
        None => evidence.text_at("index_html_url"@),
    }
}

/// Whether a receipt reports success: what the evidence says, or
/// `default_success` where it says nothing.
pub open spec fn receipt_success(evidence: JsonView, default_success: bool) -> bool {
    match evidence.bool_at("actual_success"@) {
        Some(b) => b,
        None => default_success,
    }
}

/// The reply that a receipt keeps: the reply of the evidence, where it is
/// more than white space.
pub open spec fn kept_reply(evidence: JsonView) -> Option<Seq<char>> {
    match evidence.text_at("reply"@) {
        Some(s) => if blank(s) {
            None
        } else {
            Some(s)
        },
        None => None,
    }
}

/// `true` or `false`.
pub open spec fn bool_text(b: bool) -> Seq<char> {
    if b {
        "true"@
    } else {
        "false"@
    }
}

/// The items as a list, one line each.
pub open spec fn bullets(items: Seq<Seq<char>>) -> Seq<char>
    decreases items.len(),
{
    if items.len() == 0 {
        Seq::<char>::empty()
    } else {
        bullets(items.drop_last()) + "- "@ + items.last() + "\n"@
    }
}

/// The address of a file of the receipt of a run.
pub open spec fn receipt_file_url(run_id: Seq<char>, file: Seq<char>) -> Seq<char> {
    "/runs/receipts/"@ + run_id + "/"@ + file
}

/// The head of the summary of a receipt: the run and its goal, whether it
/// succeeded, its bits, and the view of the run where it has one.
pub open spec fn receipt_head(
    run_id: Seq<char>,
    goal_id: Seq<char>,
    bits: Bits,
    evidence: JsonView,
    default_success: bool,
) -> Seq<char> {
    "# RECEIPT\n\n"@ + "- run_id: `"@ + run_id + "`\n"@ + "- goal_id: `"@ + goal_id + "`\n"@
        + "- success: `"@ + bool_text(receipt_success(evidence, default_success)) + "`\n"@
        + bits_line(bits) + (match receipt_view(evidence) {
        Some(u) => "- view: `"@ + u + "`\n"@,
        None => Seq::<char>::empty(),
    })
}

/// The line of a receipt that gives the nine bits of the run, in the order
/// a, u, p, e, d, i, r, t, m.
pub open spec fn bits_line(bits: Bits) -> Seq<char> {
    "- bits: a="@ + plain(bits.a as int) + " u="@ + plain(bits.u as int) + " p="@ + plain(
        bits.p as int,
    ) + " e="@ + plain(bits.e as int) + " d="@ + plain(bits.d as int) + " i="@ + plain(
        bits.i as int,
    ) + " r="@ + plain(bits.r as int) + " t="@ + plain(bits.t as int) + " m="@ + plain(
        bits.m as int,
    ) + "\n"@
}

/// The part of the summary of a receipt that lists its files.
pub open spec fn receipt_listing(run_id: Seq<char>, evidence: JsonView) -> Seq<char> {
    "\n## Files\n"@ + "- request: `"@ + receipt_file_url(run_id, "request.json"@) + "`\n"@
        + "- response: `"@ + receipt_file_url(run_id, "response.json"@) + "`\n"@ + "- receipt: `"@
        + receipt_file_url(run_id, "RECEIPT.md"@) + "`\n"@ + (if evidence.text_at("stdout"@)
        is Some {
        "- stdout: `"@ + receipt_file_url(run_id, "stdout.txt"@) + "`\n"@
    } else {
        Seq::<char>::empty()
    }) + (if kept_reply(evidence) is Some {
        "- reply: `"@ + receipt_file_url(run_id, "reply.txt"@) + "`\n"@
    } else {
        Seq::<char>::empty()
    })
}

/// The part of the summary of a receipt that lists what the run delivered;
/// empty where it delivered nothing.
pub open spec fn receipt_deliverables(deliverables: Seq<Seq<char>>) -> Seq<char> {
    if deliverables.len() > 0 {
        "\n## Deliverables\n"@ + bullets(deliverables)
    } else {
        Seq::<char>::empty()
    }
}

/// The summary of a receipt: its head, the files of the receipt, and what the
/// run delivered.
pub open spec fn receipt_md(
    run_id: Seq<char>,
    goal_id: Seq<char>,
    bits: Bits,
    deliverables: Seq<Seq<char>>,
    evidence: JsonView,
    default_success: bool,
) -> Seq<char> {
    receipt_head(run_id, goal_id, bits, evidence, default_success) + receipt_listing(
        run_id,
        evidence,
    ) + receipt_deliverables(deliverables)
}

/// The files of a receipt, by name and content: the request, the response,
/// the standard output and the reply where the evidence has them, and the
/// summary.
pub open spec fn receipt_files(
    run_id: Seq<char>,
    goal_id: Seq<char>,
    bits: Bits,
    deliverables: Seq<Seq<char>>,
    evidence: JsonView,
    default_success: bool,
    request: Seq<char>,
    response: Seq<char>,
) -> Seq<(Seq<char>, Seq<char>)> {
    seq![("request.json"@, request), ("response.json"@, response)] + (match evidence.text_at(
        "stdout"@,
    ) {
        Some(s) => seq![("stdout.txt"@, s)],
        None => Seq::<(Seq<char>, Seq<char>)>::empty(),
    }) + (match kept_reply(evidence) {
        Some(s) => seq![("reply.txt"@, s)],
        None => Seq::<(Seq<char>, Seq<char>)>::empty(),
    }) + seq![
        ("RECEIPT.md"@, receipt_md(run_id, goal_id, bits, deliverables, evidence, default_success)),
    ]
}

/// The names and contents of a list of files.
pub open spec fn files_view(files: Seq<ReceiptFile>) -> Seq<(Seq<char>, Seq<char>)> {
    Seq::new(files.len(), |i: int| (files[i].name@, files[i].content@))
}

/// The directory of the receipt of a run, under the root directory `root`.
pub open spec fn receipt_dir_of(root: Seq<char>, run_id: Seq<char>) -> Seq<char> {
    joined(joined(root, "runs/receipts"@), run_id)
}

/// The directory of the receipt of a run; none for an identifier that is no
/// safe segment.
pub fn receipt_dir(root: &str, run_id: &str) -> (r: Option<String>)
    ensures
        match r {
            Some(dir) => safe_segment(run_id@) && dir@ == receipt_dir_of(root@, run_id@),
            None => !safe_segment(run_id@),
        },
{
    if !is_safe_segment(run_id) {
        return None;
    }
    let base = join_path(root, "runs/receipts");
    Some(join_path(base.as_str(), run_id))
}

/// The line of a receipt that gives the nine bits of the run.
pub fn bits_line_of(bits: &Bits) -> (md: Vec<char>)
    ensures
        md@ == bits_line(*bits),
{
    let mut md = chars_of("- bits: a=");
    push_plain(&mut md, bits.a);
    push_str(&mut md, " u=");
    push_plain(&mut md, bits.u);
    push_str(&mut md, " p=");
    push_plain(&mut md, bits.p);
    push_str(&mut md, " e=");
    push_plain(&mut md, bits.e);
    push_str(&mut md, " d=");
    push_plain(&mut md, bits.d);
    push_str(&mut md, " i=");
    push_plain(&mut md, bits.i);
    push_str(&mut md, " r=");
    push_plain(&mut md, bits.r);
    push_str(&mut md, " t=");
    push_plain(&mut md, bits.t);
    push_str(&mut md, " m=");
    push_plain(&mut md, bits.m);
    push_str(&mut md, "\n");
    md
}

/// A line of a receipt that holds `value` between `before` and `after`.
pub fn line_of(before: &str, value: &str, after: &str) -> (md: Vec<char>)
    ensures
        md@ == before@ + value@ + after@,
{
    let mut md = chars_of(before);
    push_str(&mut md, value);
    push_str(&mut md, after);
    md
}

/// The head of the summary of a receipt.
pub fn receipt_head_of(
    run_id: &str,
    goal_id: &str,
    bits: &Bits,
    evidence: &Json,
    default_success: bool,
) -> (md: Vec<char>)
    ensures
        md@ == receipt_head(run_id@, goal_id@, *bits, evidence@, default_success),
{
    let actual = match evidence.bool_at("actual_success") {
        Some(b) => b,
        None => default_success,
    };
    let view = match evidence.str_at("static_html_url") {
        Some(u) => Some(u),
        None => evidence.str_at("index_html_url"),
    };
    let mut md = chars_of("# RECEIPT\n\n");
    push_str(&mut md, "- run_id: `");
    push_str(&mut md, run_id);
    push_str(&mut md, "`\n");
    push_str(&mut md, "- goal_id: `");
    push_str(&mut md, goal_id);
    push_str(&mut md, "`\n");
    push_str(&mut md, "- success: `");
    if actual {
        push_str(&mut md, "true");
    } else {
        push_str(&mut md, "false");
    }
    push_str(&mut md, "`\n");
    push_all(&mut md, &bits_line_of(bits));
    let view_line: Vec<char> = match view {
        Some(u) => line_of("- view: `", u, "`\n"),
        None => Vec::new(),
    };
    push_all(&mut md, &view_line);
    md
}

/// A line of a receipt that points to one of its files.
pub fn file_line_of(label: &str, run_id: &str, file: &str) -> (md: Vec<char>)
    ensures
        md@ == label@ + receipt_file_url(run_id@, file@) + "`\n"@,
{
    let mut md = chars_of(label);
    let mut url = chars_of("/runs/receipts/");
    push_str(&mut url, run_id);
    push_str(&mut url, "/");
    push_str(&mut url, file);
    push_all(&mut md, &url);
    push_str(&mut md, "`\n");
    md
}

/// The part of the summary of a receipt that lists its files.
pub fn receipt_listing_of(run_id: &str, evidence: &Json) -> (md: Vec<char>)
    ensures
        md@ == receipt_listing(run_id@, evidence@),
{
    let wrote_stdout = evidence.str_at("stdout").is_some();
    let wrote_reply = match evidence.str_at("reply") {
        Some(s) => !is_blank_str(s),
        None => false,
    };
    let mut md = chars_of("\n## Files\n");
    push_str(&mut md, "- request: `");
    let mut url = chars_of("/runs/receipts/");
    push_str(&mut url, run_id);
    push_str(&mut url, "/");
    push_str(&mut url, "request.json");
    push_all(&mut md, &url);
    push_str(&mut md, "`\n");
    push_str(&mut md, "- response: `");
    let mut url = chars_of("/runs/receipts/");
    push_str(&mut url, run_id);
    push_str(&mut url, "/");
    push_str(&mut url, "response.json");
    push_all(&mut md, &url);
    push_str(&mut md, "`\n");
    push_str(&mut md, "- receipt: `");
    let mut url = chars_of("/runs/receipts/");
    push_str(&mut url, run_id);
    push_str(&mut url, "/");
    push_str(&mut url, "RECEIPT.md");
    push_all(&mut md, &url);
    push_str(&mut md, "`\n");
    let stdout_line: Vec<char> = if wrote_stdout {
        file_line_of("- stdout: `", run_id, "stdout.txt")
    } else {
        Vec::new()
    };
    push_all(&mut md, &stdout_line);
    let reply_line: Vec<char> = if wrote_reply {
        file_line_of("- reply: `", run_id, "reply.txt")
    } else {
        Vec::new()
    };
    push_all(&mut md, &reply_line);
    md
}

/// The part of the summary of a receipt that lists what the run delivered.
pub fn receipt_deliverables_of(deliverables: &Vec<String>) -> (md: Vec<char>)
    ensures
        md@ == receipt_deliverables(views(deliverables@)),
{
    if deliverables.len() == 0 {
        return Vec::new();
    }
    let mut list: Vec<char> = Vec::new();
    let mut i: usize = 0;
    assert(views(deliverables@).take(0) =~= Seq::<Seq<char>>::empty());
    while i < deliverables.len()
        invariant
            i <= deliverables.len(),
            list@ == bullets(views(deliverables@).take(i as int)),
        decreases deliverables.len() - i,
    {
        push_str(&mut list, "- ");
        push_str(&mut list, deliverables[i].as_str());
        push_str(&mut list, "\n");
        proof {
            let all = views(deliverables@);
            assert(all.take(i + 1).drop_last() =~= all.take(i as int));
            assert(all.take(i + 1).last() == deliverables@[i as int]@);
        }
        i += 1;
    }
    assert(views(deliverables@).take(deliverables@.len() as int) =~= views(deliverables@));
    let mut md = chars_of("\n## Deliverables\n");
    push_all(&mut md, &list);
    md
}

/// The summary of a receipt.
pub fn render_receipt_md(
    run_id: &str,
    goal_id: &str,
    bits: &Bits,
    deliverables: &Vec<String>,
    evidence: &Json,
    default_success: bool,
) -> (r: String)
    ensures
        r@ == receipt_md(
            run_id@,
            goal_id@,
            *bits,
            views(deliverables@),
            evidence@,
            default_success,
        ),
{
    let mut md = receipt_head_of(run_id, goal_id, bits, evidence, default_success);
    push_all(&mut md, &receipt_listing_of(run_id, evidence));
    push_all(&mut md, &receipt_deliverables_of(deliverables));
    text_of(&md)
}

/// The files of the receipt of a run, for the caller to write into the
/// directory of the receipt, in this order. `request` and `response` are the
/// request and the response of the run as they are to be stored.
///
/// A run whose identifier is no safe segment gets no receipt: nothing is to
/// be written for it.
pub fn receipt_bundle(
    run_id: &str,
    goal_id: &str,
    bits: &Bits,
    deliverables: &Vec<String>,
    evidence: &Json,
    default_success: bool,
    request: &str,
    response: &str,
) -> (r: Option<Vec<ReceiptFile>>)
    ensures
        r is Some <==> safe_segment(run_id@),
        r matches Some(files) ==> files_view(files@) == receipt_files(
            run_id@,
            goal_id@,
            *bits,
            views(deliverables@),
            evidence@,
            default_success,
            request@,
            response@,
        ),
{
    if !is_safe_segment(run_id) {
        return None;
    }
    let mut files: Vec<ReceiptFile> = Vec::new();
    files.push(ReceiptFile { name: "request.json".to_owned(), content: request.to_owned() });
    files.push(ReceiptFile { name: "response.json".to_owned(), content: response.to_owned() });
    if let Some(s) = evidence.str_at("stdout") {
        files.push(ReceiptFile { name: "stdout.txt".to_owned(), content: s.to_owned() });
    }
    if let Some(s) = evidence.str_at("reply") {
        if !is_blank_str(s) {
            files.push(ReceiptFile { name: "reply.txt".to_owned(), content: s.to_owned() });
        }
    }
    let md = render_receipt_md(run_id, goal_id, bits, deliverables, evidence, default_success);
    files.push(ReceiptFile { name: "RECEIPT.md".to_owned(), content: md });
    assert(files_view(files@) =~= receipt_files(
        run_id@,
        goal_id@,
        *bits,
        views(deliverables@),
        evidence@,
        default_success,
        request@,
        response@,
    ));
    Some(files)
}

/// `name` is the name of a file of a receipt.
pub open spec fn receipt_name(name: Seq<char>) -> bool {
    name == "request.json"@ || name == "response.json"@ || name == "stdout.txt"@ || name
        == "reply.txt"@ || name == "RECEIPT.md"@
}

/// A receipt holds files of five fixed names only, the summary among them:
/// whatever a run delivers, its receipt stays within its own directory.
pub proof fn law_receipt_stays_in_its_directory(
    run_id: Seq<char>,
    goal_id: Seq<char>,
    bits: Bits,
    deliverables: Seq<Seq<char>>,
    evidence: JsonView,
    default_success: bool,
    request: Seq<char>,
    response: Seq<char>,
)
    ensures
        forall|i: int|
            0 <= i < receipt_files(
                run_id,
                goal_id,
                bits,
                deliverables,
                evidence,
                default_success,
                request,
                response,
            ).len() ==> receipt_name(
                (#[trigger] receipt_files(
                    run_id,
                    goal_id,
                    bits,
                    deliverables,
                    evidence,
                    default_success,
                    request,
                    response,
                )[i]).0,
            ),
{
}

/// The bits of the placeholder receipt of an accepted run: the initial bits
/// with a low uncertainty.
pub open spec fn stub_bits() -> Bits {
    Bits { u: 200_000, ..Bits::initial() }
}

/// The evidence of the placeholder receipt of an accepted run.
pub open spec fn stub_evidence(run_id: Seq<char>, goal_id: Seq<char>) -> JsonView {
    JsonView::Object(
        seq![
            ("actual_success"@, JsonView::Bool(false)),
            ("expected_success"@, JsonView::Bool(true)),
            ("goal_id"@, JsonView::Text(goal_id)),
            ("run_id"@, JsonView::Text(run_id)),
            ("status"@, JsonView::Text("queued"@)),
        ],
    )
}

/// A run that was accepted for the background: the response to the caller,
/// and the bits and evidence of its placeholder receipt.
pub struct Accepted {
    pub response: RunAsyncResp,
    pub bits: Bits,
    pub evidence: Json,
}

/// `accepted` is the acceptance of a run of the goal `goal_id` under the
/// identifier `run_id`: queued, with the addresses of its receipt and its
/// progress stream.
pub open spec fn accepts(accepted: Accepted, run_id: Seq<char>, goal_id: Seq<char>) -> bool {
    &&& accepted.response.run_id@ == run_id
    &&& accepted.response.goal_id@ == goal_id
    &&& accepted.response.status@ == "queued"@
    &&& accepted.response.receipt_url@ == receipt_url_of(run_id)
    &&& accepted.response.sse_url@ == sse_url_of(run_id)
    &&& accepted.bits == stub_bits()
    &&& accepted.evidence@ == stub_evidence(run_id, goal_id)
}

/// The identifier that a request asks for, where it asks for one.
pub open spec fn asked_id(requested: Option<&str>) -> Option<Seq<char>> {
    match requested {
        Some(id) => Some(id@),
        None => None,
    }
}

/// `accepted` is the acceptance of a run of the goal `goal_id` at the time
/// `ts`, for which the identifier `requested` was asked and the fresh
/// identifier `fresh` was drawn: the run is known under the identifier
/// that was asked for, where that is a safe segment, else under one made
/// from the fresh identifier; and `after` is the registry `before` with
/// the run registered as queued.
pub open spec fn accepted_at(
    before: ActiveRuns,
    after: ActiveRuns,
    accepted: Accepted,
    requested: Option<Seq<char>>,
    goal_id: Seq<char>,
    fresh: Seq<char>,
    ts: Seq<char>,
) -> bool {
    &&& accepts(accepted, resolved_run_id(requested, fresh), goal_id)
    &&& registered(before, after, resolved_run_id(requested, fresh), goal_id, "queued"@, ts)
}

/// Accepts a run for the background: resolves its identifier, registers it
/// as queued at the time `ts`, and prepares the response and the placeholder
/// receipt, so that the addresses in the response can be served at once.
pub fn accept_async_with(
    registry: &mut ActiveRuns,
    requested: Option<&str>,
    goal_id: &str,
    fresh_id: &str,
    ts: &str,
) -> (accepted: Accepted)
    requires
        old(registry).wf(),
    ensures
        final(registry).wf(),
        accepted_at(
            *old(registry),
            *final(registry),
            accepted,
            asked_id(requested),
            goal_id@,
            fresh_id@,
            ts@,
        ),
{
    let run_id = resolve_run_id(requested, fresh_id);
    set_active_run(registry, run_id.as_str(), goal_id, "queued", ts);
    let bits = Bits {
        a: 1_000_000,
        u: 200_000,
        p: 1_000_000,
        e: 0,
        d: 0,
        i: 0,
        r: 0,
        t: 500_000,
        m: 0,
    };
    let mut e: Vec<(String, Json)> = Vec::new();
    put(&mut e, "actual_success", Json::Bool(false));
    put(&mut e, "expected_success", Json::Bool(true));
    put(&mut e, "goal_id", Json::text(goal_id));
    put(&mut e, "run_id", Json::text(run_id.as_str()));
    put(&mut e, "status", Json::text("queued"));
    assert(entries_view(e@) =~= stub_evidence(run_id@, goal_id@)->Object_0);
    let response = RunAsyncResp {
        receipt_url: receipt_url(run_id.as_str()),
        sse_url: sse_url(run_id.as_str()),
        run_id,
        goal_id: goal_id.to_owned(),
        status: "queued".to_owned(),
    };
    proof {
        lemma_position_bound(old(registry).runs@, response.run_id@);
    }
    Accepted { response, bits, evidence: Json::Object(e) }
}

/// A position is never negative, and never beyond the runs.
pub proof fn lemma_position_bound(runs: Seq<ActiveRun>, id: Seq<char>)
    ensures
        0 <= position(runs, id) <= runs.len(),
    decreases runs.len(),
{
    if runs.len() > 0 && runs[0].run_id@ != id {
        lemma_position_bound(runs.drop_first(), id);
    }
}

/// Accepts a run for the background: draws a fresh identifier, reads the
/// clock, and accepts the run with them as `accept_async_with` does. The run
/// is known under a safe identifier and registered as queued.
pub fn accept_async(registry: &mut ActiveRuns, requested: Option<&str>, goal_id: &str) -> (accepted:
    Accepted)
    requires
        old(registry).wf(),
    ensures
        final(registry).wf(),
        safe_segment(accepted.response.run_id@),
        exists|fresh: Seq<char>, ts: Seq<char>|
            hyphenated(fresh) && #[trigger] accepted_at(
                *old(registry),
                *final(registry),
                accepted,
                asked_id(requested),
                goal_id@,
                fresh,
                ts,
            ),
{
    let fresh = fresh_uuid();
    let now = clock_now();
    let accepted = accept_async_with(registry, requested, goal_id, fresh.as_str(), now.stamp.as_str());
    proof {
        law_run_id_is_safe(asked_id(requested), fresh@);
        assert(accepted_at(
            *old(registry),
            *registry,
            accepted,
            asked_id(requested),
            goal_id@,
            fresh@,
            now.stamp@,
        ));
    }
    accepted
}

/// What is kept of a run on the background path always tells how far the
/// run is: the response to an accepted run says that the run is queued, and
/// the response to a run that has ended, with a result or with an error,
/// holds a manifest.
pub proof fn law_background_receipt_tells_the_state(
    accepted: Accepted,
    run_id: Seq<char>,
    goal_id: Seq<char>,
    ended: RunResp,
)
    requires
        accepts(accepted, run_id, goal_id),
    ensures
        run_async_resp_view(accepted.response).text_at("status"@) == Some("queued"@),
        accepted.evidence@.text_at("status"@) == Some("queued"@),
        run_resp_view(ended).get("manifest"@) == Some(manifest_view(ended.manifest)),
{
    reveal_strlit("run_id");
    reveal_strlit("goal_id");
    reveal_strlit("status");
    reveal_strlit("manifest");
    reveal_strlit("actual_success");
    reveal_strlit("expected_success");
    let a = run_async_resp_view(accepted.response)->Object_0;
    assert(a[0].0 != "status"@) by {
        assert("run_id"@[0] == 'r' && "status"@[0] == 's');
    }
    assert(a[1].0 != "status"@) by {
        assert("goal_id"@[0] == 'g' && "status"@[0] == 's');
    }
    crate::json::lemma_lookup_at(a, "status"@, 2);
    let e = stub_evidence(run_id, goal_id)->Object_0;
    assert(e[0].0 != "status"@) by {
        assert("actual_success"@[0] == 'a' && "status"@[0] == 's');
    }
    assert(e[1].0 != "status"@) by {
        assert("expected_success"@[0] == 'e' && "status"@[0] == 's');
    }
    assert(e[2].0 != "status"@) by {
        assert("goal_id"@[0] == 'g' && "status"@[0] == 's');
    }
    assert(e[3].0 != "status"@) by {
        assert("run_id"@[0] == 'r' && "status"@[0] == 's');
    }
    crate::json::lemma_lookup_at(e, "status"@, 4);
    let r = run_resp_view(ended)->Object_0;
    crate::json::lemma_lookup_at(r, "manifest"@, 0);
}

/// The evidence of a run whose dispatch failed.
pub open spec fn failure_evidence(error: Seq<char>) -> JsonView {
    JsonView::Object(
        seq![
            ("actual_success"@, JsonView::Bool(false)),
            ("error"@, JsonView::Text(error)),
            ("expected_success"@, JsonView::Bool(true)),
        ],
    )
}

/// The bits of a run whose dispatch failed: full error, full uncertainty, no
/// trust.
pub open spec fn failure_bits() -> Bits {
    Bits { e: 1_000_000, u: 1_000_000, t: 0, ..Bits::initial() }
}

/// The response for a background run whose dispatch failed: a manifest that
/// carries the error, so that the run still ends with a receipt.
pub fn failed_run(run_id: &str, goal_id: &str, error: &str) -> (resp: RunResp)
    ensures
        resp.bits == failure_bits(),
        resp.pr_created is None,
        resp.meta2_proposal is None,
        crate::engine::run::manifest_is(
            resp.manifest,
            run_id@,
            goal_id@,
            Seq::<Seq<char>>::empty(),
            failure_evidence(error@),
            failure_bits(),
        ),
{
    let bits = Bits {
        a: 1_000_000,
        u: 1_000_000,
        p: 1_000_000,
        e: 1_000_000,
        d: 0,
        i: 0,
        r: 0,
        t: 0,
        m: 0,
    };
    let mut e: Vec<(String, Json)> = Vec::new();
    put(&mut e, "actual_success", Json::Bool(false));
    put(&mut e, "error", Json::text(error));
    put(&mut e, "expected_success", Json::Bool(true));
    assert(entries_view(e@) =~= failure_evidence(error@)->Object_0);
    let deliverables: Vec<String> = Vec::new();
    assert(views(deliverables@) =~= Seq::<Seq<char>>::empty());
    let manifest = Manifest {
        run_id: run_id.to_owned(),
        goal_id: goal_id.to_owned(),
        deliverables,
        evidence: Json::Object(e),
        bits,
    };
    RunResp { manifest, bits, pr_created: None, meta2_proposal: None }
}

/// The response for a run that ended with a manifest: the manifest under the
/// identifier by which the caller knows the run.
pub fn finished_run(
    run_id: &str,
    manifest: Manifest,
    bits: Bits,
    pr_created: Option<String>,
    meta2_proposal: Option<String>,
) -> (resp: RunResp)
    ensures
        resp.manifest.run_id@ == run_id@,
        resp.manifest.goal_id == manifest.goal_id,
        resp.manifest.deliverables == manifest.deliverables,
        resp.manifest.evidence == manifest.evidence,
        resp.manifest.bits == manifest.bits,
        resp.bits == bits,
        resp.pr_created == pr_created,
        resp.meta2_proposal == meta2_proposal,
{
    let Manifest { run_id: _, goal_id, deliverables, evidence, bits: manifest_bits } = manifest;
    RunResp {
        manifest: Manifest {
            run_id: run_id.to_owned(),
            goal_id,
            deliverables,
            evidence,
            bits: manifest_bits,
        },
        bits,
        pr_created,
        meta2_proposal,
    }
}

/// The input of a run with the identifier of the run in its field
/// `__run_id`, so that behaviors can name what they write after the run. An
/// input that is no object is left as it is.
pub open spec fn with_run_id(inputs: JsonView, run_id: Seq<char>) -> JsonView {
    inputs.with("__run_id"@, JsonView::Text(run_id))
}

/// The input of a run with the identifier of the run in its field
/// `__run_id`.
pub fn inject_run_id(inputs: Json, run_id: &str) -> (r: Json)
    ensures
        r@ == with_run_id(inputs@, run_id@),
{
    set_field(inputs, "__run_id", Json::text(run_id))
}

/// A value within bounds: `x`, at least `low` and at most `high`.
pub open spec fn within(x: u64, low: u64, high: u64) -> u64 {
    if x < low {
        low
    } else if x > high {
        high
    } else {
        x
    }
}

/// The plan of a waiting run: how long it waits, how often it reports, and
/// under which label.
#[derive(Debug)]
pub struct DemoWait {
    pub seconds: u64,
    pub tick_ms: u64,
    pub label: String,
    pub total_ticks: u64,
}

impl DemoWait {
    /// The plan is within its bounds.
    pub open spec fn wf(&self) -> bool {
        1 <= self.total_ticks <= 36_000 && self.tick_ms <= 5000
    }

    /// Whether the plan is within its bounds.
    pub fn is_wf(&self) -> (r: bool)
        ensures
            r == self.wf(),
    {
        1 <= self.total_ticks && self.total_ticks <= 36_000 && self.tick_ms <= 5000
    }
}

/// The seconds that a waiting run waits: what the input asks for, thirty by
/// default, at least one and at most an hour.
pub open spec fn wait_seconds(inputs: JsonView) -> u64 {
    within(
        match inputs.u64_at("seconds"@) {
            Some(n) => n,
            None => 30,
        },
        1,
        3600,
    )
}

/// The milliseconds between two reports of a waiting run: what the input
/// asks for, a thousand by default, at least a hundred and at most five
/// thousand.
pub open spec fn wait_tick_ms(inputs: JsonView) -> u64 {
    within(
        match inputs.u64_at("tick_ms"@) {
            Some(n) => n,
            None => 1000,
        },
        100,
        5000,
    )
}

/// The number of pauses of a waiting run: as many as cover its time, and at
/// least one.
pub open spec fn wait_ticks(seconds: u64, tick_ms: u64) -> int {
    let n = (seconds * 1000 + tick_ms - 1) / (tick_ms as int);
    if n < 1 {
        1
    } else {
        n
    }
}

/// The plan of a waiting run, from its input.
pub fn plan_demo_wait(inputs: &Json) -> (plan: DemoWait)
    ensures
        plan.seconds == wait_seconds(inputs@),
        plan.tick_ms == wait_tick_ms(inputs@),
        plan.label@ == crate::json::text_or(inputs@, "label"@, "demo.wait"@),
        plan.total_ticks == wait_ticks(plan.seconds, plan.tick_ms),
        plan.wf(),
        1 <= plan.seconds <= 3600,
        100 <= plan.tick_ms <= 5000,
        1 <= plan.total_ticks <= 36_000,
{
    let asked = match inputs.u64_at("seconds") {
        Some(n) => n,
        None => 30,
    };
    let seconds: u64 = if asked < 1 {
        1
    } else if asked > 3600 {
        3600
    } else {
        asked
    };
    let asked_tick = match inputs.u64_at("tick_ms") {
        Some(n) => n,
        None => 1000,
    };
    let tick_ms: u64 = if asked_tick < 100 {
        100
    } else if asked_tick > 5000 {
        5000
    } else {
        asked_tick
    };
    let total_ms: u64 = seconds * 1000;
    let n: u64 = (total_ms + tick_ms - 1) / tick_ms;
    let total_ticks: u64 = if n < 1 {
        1
    } else {
        n
    };
    assert(n <= 36_000) by (nonlinear_arith)
        requires
            n == (total_ms + tick_ms - 1) / (tick_ms as int),
            total_ms <= 3_600_000,
            100 <= tick_ms <= 5000,
    ;
    DemoWait { seconds, tick_ms, label: inputs.text_or("label", "demo.wait"), total_ticks }
}

/// The share of the wait that is over at the report `i`, as a level.
pub open spec fn wait_pct(i: u64, total: u64) -> int {
    if i >= total {
        1_000_000
    } else {
        (i * 1_000_000) / (total as int)
    }
}

/// The seconds that are left at the report `i`, rounded up.
pub open spec fn wait_eta(i: u64, total: u64, tick_ms: u64) -> int {
    ((if i >= total {
        0
    } else {
        total - i
    }) * tick_ms + 999) / 1000
}

/// The report `i` of a waiting run.
pub open spec fn tick_payload(
    run_id: Seq<char>,
    goal_id: Seq<char>,
    plan: DemoWait,
    i: u64,
) -> JsonView {
    JsonView::Object(
        seq![
            (
                "extra"@,
                JsonView::Object(
                    seq![
                        ("eta_s"@, JsonView::Int(wait_eta(i, plan.total_ticks, plan.tick_ms))),
                        ("i"@, JsonView::Int(i as int)),
                        ("label"@, JsonView::Text(plan.label@)),
                        ("pct"@, JsonView::Real(wait_pct(i, plan.total_ticks))),
                        ("tick_ms"@, JsonView::Int(plan.tick_ms as int)),
                        ("total"@, JsonView::Int(plan.total_ticks as int)),
                    ],
                ),
            ),
            ("goal_id"@, JsonView::Text(goal_id)),
            ("phase"@, JsonView::Text("tick"@)),
            ("run_id"@, JsonView::Text(run_id)),
        ],
    )
}

/// The report `i` of a waiting run.
pub fn tick_event(run_id: &str, goal_id: &str, plan: &DemoWait, i: u64) -> (r: Json)
    requires
        plan.wf(),
        i <= plan.total_ticks,
    ensures
        r@ == tick_payload(run_id@, goal_id@, *plan, i),
{
    let total = plan.total_ticks;
    let pct: u64 = if i >= total {
        1_000_000
    } else {
        (i * 1_000_000) / total
    };
    let left: u64 = if i >= total {
        0
    } else {
        total - i
    };
    assert(left * plan.tick_ms <= 180_000_000) by (nonlinear_arith)
        requires
            left <= 36_000,
            plan.tick_ms <= 5000,
    ;
    let eta: u64 = (left * plan.tick_ms + 999) / 1000;
    let mut x: Vec<(String, Json)> = Vec::new();
    put(&mut x, "eta_s", Json::Nat(eta));
    put(&mut x, "i", Json::Nat(i));
    put(&mut x, "label", Json::text(plan.label.as_str()));
    put(&mut x, "pct", Json::Real(pct as i64));
    put(&mut x, "tick_ms", Json::Nat(plan.tick_ms));
    put(&mut x, "total", Json::Nat(total));
    assert(entries_view(x@) =~= seq![
        ("eta_s"@, JsonView::Int(wait_eta(i, plan.total_ticks, plan.tick_ms))),
        ("i"@, JsonView::Int(i as int)),
        ("label"@, JsonView::Text(plan.label@)),
        ("pct"@, JsonView::Real(wait_pct(i, plan.total_ticks))),
        ("tick_ms"@, JsonView::Int(plan.tick_ms as int)),
        ("total"@, JsonView::Int(plan.total_ticks as int)),
    ]);
    let mut e: Vec<(String, Json)> = Vec::new();
    put(&mut e, "extra", Json::Object(x));
    put(&mut e, "goal_id", Json::text(goal_id));
    put(&mut e, "phase", Json::text("tick"));
    put(&mut e, "run_id", Json::text(run_id));
    assert(entries_view(e@) =~= tick_payload(run_id@, goal_id@, *plan, i)->Object_0);
    Json::Object(e)
}

/// One beat of a waiting run: an event to publish, and the pause after it.
pub struct Beat {
    pub event: Json,
    pub pause_ms: u64,
}

/// The beat at the place `k` of the script of a waiting run: the phases
/// `plan` and `act`, then one report for each tick from zero to the last,
/// with a pause after each but the last, then the phases `verify` and `done`.
pub open spec fn beat_at(
    run_id: Seq<char>,
    goal_id: Seq<char>,
    plan: DemoWait,
    k: int,
) -> (JsonView, u64) {
    if k == 0 {
        (phase_payload(run_id, goal_id, "plan"@), 0)
    } else if k == 1 {
        (phase_payload(run_id, goal_id, "act"@), 0)
    } else if k <= plan.total_ticks + 2 {
        (
            tick_payload(run_id, goal_id, plan, (k - 2) as u64),
            if k - 2 < plan.total_ticks {
                plan.tick_ms
            } else {
                0
            },
        )
    } else if k == plan.total_ticks + 3 {
        (phase_payload(run_id, goal_id, "verify"@), 0)
    } else {
        (phase_payload(run_id, goal_id, "done"@), 0)
    }
}

/// The script of a waiting run: the events to publish, in order, each with
/// the pause that follows it. The caller publishes and sleeps.
pub fn demo_wait_script(run_id: &str, goal_id: &str, plan: &DemoWait) -> (script: Vec<Beat>)
    requires
        plan.wf(),
    ensures
        script@.len() == plan.total_ticks + 5,
        forall|k: int|
            0 <= k < script@.len() ==> ((#[trigger] script@[k]).event@, script@[k].pause_ms)
                == beat_at(run_id@, goal_id@, *plan, k),
{
    let mut script: Vec<Beat> = Vec::new();
    script.push(Beat { event: phase_event(run_id, goal_id, "plan"), pause_ms: 0 });
    script.push(Beat { event: phase_event(run_id, goal_id, "act"), pause_ms: 0 });
    let mut i: u64 = 0;
    while i <= plan.total_ticks
        invariant
            i <= plan.total_ticks + 1,
            plan.wf(),
            script@.len() == i + 2,
            forall|k: int|
                0 <= k < script@.len() ==> ((#[trigger] script@[k]).event@, script@[k].pause_ms)
                    == beat_at(run_id@, goal_id@, *plan, k),
        decreases plan.total_ticks + 1 - i,
    {
        let pause_ms = if i < plan.total_ticks {
            plan.tick_ms
        } else {
            0
        };
        script.push(Beat { event: tick_event(run_id, goal_id, plan, i), pause_ms });
        i += 1;
    }
    script.push(Beat { event: phase_event(run_id, goal_id, "verify"), pause_ms: 0 });
    script.push(Beat { event: phase_event(run_id, goal_id, "done"), pause_ms: 0 });
    script
}

/// The evidence of a waiting run.
pub open spec fn wait_evidence(plan: DemoWait) -> JsonView {
    JsonView::Object(
        seq![
            ("actual_success"@, JsonView::Bool(true)),
            ("expected_success"@, JsonView::Bool(true)),
            ("label"@, JsonView::Text(plan.label@)),
            ("seconds"@, JsonView::Int(plan.seconds as int)),
            ("tick_ms"@, JsonView::Int(plan.tick_ms as int)),
        ],
    )
}

/// The bits of a waiting run: the initial bits with a low uncertainty and a
/// high trust.
pub open spec fn wait_bits() -> Bits {
    Bits { u: 200_000, t: 950_000, ..Bits::initial() }
}

/// The response for a waiting run that has waited.
pub fn finish_demo_wait(run_id: &str, goal_id: &str, plan: &DemoWait) -> (resp: RunResp)
    ensures
        resp.bits == wait_bits(),
        resp.pr_created is None,
        resp.meta2_proposal is None,
        crate::engine::run::manifest_is(
            resp.manifest,
            run_id@,
            goal_id@,
            Seq::<Seq<char>>::empty(),
            wait_evidence(*plan),
            wait_bits(),
        ),
{
    let bits = Bits {
        a: 1_000_000,
        u: 200_000,
        p: 1_000_000,
        e: 0,
        d: 0,
        i: 0,
        r: 0,
        t: 950_000,
        m: 0,
    };
    let mut e: Vec<(String, Json)> = Vec::new();
    put(&mut e, "actual_success", Json::Bool(true));
    put(&mut e, "expected_success", Json::Bool(true));
    put(&mut e, "label", Json::text(plan.label.as_str()));
    put(&mut e, "seconds", Json::Nat(plan.seconds));
    put(&mut e, "tick_ms", Json::Nat(plan.tick_ms));
    assert(entries_view(e@) =~= wait_evidence(*plan)->Object_0);
    let deliverables: Vec<String> = Vec::new();
    assert(views(deliverables@) =~= Seq::<Seq<char>>::empty());
    let manifest = Manifest {
        run_id: run_id.to_owned(),
        goal_id: goal_id.to_owned(),
        deliverables,
        evidence: Json::Object(e),
        bits,
    };
    RunResp { manifest, bits, pr_created: None, meta2_proposal: None }
}

/// The description of the interface: what it is called, what it does, and
/// the paths it answers under.
#[derive(Debug)]
pub struct ApiDoc;

impl ApiDoc {
    /// The title of the interface.
    pub fn title() -> (r: &'static str)
        ensures
            r@ == "one-engine"@,
    {
        "one-engine"
    }

    /// The paths of the run lifecycle: the path of a synchronous run, of an
    /// asynchronous run, of the registry of active runs, and of the progress
    /// stream.
    pub fn lifecycle_paths() -> (r: Vec<&'static str>)
        ensures
            r@.len() == 4,
            r@[0]@ == "/run"@,
            r@[1]@ == "/run.async"@,
            r@[2]@ == "/runs.active.json"@,
            r@[3]@ == "/progress.sse"@,
    {
        let mut r: Vec<&'static str> = Vec::new();
        r.push("/run");
        r.push("/run.async");
        r.push("/runs.active.json");
        r.push("/progress.sse");
        r
    }
}

/// A text as it stands in a page of the engine: with the entities of HTML
/// in place of `&`, `<`, `>` and the two quotes.
pub fn escape_html(s: &str) -> (r: String)
    ensures
        r@ == crate::text::html_escaped(s@),
{
    crate::text::html_escape(s)
}

} // verus!
