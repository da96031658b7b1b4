//! The goal-execution kernel: bits, gates, executor rules and dispatch.
//!
//! A run is dispatched in steps. [`start`] classifies the goal, sets the
//! freshness and uncertainty bits and applies the admission gate. Where the
//! gate is closed an action ends at once with a request for clarification,
//! and any other goal fails; else `start` says what is to be done. The
//! caller does it and hands back what came of it; [`advance`] then either
//! asks for one more step or finishes the run with its manifest.

pub mod api_graph;
pub mod artifacts;
pub mod bits;
pub mod documents;
pub mod executor;
pub mod goals;
pub mod golden;
pub mod graphs;
pub mod kernel;
pub mod meta_prompt;
pub mod multiway;
pub mod pages;
pub mod policy;
pub mod receipts_graph;
pub mod router;
pub mod run;
pub mod thread_graph;
pub mod thread_pages;
pub mod thread_report;
pub mod types;
pub mod validate;
pub mod verify;
pub mod wiki;

use vstd::prelude::*;
use crate::ambient::{parse_rfc3339, rfc3339_instant};
use crate::json::{items_view, Json, JsonView};
use crate::text::{chars_of, contains_str, contains_text, lowercase, text_of, trim, trimmed};
use self::kernel::{ExtendedBits, KernelLoop};

verus! {

/// The number of entries that each history keeps.
pub const HISTORY_LIMIT: usize = 100;

/// The latest `HISTORY_LIMIT` entries of `s`.
pub open spec fn bounded<T>(s: Seq<T>) -> Seq<T> {
    if s.len() > HISTORY_LIMIT {
        s.skip(s.len() - HISTORY_LIMIT)
    } else {
        s
    }
}

/// The long-lived state of the kernel: its control parameters, the bounded
/// histories that the trend rule and the self snapshot read, and the
/// alignment boost of the validation score.
pub struct Kernel {
    pub control: KernelLoop,
    pub kpi_history: Vec<i64>,
    pub trace_history: Vec<ExtendedBits>,
    pub align_boost: i64,
}

impl Kernel {
    /// Both histories are within their bound, and every traced run has
    /// complete bits.
    pub open spec fn wf(&self) -> bool {
        &&& self.kpi_history@.len() <= HISTORY_LIMIT
        &&& self.trace_history@.len() <= HISTORY_LIMIT
        &&& forall|i: int|
            0 <= i < self.trace_history@.len() ==> (#[trigger] self.trace_history@[i]).complete()
    }

    /// A kernel with the initial control parameters and empty histories.
    pub fn new() -> (k: Self)
        ensures
            k.wf(),
            k.kpi_history@.len() == 0,
            k.trace_history@.len() == 0,
            k.align_boost == 0,
            k.control.l2_params.confidence_gate_tau == 700_000,
            k.control.l3_rules.evidence_coverage_min == 900_000,
            k.control.l3_rules.shadow_rollout_pct == 200_000,
    {
        Kernel {
            control: KernelLoop::new(),
            kpi_history: Vec::new(),
            trace_history: Vec::new(),
            align_boost: 0,
        }
    }

    /// Whether both histories are within their bound and every traced run
    /// has complete bits.
    pub fn is_wf(&self) -> (r: bool)
        ensures
            r == self.wf(),
    {
        if self.kpi_history.len() > HISTORY_LIMIT || self.trace_history.len() > HISTORY_LIMIT {
            return false;
        }
        let mut i: usize = 0;
        while i < self.trace_history.len()
            invariant
                i <= self.trace_history.len(),
                forall|j: int| 0 <= j < i ==> (#[trigger] self.trace_history@[j]).complete(),
            decreases self.trace_history.len() - i,
        {
            let b = &self.trace_history[i];
            if !(crate::level::is_in_unit(b.a) && crate::level::is_in_unit(b.u)
                && crate::level::is_in_unit(b.p) && crate::level::is_in_unit(b.e)
                && crate::level::is_in_unit(b.d) && crate::level::is_in_unit(b.i)
                && crate::level::is_in_unit(b.r) && crate::level::is_in_unit(b.t)
                && crate::level::is_in_unit(b.m)) {
                return false;
            }
            i += 1;
        }
        true
    }

    /// Appends a sample to the KPI history and drops the oldest one once the
    /// bound is passed.
    pub fn record_kpi(&mut self, sample: i64)
        requires
            old(self).wf(),
        ensures
            final(self).wf(),
            final(self).kpi_history@ == bounded(old(self).kpi_history@.push(sample)),
            final(self).trace_history == old(self).trace_history,
            final(self).control == old(self).control,
            final(self).align_boost == old(self).align_boost,
    {
        self.kpi_history.push(sample);
        if self.kpi_history.len() > HISTORY_LIMIT {
            self.kpi_history.remove(0);
        }
        assert(self.kpi_history@ =~= bounded(old(self).kpi_history@.push(sample)));
    }

    /// Appends the bits of a finished run to the trace history and drops the
    /// oldest entry once the bound is passed.
    pub fn record_trace(&mut self, bits: ExtendedBits)
        requires
            old(self).wf(),
            bits.complete(),
        ensures
            final(self).wf(),
            final(self).trace_history@ == bounded(old(self).trace_history@.push(bits)),
            final(self).kpi_history == old(self).kpi_history,
            final(self).control == old(self).control,
            final(self).align_boost == old(self).align_boost,
    {
        self.trace_history.push(bits);
        if self.trace_history.len() > HISTORY_LIMIT {
            self.trace_history.remove(0);
        }
        assert(self.trace_history@ =~= bounded(old(self).trace_history@.push(bits)));
    }
}

/// A lowercased build command installs globally or asks for elevated rights.
pub open spec fn global_install_in(lowered: Seq<char>) -> bool {
    contains_text(lowered, "npm install -g"@) || contains_text(lowered, " npm -g"@)
        || contains_text(lowered, "brew install"@) || contains_text(lowered, "sudo "@)
}

/// Whether an already lowercased build command installs globally or asks for
/// elevated rights.
pub fn global_install_in_lowered(lowered: &str) -> (r: bool)
    ensures
        r == global_install_in(lowered@),
{
    let s = chars_of(lowered);
    contains_str(&s, "npm install -g") || contains_str(&s, " npm -g") || contains_str(
        &s,
        "brew install",
    ) || contains_str(&s, "sudo ")
}

/// Whether a build command, read without regard to case, installs globally
/// or asks for elevated rights.
pub fn contains_global_install(cmd: &str) -> (r: bool)
    ensures
        r == global_install_in(lowercase(cmd@)),
{
    let s = cmd.to_lowercase();
    global_install_in_lowered(s.as_str())
}

/// The command that stands in for a configured build command that is
/// forbidden.
pub open spec fn blocked_build() -> Seq<char> {
    "echo \"[meta3.build] blocked: global installs/sudo in policy\"; exit 2"@
}

/// The build command that the policies file gives: its default command,
/// trimmed; none where that is empty; the blocking command where global
/// installs are forbidden (as they are unless the file allows them) and the
/// command holds one.
pub open spec fn configured_build(default_cmd: Option<Seq<char>>, forbid: Option<bool>) -> Option<
    Seq<char>,
> {
    match default_cmd {
        None => None,
        Some(raw) => {
            let cmd = trimmed(raw);
            if cmd.len() == 0 {
                None
            } else if forbid != Some(false) && global_install_in(lowercase(cmd)) {
                Some(blocked_build())
            } else {
                Some(cmd)
            }
        },
    }
}

/// The build command that the policies file gives, from its two settings.
pub fn build_cmd_from_policies(default_cmd: Option<&str>, forbid_global_installs: Option<
    bool,
>) -> (r: Option<String>)
    ensures
        match r {
            Some(cmd) => configured_build(
                match default_cmd {
                    Some(c) => Some(c@),
                    None => None,
                },
                forbid_global_installs,
            ) == Some(cmd@),
            None => configured_build(
                match default_cmd {
                    Some(c) => Some(c@),
                    None => None,
                },
                forbid_global_installs,
            ) is None,
        },
{
    let raw = match default_cmd {
        Some(c) => c,
        None => {
            return None;
        },
    };
    let cmd = text_of(&trim(&chars_of(raw)));
    if cmd.as_str().unicode_len() == 0 {
        return None;
    }
    let forbid = match forbid_global_installs {
        Some(b) => b,
        None => true,
    };
    if forbid && contains_global_install(cmd.as_str()) {
        return Some(
            "echo \"[meta3.build] blocked: global installs/sudo in policy\"; exit 2".to_owned(),
        );
    }
    Some(cmd)
}

/// The behaviors a goal identifier can resolve to.
#[derive(Clone, Copy, Debug, PartialEq, Eq, Structural)]
pub enum GoalKind {
    AlignSota,
    ResearchRead,
    WikiGenerate,
    GraphsThread,
    GraphsReceipts,
    GraphsApi,
    Meta3Build,
    Ruliad,
    ThreadsReport,
    ShellExec,
    FileWrite,
    MetaOmni,
    /// A command-style goal whose success is simulated from its identifier.
    Generic,
}

/// The behavior of a goal identifier. Where several markers occur in one
/// identifier, the earliest in this order decides.
pub open spec fn kind_of(goal: Seq<char>) -> GoalKind {
    if contains_text(goal, "align.sota"@) {
        GoalKind::AlignSota
    } else if contains_text(goal, "research.read"@) {
        GoalKind::ResearchRead
    } else if contains_text(goal, "wiki.generate"@) {
        GoalKind::WikiGenerate
    } else if contains_text(goal, "graphs.thread"@) || contains_text(goal, "graph.thread"@) {
        GoalKind::GraphsThread
    } else if contains_text(goal, "graphs.receipts"@) || contains_text(goal, "graph.receipts"@) {
        GoalKind::GraphsReceipts
    } else if contains_text(goal, "graphs.api"@) || contains_text(goal, "graph.api"@) {
        GoalKind::GraphsApi
    } else if contains_text(goal, "meta3.build"@) {
        GoalKind::Meta3Build
    } else if contains_text(goal, "ruliad"@) {
        GoalKind::Ruliad
    } else if contains_text(goal, "threads.report"@) || contains_text(goal, "thread.report"@) {
        GoalKind::ThreadsReport
    } else if contains_text(goal, "shell.exec"@) {
        GoalKind::ShellExec
    } else if contains_text(goal, "file.write"@) {
        GoalKind::FileWrite
    } else if contains_text(goal, "meta.omni"@) {
        GoalKind::MetaOmni
    } else {
        GoalKind::Generic
    }
}

/// The behavior of a goal identifier.
pub fn classify(goal_id: &str) -> (k: GoalKind)
    ensures
        k == kind_of(goal_id@),
{
    let g = chars_of(goal_id);
    if contains_str(&g, "align.sota") {
        GoalKind::AlignSota
    } else if contains_str(&g, "research.read") {
        GoalKind::ResearchRead
    } else if contains_str(&g, "wiki.generate") {
        GoalKind::WikiGenerate
    } else if contains_str(&g, "graphs.thread") || contains_str(&g, "graph.thread") {
        GoalKind::GraphsThread
    } else if contains_str(&g, "graphs.receipts") || contains_str(&g, "graph.receipts") {
        GoalKind::GraphsReceipts
    } else if contains_str(&g, "graphs.api") || contains_str(&g, "graph.api") {
        GoalKind::GraphsApi
    } else if contains_str(&g, "meta3.build") {
        GoalKind::Meta3Build
    } else if contains_str(&g, "ruliad") {
        GoalKind::Ruliad
    } else if contains_str(&g, "threads.report") || contains_str(&g, "thread.report") {
        GoalKind::ThreadsReport
    } else if contains_str(&g, "shell.exec") {
        GoalKind::ShellExec
    } else if contains_str(&g, "file.write") {
        GoalKind::FileWrite
    } else if contains_str(&g, "meta.omni") {
        GoalKind::MetaOmni
    } else {
        GoalKind::Generic
    }
}

/// The uncertainty a goal starts with, by the difficulty its identifier
/// claims: one tenth for `easy`, seven tenths for `hard`, nine tenths for
/// `impossible`, three tenths otherwise.
pub open spec fn uncertainty_of(goal: Seq<char>) -> i64 {
    if contains_text(goal, "easy"@) {
        100_000
    } else if contains_text(goal, "hard"@) {
        700_000
    } else if contains_text(goal, "impossible"@) {
        900_000
    } else {
        300_000
    }
}

/// The uncertainty a goal starts with.
pub fn initial_uncertainty(goal_id: &str) -> (u: i64)
    ensures
        u == uncertainty_of(goal_id@),
{
    let g = chars_of(goal_id);
    if contains_str(&g, "easy") {
        100_000
    } else if contains_str(&g, "hard") {
        700_000
    } else if contains_str(&g, "impossible") {
        900_000
    } else {
        300_000
    }
}

/// The whole seconds from `then` to `now`, rounded toward zero. Each instant
/// is given in seconds and nanoseconds since the Unix epoch.
pub open spec fn age_seconds(now: (i64, u32), then: (i64, u32)) -> int {
    let diff = (now.0 - then.0) * 1_000_000_000 + (now.1 - then.1);
    if diff >= 0 {
        diff / 1_000_000_000
    } else {
        -((-diff) / 1_000_000_000)
    }
}

/// Whether more than `ttl` whole seconds lie between `then` and `now`.
pub fn older_than(now: (i64, u32), then: (i64, u32), ttl: i64) -> (r: bool)
    ensures
        r == (age_seconds(now, then) > ttl),
{
    let secs: i128 = now.0 as i128 - then.0 as i128;
    assert(-1_000_000_000_000_000_000_000_000_000_000 <= secs * 1_000_000_000
        <= 1_000_000_000_000_000_000_000_000_000_000) by (nonlinear_arith)
        requires
            -20_000_000_000_000_000_000 <= secs <= 20_000_000_000_000_000_000,
    ;
    let diff: i128 = secs * 1_000_000_000 + (now.1 as i128 - then.1 as i128);
    let age: i128 = if diff >= 0 {
        diff / 1_000_000_000
    } else {
        -((-diff) / 1_000_000_000)
    };
    age > ttl as i128
}

/// A context item has expired: it carries a time stamp and a time to live,
/// the time stamp can be read, and its age at `now` exceeds the time to live.
pub open spec fn item_expired(item: JsonView, now: (i64, u32)) -> bool {
    match (item.text_at("ts"@), item.i64_at("ttl"@)) {
        (Some(ts), Some(ttl)) => match rfc3339_instant(ts) {
            Some(then) => age_seconds(now, then) > ttl,
            None => false,
        },
        _ => false,
    }
}

/// Some item of `items` has expired.
pub open spec fn any_expired(items: Seq<JsonView>, now: (i64, u32)) -> bool {
    exists|i: int| 0 <= i && i < items.len() && item_expired(#[trigger] items[i], now)
}

/// Some context item of the input has expired.
pub open spec fn context_stale(inputs: JsonView, now: (i64, u32)) -> bool {
    match inputs.get("context"@) {
        Some(v) => match v.as_list() {
            Some(items) => any_expired(items, now),
            None => false,
        },
        None => false,
    }
}

/// Whether a context item has expired at `now`.
pub fn is_item_expired(item: &Json, now: (i64, u32)) -> (r: bool)
    ensures
        r == item_expired(item@, now),
{
    match (item.str_at("ts"), item.i64_at("ttl")) {
        (Some(ts), Some(ttl)) => match parse_rfc3339(ts) {
            Some(then) => older_than(now, then, ttl),
            None => false,
        },
        _ => false,
    }
}

/// Whether some context item of the input has expired at `now`.
pub fn is_context_stale(inputs: &Json, now: (i64, u32)) -> (r: bool)
    ensures
        r == context_stale(inputs@, now),
{
    let items = match inputs.get("context") {
        Some(v) => match v.as_array() {
            Some(items) => items,
            None => {
                return false;
            },
        },
        None => {
            return false;
        },
    };
    let ghost views = items_view(items@);
    let mut i: usize = 0;
    while i < items.len()
        invariant
            i <= items.len(),
            views == items_view(items@),
            inputs@.get("context"@) == Some(JsonView::List(views)),
            forall|j: int| 0 <= j < i ==> !item_expired(#[trigger] views[j], now),
        decreases items.len() - i,
    {
        assert(views[i as int] == items@[i as int]@);
        if is_item_expired(&items[i], now) {
            assert(item_expired(views[i as int], now));
            return true;
        }
        i += 1;
    }
    false
}

} // verus!
