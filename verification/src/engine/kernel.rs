//! Decisions over the bits: admission, completeness validation, the
//! degrade-twice trend rule and the proposals it leads to.

use vstd::prelude::*;
use crate::level::{fixed, in_unit, is_in_unit, push_fixed};
use crate::text::{chars_of, push_str, text_of};

verus! {

/// The bits of a run while the kernel works on them.
#[derive(Clone, Copy, Debug, PartialEq, Eq, Structural)]
pub struct ExtendedBits {
    pub a: i64,
    pub u: i64,
    pub p: i64,
    pub e: i64,
    /// Drift: the context of the run is stale.
    pub d: i64,
    pub i: i64,
    pub r: i64,
    pub t: i64,
    /// Meta-change bit: `ONE` when a policy update was proposed.
    pub m: i64,
}

impl ExtendedBits {
    /// The bits every run starts from: asked and permitted, trust one half,
    /// everything else zero.
    pub open spec fn initial() -> ExtendedBits {
        ExtendedBits {
            a: 1_000_000,
            u: 0,
            p: 1_000_000,
            e: 0,
            d: 0,
            i: 0,
            r: 0,
            t: 500_000,
            m: 0,
        }
    }

    pub fn init() -> (b: Self)
        ensures
            b == ExtendedBits::initial(),
    {
        ExtendedBits {
            a: 1_000_000,
            p: 1_000_000,
            t: 500_000,
            m: 0,
            u: 0,
            e: 0,
            d: 0,
            i: 0,
            r: 0,
        }
    }

    /// All nine scalars lie in the closed unit interval.
    pub open spec fn complete(self) -> bool {
        &&& in_unit(self.a)
        &&& in_unit(self.u)
        &&& in_unit(self.p)
        &&& in_unit(self.e)
        &&& in_unit(self.d)
        &&& in_unit(self.i)
        &&& in_unit(self.r)
        &&& in_unit(self.t)
        &&& in_unit(self.m)
    }

    /// The first scalar outside the unit interval, in the order A, U, P, E,
    /// Δ, I, R, T, M, with its name.
    pub open spec fn offending(self) -> Option<(Seq<char>, i64)> {
        if !in_unit(self.a) {
            Some(("A"@, self.a))
        } else if !in_unit(self.u) {
            Some(("U"@, self.u))
        } else if !in_unit(self.p) {
            Some(("P"@, self.p))
        } else if !in_unit(self.e) {
            Some(("E"@, self.e))
        } else if !in_unit(self.d) {
            Some(("Δ"@, self.d))
        } else if !in_unit(self.i) {
            Some(("I"@, self.i))
        } else if !in_unit(self.r) {
            Some(("R"@, self.r))
        } else if !in_unit(self.t) {
            Some(("T"@, self.t))
        } else if !in_unit(self.m) {
            Some(("M"@, self.m))
        } else {
            None
        }
    }

    /// The Ask-Act predicate: asked, permitted, and not stale.
    pub open spec fn admits(self) -> bool {
        self.a >= 1_000_000 && self.p >= 1_000_000 && self.d == 0
    }
}

/// Parameters of the fast control loop.
#[derive(Debug)]
pub struct L2Params {
    pub ask_act_threshold: i64,
    pub confidence_gate_tau: i64,
    pub backoff_k: u32,
    pub retry_strategies: Vec<String>,
}

/// Rules of the slow adaptation loop.
#[derive(Debug)]
pub struct L3Rules {
    pub evidence_coverage_min: i64,
    pub rollback_rate_max: i64,
    pub weekly_param_delta_max: i64,
    pub shadow_rollout_pct: i64,
}

/// The control state of the kernel, read by the gates on every run.
#[derive(Debug)]
pub struct KernelLoop {
    pub l2_params: L2Params,
    pub l3_rules: L3Rules,
}

/// A change to one control parameter.
#[derive(Debug)]
pub enum Meta2Change {
    ConfidenceGate { old_tau: i64, new_tau: i64 },
    BackoffStrategy { old_k: u32, new_k: u32 },
    AskActThreshold { old_threshold: i64, new_threshold: i64 },
}

/// A proposed change to the control state, for the caller to apply or drop.
#[derive(Debug)]
pub struct Meta2Proposal {
    pub symptom: String,
    pub hypothesis: String,
    pub change: Meta2Change,
    pub shadow_pct: i64,
    pub rollback_condition: String,
}

/// What the kernel sees when it looks back over its latest runs.
#[derive(Clone, Copy, Debug, PartialEq, Eq, Structural)]
pub struct SelfSnapshot {
    /// The share of the latest runs that were asked and permitted.
    pub effectiveness: i64,
    /// Trust of the latest run less trust of the run two before it.
    pub trust_trend: i64,
    /// Whether any of the latest runs was stale.
    pub recent_drift: bool,
}

/// The message of a failed Ask-Act gate.
pub open spec fn ask_act_failure(bits: ExtendedBits) -> Seq<char> {
    "Ask-Act gate failed: A="@ + fixed(bits.a as int, 1) + ", P="@ + fixed(bits.p as int, 1)
        + ", Δ="@ + fixed(bits.d as int, 1)
}

/// The message for a scalar outside the unit interval.
pub open spec fn invalid_bit(name: Seq<char>, value: i64) -> Seq<char> {
    "Invalid bit "@ + name + ": "@ + fixed(value as int, 3)
}

/// The degrade-twice rule on a history of samples: of the last three, the
/// middle one lies above the last, and the last above the first.
pub open spec fn degraded_twice(history: Seq<i64>) -> bool {
    let n = history.len() as int;
    n >= 3 && history[n - 2] > history[n - 1] && history[n - 1] > history[n - 3]
}

/// The latest `k` entries of `trace`, the newest first.
pub open spec fn latest<T>(trace: Seq<T>, k: nat) -> Seq<T> {
    let n = if trace.len() < k {
        trace.len()
    } else {
        k
    };
    Seq::new(n, |i: int| trace[trace.len() - 1 - i])
}

/// How many of `recent` were asked and permitted.
pub open spec fn count_effective(recent: Seq<ExtendedBits>) -> nat
    decreases recent.len(),
{
    if recent.len() == 0 {
        0
    } else {
        let last = recent.last();
        count_effective(recent.drop_last()) + if last.a >= 1_000_000 && last.p >= 1_000_000 {
            1nat
        } else {
            0nat
        }
    }
}

/// The trust trend of `trace` can be taken: where the trace has three
/// entries, the trust of its newest and of its third-newest entry lie in
/// the unit interval, as the trust of every completed run does.
pub open spec fn trend_in_reach(trace: Seq<ExtendedBits>) -> bool {
    trace.len() >= 3 ==> in_unit(trace[trace.len() - 1].t) && in_unit(trace[trace.len() - 3].t)
}

/// The snapshot over the latest five entries of `trace`.
pub open spec fn snapshot_of(trace: Seq<ExtendedBits>) -> SelfSnapshot {
    let recent = latest(trace, 5);
    SelfSnapshot {
        effectiveness: if recent.len() == 0 {
            500_000
        } else {
            ((count_effective(recent) * 1_000_000) / recent.len()) as i64
        },
        trust_trend: if recent.len() >= 3 {
            (recent[0].t - recent[2].t) as i64
        } else {
            0
        },
        recent_drift: exists|i: int| 0 <= i < recent.len() && recent[i].d > 0,
    }
}

/// The text of a snapshot.
pub open spec fn snapshot_text(s: SelfSnapshot) -> Seq<char> {
    "effectiveness="@ + fixed(s.effectiveness as int, 2) + ", trust_trend="@ + fixed(
        s.trust_trend as int,
        2,
    ) + ", recent_drift="@ + if s.recent_drift {
        "true"@
    } else {
        "false"@
    }
}

/// The symptom line of a proposal.
pub open spec fn symptom_text(kpi_name: Seq<char>, value: i64) -> Seq<char> {
    kpi_name + " fell to "@ + fixed(value as int, 3)
}

/// The confidence threshold that a proposal asks for: five hundredths lower,
/// and never under one half.
pub open spec fn lowered_tau(tau: i64) -> i64 {
    if tau >= 550_000 {
        (tau - 50_000) as i64
    } else {
        500_000
    }
}

/// `r` is what the slow loop proposes for an indicator that stands at
/// `value`: nothing where the value has not fallen under the coverage floor,
/// else a lower confidence threshold.
pub open spec fn proposes(
    control: KernelLoop,
    kpi_name: Seq<char>,
    value: i64,
    r: Option<Meta2Proposal>,
) -> bool {
    &&& r is Some <==> value < control.l3_rules.evidence_coverage_min
    &&& r matches Some(p) ==> {
        &&& p.symptom@ == symptom_text(kpi_name, value)
        &&& p.hypothesis@ == "confidence gate too restrictive"@
        &&& p.change == (Meta2Change::ConfidenceGate {
            old_tau: control.l2_params.confidence_gate_tau,
            new_tau: lowered_tau(control.l2_params.confidence_gate_tau),
        })
        &&& p.shadow_pct == control.l3_rules.shadow_rollout_pct
        &&& p.rollback_condition@ == "evidence_coverage < 0.85 for 3d"@
    }
}

impl KernelLoop {
    pub fn new() -> (k: Self)
        ensures
            k.l2_params.ask_act_threshold == 800_000,
            k.l2_params.confidence_gate_tau == 700_000,
            k.l2_params.backoff_k == 3,
            k.l2_params.retry_strategies@.len() == 2,
            k.l2_params.retry_strategies@[0]@ == "cache"@,
            k.l2_params.retry_strategies@[1]@ == "alt_api"@,
            k.l3_rules.evidence_coverage_min == 900_000,
            k.l3_rules.rollback_rate_max == 80_000,
            k.l3_rules.weekly_param_delta_max == 150_000,
            k.l3_rules.shadow_rollout_pct == 200_000,
    {
        let mut retry_strategies: Vec<String> = Vec::new();
        retry_strategies.push("cache".to_owned());
        retry_strategies.push("alt_api".to_owned());
        KernelLoop {
            l2_params: L2Params {
                ask_act_threshold: 800_000,
                confidence_gate_tau: 700_000,
                backoff_k: 3,
                retry_strategies,
            },
            l3_rules: L3Rules {
                evidence_coverage_min: 900_000,
                rollback_rate_max: 80_000,
                weekly_param_delta_max: 150_000,
                shadow_rollout_pct: 200_000,
            },
        }
    }

    /// The Ask-Act predicate as a result: an error, with the three scalars it
    /// reads, exactly when the predicate does not hold.
    pub fn enforce_ask_act_gate(&self, bits: &ExtendedBits) -> (r: Result<(), String>)
        ensures
            r is Ok <==> bits.admits(),
            r matches Err(msg) ==> msg@ == ask_act_failure(*bits),
    {
        if !(bits.a >= 1_000_000 && bits.p >= 1_000_000 && bits.d == 0) {
            let mut out: Vec<char> = Vec::new();
            push_str(&mut out, "Ask-Act gate failed: A=");
            push_fixed(&mut out, bits.a, 1);
            push_str(&mut out, ", P=");
            push_fixed(&mut out, bits.p, 1);
            push_str(&mut out, ", Δ=");
            push_fixed(&mut out, bits.d, 1);
            return Err(text_of(&out));
        }
        Ok(())
    }

    /// Accepts the bits exactly when all nine lie in the unit interval, and
    /// names the first one that does not.
    pub fn validate_bits_complete(&self, bits: &ExtendedBits) -> (r: Result<(), String>)
        ensures
            r is Ok <==> bits.complete(),
            r is Ok <==> bits.offending() is None,
            r matches Err(msg) ==> bits.offending() matches Some((name, value)) && msg@
                == invalid_bit(name, value),
    {
        let found: Option<(&str, i64)> = if !is_in_unit(bits.a) {
            Some(("A", bits.a))
        } else if !is_in_unit(bits.u) {
            Some(("U", bits.u))
        } else if !is_in_unit(bits.p) {
            Some(("P", bits.p))
        } else if !is_in_unit(bits.e) {
            Some(("E", bits.e))
        } else if !is_in_unit(bits.d) {
            Some(("Δ", bits.d))
        } else if !is_in_unit(bits.i) {
            Some(("I", bits.i))
        } else if !is_in_unit(bits.r) {
            Some(("R", bits.r))
        } else if !is_in_unit(bits.t) {
            Some(("T", bits.t))
        } else if !is_in_unit(bits.m) {
            Some(("M", bits.m))
        } else {
            None
        };
        match found {
            Some((name, value)) => {
                let mut out: Vec<char> = Vec::new();
                push_str(&mut out, "Invalid bit ");
                push_str(&mut out, name);
                push_str(&mut out, ": ");
                push_fixed(&mut out, value, 3);
                Err(text_of(&out))
            },
            None => Ok(()),
        }
    }

    /// The admission gate: asked, permitted, and not stale.
    pub fn ask_act_gate(&self, bits: &ExtendedBits) -> (r: bool)
        ensures
            r == (bits.a >= 1_000_000 && bits.p >= 1_000_000 && bits.d == 0),
            r == bits.admits(),
    {
        bits.a >= 1_000_000 && bits.p >= 1_000_000 && bits.d == 0
    }

    /// The evidence gate: closed (verification is due first) exactly when the
    /// uncertainty has reached the confidence threshold.
    pub fn evidence_gate(&self, bits: &ExtendedBits) -> (r: bool)
        ensures
            r == (bits.u < self.l2_params.confidence_gate_tau),
    {
        if bits.u >= self.l2_params.confidence_gate_tau {
            false
        } else {
            true
        }
    }

    /// The degrade-twice rule on the last three samples of `kpi_history`.
    pub fn should_wake_l3(&self, kpi_history: &[i64]) -> (r: bool)
        ensures
            r == degraded_twice(kpi_history@),
            kpi_history@.len() < 3 ==> !r,
    {
        let len = kpi_history.len();
        if len < 3 {
            return false;
        }
        let a = kpi_history[len - 3];
        let b = kpi_history[len - 2];
        let c = kpi_history[len - 1];
        b > c && c > a
    }

    /// What the latest five runs of `trace_history` show. The trust trend is
    /// the difference of two recorded trusts; these two have to lie in the
    /// unit interval.
    pub fn self_snapshot(&self, trace_history: &[ExtendedBits]) -> (s: SelfSnapshot)
        requires
            trend_in_reach(trace_history@),
        ensures
            s == snapshot_of(trace_history@),
    {
        let n = trace_history.len();
        let k: usize = if n < 5 {
            n
        } else {
            5
        };
        let ghost recent = latest(trace_history@, 5);
        let mut count: u64 = 0;
        let mut drift = false;
        let mut i: usize = 0;
        while i < k
            invariant
                i <= k <= 5,
                k <= n,
                n == trace_history@.len(),
                recent == latest(trace_history@, 5),
                recent.len() == k,
                count == count_effective(recent.take(i as int)),
                count <= i,
                drift == exists|j: int| 0 <= j < i && recent[j].d > 0,
            decreases k - i,
        {
            let b = &trace_history[n - 1 - i];
            assert(*b == recent[i as int]);
            proof {
                assert(recent.take(i + 1).drop_last() =~= recent.take(i as int));
                assert(recent.take(i + 1).last() == recent[i as int]);
            }
            if b.a >= 1_000_000 && b.p >= 1_000_000 {
                count += 1;
            }
            if b.d > 0 {
                drift = true;
            }
            i += 1;
        }
        assert(recent.take(k as int) =~= recent);
        let effectiveness: i64 = if k == 0 {
            500_000
        } else {
            ((count * 1_000_000) / (k as u64)) as i64
        };
        let trust_trend: i64 = if k >= 3 {
            assert(recent[0] == trace_history@[n - 1]);
            assert(recent[2] == trace_history@[n - 3]);
            trace_history[n - 1].t - trace_history[n - 3].t
        } else {
            0
        };
        SelfSnapshot { effectiveness, trust_trend, recent_drift: drift }
    }

    /// The snapshot of the latest five runs as one line of text.
    pub fn get_self_snapshot(&self, trace_history: &[ExtendedBits]) -> (s: String)
        requires
            trend_in_reach(trace_history@),
        ensures
            s@ == snapshot_text(snapshot_of(trace_history@)),
    {
        let snap = self.self_snapshot(trace_history);
        let mut out: Vec<char> = Vec::new();
        push_str(&mut out, "effectiveness=");
        push_fixed(&mut out, snap.effectiveness, 2);
        push_str(&mut out, ", trust_trend=");
        push_fixed(&mut out, snap.trust_trend, 2);
        push_str(&mut out, ", recent_drift=");
        if snap.recent_drift {
            push_str(&mut out, "true");
        } else {
            push_str(&mut out, "false");
        }
        text_of(&out)
    }

    /// Proposes to lower the confidence threshold, exactly when the value of
    /// the indicator lies under the coverage floor. The control state itself
    /// stays as it is: a proposal is applied elsewhere, if at all.
    pub fn propose_meta2_change(&mut self, kpi_name: &str, current_value: i64) -> (r: Option<
        Meta2Proposal,
    >)
        ensures
            *final(self) == *old(self),
            proposes(*old(self), kpi_name@, current_value, r),
    {
        if current_value < self.l3_rules.evidence_coverage_min {
            let tau = self.l2_params.confidence_gate_tau;
            let new_tau: i64 = if tau >= 550_000 {
                tau - 50_000
            } else {
                500_000
            };
            let mut symptom: Vec<char> = chars_of(kpi_name);
            push_str(&mut symptom, " fell to ");
            push_fixed(&mut symptom, current_value, 3);
            Some(
                Meta2Proposal {
                    symptom: text_of(&symptom),
                    hypothesis: "confidence gate too restrictive".to_owned(),
                    change: Meta2Change::ConfidenceGate { old_tau: tau, new_tau },
                    shadow_pct: self.l3_rules.shadow_rollout_pct,
                    rollback_condition: "evidence_coverage < 0.85 for 3d".to_owned(),
                },
            )
        } else {
            None
        }
    }
}

} // verus!
