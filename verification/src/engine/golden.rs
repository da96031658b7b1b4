//! Golden traces: recorded cases whose bits have to be valid.

use vstd::prelude::*;
use crate::json::{Json, JsonView};
use crate::level::{in_unit, is_in_unit};
use crate::text::opt_view;
use super::bits::Bits;

verus! {

/// One recorded case as it is read: the test, what it asserts and what came
/// of it (text or object), and the bits it recorded.
#[derive(Debug)]
pub struct GoldenCaseRaw {
    pub test: String,
    pub assertion: Json,
    pub result: Json,
    pub bits: Json,
}

/// One validated case.
#[derive(Debug)]
pub struct GoldenCase {
    pub test: String,
    pub ok: bool,
    pub reason: Option<String>,
}

/// The validation of a golden trace.
#[derive(Debug)]
pub struct GoldenSummary {
    pub name: String,
    pub total: usize,
    pub passed: usize,
    pub failed: usize,
    pub details: Vec<GoldenCase>,
    pub bits: Bits,
}

/// All nine scalars lie in the closed unit interval.
pub open spec fn valid_bits(b: Bits) -> bool {
    &&& in_unit(b.a)
    &&& in_unit(b.u)
    &&& in_unit(b.p)
    &&& in_unit(b.e)
    &&& in_unit(b.d)
    &&& in_unit(b.i)
    &&& in_unit(b.r)
    &&& in_unit(b.t)
    &&& in_unit(b.m)
}

/// Whether all nine scalars lie in the closed unit interval.
pub fn bits_valid(b: &Bits) -> (r: bool)
    ensures
        r == valid_bits(*b),
{
    is_in_unit(b.a) && is_in_unit(b.u) && is_in_unit(b.p) && is_in_unit(b.e) && is_in_unit(b.d)
        && is_in_unit(b.i) && is_in_unit(b.r) && is_in_unit(b.t) && is_in_unit(b.m)
}

/// The drift that a recorded case gives: under the key `Δ`, else under `d`.
pub open spec fn recorded_drift(v: JsonView) -> Option<i64> {
    match v.level_at("Δ"@) {
        Some(x) => Some(x),
        None => v.level_at("d"@),
    }
}

/// The bits that a recorded case gives: the scalars under `A`, `U`, `P`, `E`,
/// `I`, `R` and `T`, the drift under `Δ` or `d`, and the meta bit under `M`,
/// zero where it is absent. None where one of the others is missing or no
/// number.
pub open spec fn recorded_bits(v: JsonView) -> Option<Bits> {
    if v.level_at("A"@) is Some && v.level_at("U"@) is Some && v.level_at("P"@) is Some
        && v.level_at("E"@) is Some && recorded_drift(v) is Some && v.level_at("I"@) is Some
        && v.level_at("R"@) is Some && v.level_at("T"@) is Some {
        Some(
            Bits {
                a: v.level_at("A"@)->0,
                u: v.level_at("U"@)->0,
                p: v.level_at("P"@)->0,
                e: v.level_at("E"@)->0,
                d: recorded_drift(v)->0,
                i: v.level_at("I"@)->0,
                r: v.level_at("R"@)->0,
                t: v.level_at("T"@)->0,
                m: match v.level_at("M"@) {
                    Some(x) => x,
                    None => 0,
                },
            },
        )
    } else {
        None
    }
}

/// The bits that a recorded case gives.
pub fn parse_bits(v: &Json) -> (r: Option<Bits>)
    ensures
        r == recorded_bits(v@),
{
    let a = match v.level_at("A") {
        Some(x) => x,
        None => {
            return None;
        },
    };
    let u = match v.level_at("U") {
        Some(x) => x,
        None => {
            return None;
        },
    };
    let p = match v.level_at("P") {
        Some(x) => x,
        None => {
            return None;
        },
    };
    let e = match v.level_at("E") {
        Some(x) => x,
        None => {
            return None;
        },
    };
    let d = match v.level_at("Δ") {
        Some(x) => x,
        None => match v.level_at("d") {
            Some(x) => x,
            None => {
                return None;
            },
        },
    };
    let i = match v.level_at("I") {
        Some(x) => x,
        None => {
            return None;
        },
    };
    let r = match v.level_at("R") {
        Some(x) => x,
        None => {
            return None;
        },
    };
    let t = match v.level_at("T") {
        Some(x) => x,
        None => {
            return None;
        },
    };
    let m = match v.level_at("M") {
        Some(x) => x,
        None => 0,
    };
    Some(Bits { a, u, p, e, d, i, r, t, m })
}

/// A recorded case holds: it gives bits, and they are valid.
pub open spec fn case_holds(bits: JsonView) -> bool {
    match recorded_bits(bits) {
        Some(b) => valid_bits(b),
        None => false,
    }
}

/// `detail` is the judgement of the recorded case `raw`: it holds or not,
/// and where it does not the reason says so.
pub open spec fn judged(detail: GoldenCase, raw: GoldenCaseRaw) -> bool {
    &&& detail.test@ == raw.test@
    &&& detail.ok == case_holds(raw.bits@)
    &&& opt_view(detail.reason) == if detail.ok {
        None
    } else {
        Some("invalid or out-of-range bits"@)
    }
}

/// How many of the cases hold.
pub open spec fn count_holding(cases: Seq<GoldenCaseRaw>) -> nat
    decreases cases.len(),
{
    if cases.len() == 0 {
        0
    } else {
        count_holding(cases.drop_last()) + if case_holds(cases.last().bits@) {
            1nat
        } else {
            0nat
        }
    }
}

/// The bits of a trace all of whose cases hold.
pub open spec fn golden_pass() -> Bits {
    Bits { a: 1_000_000, u: 0, p: 1_000_000, e: 0, d: 0, i: 0, r: 0, t: 1_000_000, m: 0 }
}

/// The bits of a trace some of whose cases do not hold.
pub open spec fn golden_fail() -> Bits {
    Bits { a: 0, u: 1_000_000, p: 1_000_000, e: 1_000_000, d: 0, i: 0, r: 0, t: 300_000, m: 0 }
}

/// Validates the recorded cases of the golden trace `name`: a case holds
/// where its bits can be read and are valid. The summary counts the cases
/// and carries full trust where all hold, error and low trust where not.
pub fn validate_golden(name: &str, raw: Vec<GoldenCaseRaw>) -> (r: GoldenSummary)
    ensures
        r.name@ == name@,
        r.total == raw@.len(),
        r.passed == count_holding(raw@),
        r.failed == r.total - r.passed,
        r.details@.len() == raw@.len(),
        forall|i: int| 0 <= i < raw@.len() ==> judged(#[trigger] r.details@[i], raw@[i]),
        r.bits == if r.failed == 0 {
            golden_pass()
        } else {
            golden_fail()
        },
{
    let mut details: Vec<GoldenCase> = Vec::new();
    let mut passed: usize = 0;
    let mut i: usize = 0;
    while i < raw.len()
        invariant
            i <= raw.len(),
            details@.len() == i,
            passed == count_holding(raw@.take(i as int)),
            passed <= i,
            forall|j: int| 0 <= j < i ==> judged(#[trigger] details@[j], raw@[j]),
        decreases raw.len() - i,
    {
        let ok = match parse_bits(&raw[i].bits) {
            Some(b) => bits_valid(&b),
            None => false,
        };
        proof {
            assert(raw@.take(i + 1).drop_last() =~= raw@.take(i as int));
            assert(raw@.take(i + 1).last() == raw@[i as int]);
        }
        let reason = if ok {
            None
        } else {
            Some("invalid or out-of-range bits".to_owned())
        };
        if ok {
            passed += 1;
        }
        details.push(GoldenCase { test: raw[i].test.clone(), ok, reason });
        i += 1;
    }
    assert(raw@.take(raw@.len() as int) =~= raw@);
    let total = details.len();
    let failed = total - passed;
    let bits = if failed == 0 {
        Bits { a: 1_000_000, u: 0, p: 1_000_000, e: 0, d: 0, i: 0, r: 0, t: 1_000_000, m: 0 }
    } else {
        Bits {
            a: 0,
            u: 1_000_000,
            p: 1_000_000,
            e: 1_000_000,
            d: 0,
            i: 0,
            r: 0,
            t: 300_000,
            m: 0,
        }
    };
    GoldenSummary { name: name.to_owned(), total, passed, failed, details, bits }
}

} // verus!
