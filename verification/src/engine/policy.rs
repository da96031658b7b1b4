//! Trust scoring.

use vstd::prelude::*;
use super::bits::Bits;

verus! {

/// The trust a result earns: nine tenths where it passed without error, six
/// tenths where it passed with some error, three tenths where it did not pass.
pub open spec fn trust_of(passed: bool, b: Bits) -> i64 {
    if passed && b.e == 0 {
        900_000
    } else if passed {
        600_000
    } else {
        300_000
    }
}

pub fn trust_from(passed: bool, b: &Bits) -> (t: i64)
    ensures
        t == trust_of(passed, *b),
{
    if passed && b.e == 0 {
        900_000
    } else if passed {
        600_000
    } else {
        300_000
    }
}

/// The level `trust` times `tenths` tenths, rounded down.
pub open spec fn weighted(trust: i64, tenths: i64) -> int {
    (trust * tenths) / 10
}

/// The level `trust` times `tenths` tenths: the penalty on a result that
/// went against what was expected of the goal.
pub fn penalized(trust: i64, tenths: i64) -> (t: i64)
    requires
        0 <= trust <= 1_000_000,
        0 <= tenths <= 10,
    ensures
        t == weighted(trust, tenths),
        0 <= t <= trust,
{
    assert(0 <= trust * tenths <= 10_000_000) by (nonlinear_arith)
        requires
            0 <= trust <= 1_000_000,
            0 <= tenths <= 10,
    ;
    assert(trust * tenths <= trust * 10) by (nonlinear_arith)
        requires
            0 <= trust,
            0 <= tenths <= 10,
    ;
    (trust * tenths) / 10
}

} // verus!
