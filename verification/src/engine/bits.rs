//! The nine-scalar epistemic state of a run.

use vstd::prelude::*;

verus! {

/// The bits of a run as they are surfaced to callers: ask-ok, uncertainty,
/// permission, error, drift, information gain, risk, trust, and the flag that
/// a meta change was proposed. Each is a level in millionths.
#[derive(Clone, Copy, Debug, PartialEq, Eq, Structural)]
pub struct Bits {
    pub a: i64,
    pub u: i64,
    pub p: i64,
    pub e: i64,
    pub d: i64,
    pub i: i64,
    pub r: i64,
    pub t: i64,
    pub m: i64,
}

impl Bits {
    /// The bits every run starts from: asked and permitted, trust one half,
    /// everything else zero.
    pub open spec fn initial() -> Bits {
        Bits {
            a: 1_000_000,
            u: 0,
            p: 1_000_000,
            e: 0,
            d: 0,
            i: 0,
            r: 0,
            t: 500_000,
            m: 0,
        }
    }

    pub fn init() -> (b: Self)
        ensures
            b == Bits::initial(),
    {
        Bits {
            a: 1_000_000,
            p: 1_000_000,
            t: 500_000,
            m: 0,
            u: 0,
            e: 0,
            d: 0,
            i: 0,
            r: 0,
        }
    }
}

} // verus!
