//! The policy a run is held to and the manifest it leaves behind.

use vstd::prelude::*;
use vstd::std_specs::convert::FromSpecImpl;
use crate::json::Json;
use super::kernel::ExtendedBits;

pub use super::bits::Bits;

verus! {

/// The budget and risk configuration of one run. `gamma_gate` and `max_risk`
/// are levels; `time_ms` is the wall-clock budget of the executor.
#[derive(Clone, Copy, Debug, PartialEq, Eq, Structural)]
pub struct Policy {
    pub gamma_gate: i64,
    pub time_ms: u64,
    pub max_risk: i64,
    pub tiny_diff_loc: u32,
}

impl Policy {
    /// The policy of a run that names none.
    pub open spec fn standard() -> Policy {
        Policy { gamma_gate: 500_000, time_ms: 300_000, max_risk: 200_000, tiny_diff_loc: 120 }
    }
}

impl Default for Policy {
    fn default() -> (p: Self)
        ensures
            p == Policy::standard(),
    {
        Policy { gamma_gate: 500_000, time_ms: 300_000, max_risk: 200_000, tiny_diff_loc: 120 }
    }
}

/// The durable result of one run.
#[derive(Debug)]
pub struct Manifest {
    pub run_id: String,
    pub goal_id: String,
    pub deliverables: Vec<String>,
    pub evidence: Json,
    pub bits: Bits,
}

/// The surfaced bits with the same nine scalars as `ext`.
pub open spec fn surfaced(ext: ExtendedBits) -> Bits {
    Bits {
        a: ext.a,
        u: ext.u,
        p: ext.p,
        e: ext.e,
        d: ext.d,
        i: ext.i,
        r: ext.r,
        t: ext.t,
        m: ext.m,
    }
}

impl From<ExtendedBits> for Bits {
    fn from(ext: ExtendedBits) -> (b: Self) {
        Bits {
            a: ext.a,
            u: ext.u,
            p: ext.p,
            e: ext.e,
            d: ext.d,
            i: ext.i,
            r: ext.r,
            t: ext.t,
            m: ext.m,
        }
    }
}

impl FromSpecImpl<ExtendedBits> for Bits {
    open spec fn obeys_from_spec() -> bool {
        true
    }

    open spec fn from_spec(ext: ExtendedBits) -> Bits {
        surfaced(ext)
    }
}

} // verus!
