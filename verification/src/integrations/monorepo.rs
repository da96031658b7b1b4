//! Pull requests for confident runs.

use vstd::prelude::*;
use crate::ambient::{fresh_uuid, hyphenated};
use crate::engine::types::{Bits, Manifest};
use crate::text::{concat, views};

verus! {

/// A pull request for the deliverables of a run. `confidence` is the trust
/// of the run.
#[derive(Debug)]
pub struct PullRequest {
    pub id: String,
    pub title: String,
    pub branch: String,
    pub files_changed: Vec<String>,
    pub run_id: String,
    pub confidence: i64,
}

/// A run is confident enough for a pull request: its trust is at least
/// eight tenths and it has no error.
pub open spec fn confident(bits: Bits) -> bool {
    bits.t >= 800_000 && bits.e <= 0
}

/// `pr` is the pull request for the run of `manifest` under the fresh
/// identifier `fresh`.
pub open spec fn pull_request_for(
    pr: PullRequest,
    manifest: Manifest,
    bits: Bits,
    fresh: Seq<char>,
) -> bool {
    &&& pr.id@ == "pr-"@ + fresh
    &&& pr.title@ == "Agent: "@ + manifest.goal_id@
    &&& pr.branch@ == "agent/"@ + manifest.run_id@
    &&& views(pr.files_changed@) == views(manifest.deliverables@)
    &&& pr.run_id@ == manifest.run_id@
    &&& pr.confidence == bits.t
}

/// The pull request for a run, where the run is confident enough for one.
pub fn create_pr_if_confident_with(manifest: &Manifest, bits: &Bits, fresh_id: &str) -> (r: Option<
    PullRequest,
>)
    ensures
        r is Some <==> confident(*bits),
        r matches Some(pr) ==> pull_request_for(pr, *manifest, *bits, fresh_id@),
{
    if bits.t < 800_000 || bits.e > 0 {
        return None;
    }
    let mut files: Vec<String> = Vec::new();
    let mut i: usize = 0;
    while i < manifest.deliverables.len()
        invariant
            i <= manifest.deliverables.len(),
            files@.len() == i,
            forall|j: int| 0 <= j < i ==> (#[trigger] files@[j])@ == manifest.deliverables@[j]@,
        decreases manifest.deliverables.len() - i,
    {
        files.push(manifest.deliverables[i].clone());
        i += 1;
    }
    assert(views(files@) =~= views(manifest.deliverables@));
    Some(
        PullRequest {
            id: concat("pr-", fresh_id),
            title: concat("Agent: ", manifest.goal_id.as_str()),
            branch: concat("agent/", manifest.run_id.as_str()),
            files_changed: files,
            run_id: manifest.run_id.clone(),
            confidence: bits.t,
        },
    )
}

/// The pull request for a run, under a fresh identifier, where the run is
/// confident enough for one.
pub fn create_pr_if_confident(manifest: &Manifest, bits: &Bits) -> (r: Option<PullRequest>)
    ensures
        r is Some <==> confident(*bits),
        r matches Some(pr) ==> exists|fresh: Seq<char>|
            hyphenated(fresh) && #[trigger] pull_request_for(pr, *manifest, *bits, fresh),
{
    let fresh = fresh_uuid();
    let r = create_pr_if_confident_with(manifest, bits, fresh.as_str());
    proof {
        if r is Some {
            assert(pull_request_for(r->0, *manifest, *bits, fresh@));
        }
    }
    r
}

/// Whether a pull request passes the checks: its confidence is at least
/// eight tenths.
pub fn ci_gate_check(pr: &PullRequest) -> (passed: bool)
    ensures
        passed == (pr.confidence >= 800_000),
{
    pr.confidence >= 800_000
}

} // verus!
