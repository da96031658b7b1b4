//! The state that the dashboard shows.

use vstd::prelude::*;
use crate::ambient::clock_now;
use crate::json::{entries_view, put, Json, JsonView};
use super::kpi::current_scores;
use super::{CostSummary, EvalResult, SearchResult, UIState};

verus! {

/// The latest searches of the flywheel.
pub fn get_recent_searches() -> (hits: Vec<SearchResult>)
    ensures
        hits@.len() == 1,
        hits@[0].id@ == "search-1"@,
        hits@[0].content@ == "Recent search result"@,
        hits@[0].relevance == 920_000,
        hits@[0].metadata@ == JsonView::Object(seq![("component"@, JsonView::Text("flywheel"@))]),
{
    let mut m: Vec<(String, Json)> = Vec::new();
    put(&mut m, "component", Json::text("flywheel"));
    assert(entries_view(m@) =~= seq![("component"@, JsonView::Text("flywheel"@))]);
    let mut hits: Vec<SearchResult> = Vec::new();
    hits.push(
        SearchResult {
            id: "search-1".to_owned(),
            content: "Recent search result".to_owned(),
            relevance: 920_000,
            metadata: Json::Object(m),
        },
    );
    hits
}

/// The latest evaluations, stamped `ts`.
pub fn get_recent_evals(ts: &str) -> (evals: Vec<EvalResult>)
    ensures
        evals@.len() == 1,
        evals@[0].eval_id@ == "eval-1"@,
        evals@[0].score == 850_000,
        evals@[0].component@ == "agent"@,
        evals@[0].timestamp@ == ts@,
{
    let mut evals: Vec<EvalResult> = Vec::new();
    evals.push(
        EvalResult {
            eval_id: "eval-1".to_owned(),
            score: 850_000,
            component: "agent".to_owned(),
            timestamp: ts.to_owned(),
        },
    );
    evals
}

/// What the runs have cost.
pub fn get_cost_summary() -> (c: CostSummary)
    ensures
        c.total_tokens == 125_000,
        c.total_cost == 2_500_000,
        c.cost_per_success == 150_000,
{
    CostSummary { total_tokens: 125_000, total_cost: 2_500_000, cost_per_success: 150_000 }
}

/// `state` is what the dashboard shows at the time `ts`: the latest search
/// and the latest evaluation, stamped with that time, no runs, the costs
/// and the indicators.
pub open spec fn unified_state(state: UIState, ts: Seq<char>) -> bool {
    &&& state.search_hits@.len() == 1
    &&& state.search_hits@[0].id@ == "search-1"@
    &&& state.search_hits@[0].content@ == "Recent search result"@
    &&& state.search_hits@[0].relevance == 920_000
    &&& state.search_hits@[0].metadata@ == JsonView::Object(
        seq![("component"@, JsonView::Text("flywheel"@))],
    )
    &&& state.agent_runs@.len() == 0
    &&& state.eval_scores@.len() == 1
    &&& state.eval_scores@[0].eval_id@ == "eval-1"@
    &&& state.eval_scores@[0].score == 850_000
    &&& state.eval_scores@[0].component@ == "agent"@
    &&& state.eval_scores@[0].timestamp@ == ts
    &&& state.cost_tracking.total_tokens == 125_000
    &&& state.cost_tracking.total_cost == 2_500_000
    &&& state.cost_tracking.cost_per_success == 150_000
    &&& state.kpi_dashboard.signal_density == 750_000
    &&& state.kpi_dashboard.flow_minutes == 600_000
    &&& state.kpi_dashboard.knowledge_yield == 850_000
    &&& state.kpi_dashboard.noise_ratio == 700_000
    &&& state.kpi_dashboard.weekly_trend@ == seq![650_000i64, 680_000, 720_000, 750_000, 730_000]
}

/// The state of the dashboard at the time `ts`.
pub fn render_unified_state_at(ts: &str) -> (state: UIState)
    ensures
        unified_state(state, ts@),
{
    UIState {
        search_hits: get_recent_searches(),
        agent_runs: Vec::new(),
        eval_scores: get_recent_evals(ts),
        cost_tracking: get_cost_summary(),
        kpi_dashboard: current_scores(),
    }
}

/// The state of the dashboard at this moment.
pub fn render_unified_state() -> (state: UIState)
    ensures
        exists|ts: Seq<char>| #[trigger] unified_state(state, ts),
{
    let now = clock_now();
    let state = render_unified_state_at(now.stamp.as_str());
    assert(unified_state(state, now.stamp@));
    state
}

} // verus!
