//! What surrounds a run: the search flywheel, pull requests, indicators and
//! telemetry.

pub mod flywheel;
pub mod kpi;
pub mod monorepo;
pub mod telemetry;
pub mod ui;

use vstd::prelude::*;
use crate::engine::types::{Bits, Manifest};
use crate::json::Json;

verus! {

/// One recorded event of a component. `cost` and `kpi_impact` are levels.
#[derive(Debug)]
pub struct TelemetryEvent {
    pub ts: String,
    pub component: String,
    pub event_type: String,
    pub run_id: Option<String>,
    pub bits: Option<Bits>,
    pub cost: Option<i64>,
    pub kpi_impact: Option<i64>,
    pub metadata: Json,
}

/// A goal of the weekly planning. `priority` and `estimated_impact` are
/// levels.
#[derive(Debug)]
pub struct AgentGoal {
    pub id: String,
    pub kpi_target: String,
    pub priority: i64,
    pub estimated_impact: i64,
}

/// What the dashboard shows.
#[derive(Debug)]
pub struct UIState {
    pub search_hits: Vec<SearchResult>,
    pub agent_runs: Vec<Manifest>,
    pub eval_scores: Vec<EvalResult>,
    pub cost_tracking: CostSummary,
    pub kpi_dashboard: KPIDashboard,
}

/// One hit of a search. `relevance` is a level.
#[derive(Debug)]
pub struct SearchResult {
    pub id: String,
    pub content: String,
    pub relevance: i64,
    pub metadata: Json,
}

/// One evaluation. `score` is a level.
#[derive(Debug)]
pub struct EvalResult {
    pub eval_id: String,
    pub score: i64,
    pub component: String,
    pub timestamp: String,
}

/// What the runs have cost, in millionths of the currency unit.
#[derive(Debug)]
pub struct CostSummary {
    pub total_tokens: u64,
    pub total_cost: i64,
    pub cost_per_success: i64,
}

/// The indicators, each a level.
#[derive(Debug)]
pub struct KPIDashboard {
    pub signal_density: i64,
    pub flow_minutes: i64,
    pub knowledge_yield: i64,
    pub noise_ratio: i64,
    pub weekly_trend: Vec<i64>,
}

} // verus!
