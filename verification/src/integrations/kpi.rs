//! Indicators and the weekly planning that follows them.

use vstd::prelude::*;
use super::{AgentGoal, KPIDashboard};

verus! {

/// The indicators as they stand.
pub fn current_scores() -> (k: KPIDashboard)
    ensures
        k.signal_density == 750_000,
        k.flow_minutes == 600_000,
        k.knowledge_yield == 850_000,
        k.noise_ratio == 700_000,
        k.weekly_trend@ == seq![650_000i64, 680_000, 720_000, 750_000, 730_000],
{
    let mut weekly_trend: Vec<i64> = Vec::new();
    weekly_trend.push(650_000);
    weekly_trend.push(680_000);
    weekly_trend.push(720_000);
    weekly_trend.push(750_000);
    weekly_trend.push(730_000);
    assert(weekly_trend@ =~= seq![650_000i64, 680_000, 720_000, 750_000, 730_000]);
    KPIDashboard {
        signal_density: 750_000,
        flow_minutes: 600_000,
        knowledge_yield: 850_000,
        noise_ratio: 700_000,
        weekly_trend,
    }
}

/// The flow indicator needs a goal: it lies under seven tenths.
pub open spec fn flow_needs_goal(k: KPIDashboard) -> bool {
    k.flow_minutes < 700_000
}

/// The noise indicator needs a goal: it lies under eight tenths.
pub open spec fn noise_needs_goal(k: KPIDashboard) -> bool {
    k.noise_ratio < 800_000
}

/// `g` is the goal for an indicator that stands at `score`: the lower the
/// score, the higher the priority.
pub open spec fn goal_for(
    g: AgentGoal,
    id: Seq<char>,
    target: Seq<char>,
    score: i64,
    impact: i64,
) -> bool {
    &&& g.id@ == id
    &&& g.kpi_target@ == target
    &&& g.priority == 1_000_000 - score
    &&& g.estimated_impact == impact
}

/// The goals of the week for these indicators: one for the flow indicator
/// and one for the noise indicator, each where the indicator is low, in this
/// order.
pub fn plan_week(k: &KPIDashboard) -> (goals: Vec<AgentGoal>)
    requires
        -1_000_000_000_000 <= k.flow_minutes <= 1_000_000_000_000,
        -1_000_000_000_000 <= k.noise_ratio <= 1_000_000_000_000,
    ensures
        goals@.len() == (if flow_needs_goal(*k) {
            1int
        } else {
            0int
        }) + (if noise_needs_goal(*k) {
            1int
        } else {
            0int
        }),
        flow_needs_goal(*k) ==> goal_for(
            goals@[0],
            "improve-flow-minutes"@,
            "flow_minutes"@,
            k.flow_minutes,
            150_000,
        ),
        noise_needs_goal(*k) ==> goal_for(
            goals@[goals@.len() - 1],
            "reduce-noise-ratio"@,
            "noise_ratio"@,
            k.noise_ratio,
            100_000,
        ),
{
    let mut goals: Vec<AgentGoal> = Vec::new();
    if k.flow_minutes < 700_000 {
        goals.push(
            AgentGoal {
                id: "improve-flow-minutes".to_owned(),
                kpi_target: "flow_minutes".to_owned(),
                priority: 1_000_000 - k.flow_minutes,
                estimated_impact: 150_000,
            },
        );
    }
    if k.noise_ratio < 800_000 {
        goals.push(
            AgentGoal {
                id: "reduce-noise-ratio".to_owned(),
                kpi_target: "noise_ratio".to_owned(),
                priority: 1_000_000 - k.noise_ratio,
                estimated_impact: 100_000,
            },
        );
    }
    goals
}

/// The goals of the week for the indicators as they stand.
pub fn weekly_planning() -> (goals: Vec<AgentGoal>)
    ensures
        goals@.len() == 2,
        goal_for(goals@[0], "improve-flow-minutes"@, "flow_minutes"@, 600_000, 150_000),
        goal_for(goals@[1], "reduce-noise-ratio"@, "noise_ratio"@, 700_000, 100_000),
{
    let k = current_scores();
    plan_week(&k)
}

/// How well the impact of a goal was predicted: one less the distance
/// between the estimate and what came of it.
pub open spec fn prediction_accuracy(estimated: i64, actual: i64) -> int {
    1_000_000 - if estimated >= actual {
        estimated - actual
    } else {
        actual - estimated
    }
}

/// How well the impact of a goal was predicted.
pub fn track_kpi_impact(goal: &AgentGoal, actual_impact: i64) -> (accuracy: i64)
    requires
        -1_000_000_000_000 <= goal.estimated_impact <= 1_000_000_000_000,
        -1_000_000_000_000 <= actual_impact <= 1_000_000_000_000,
    ensures
        accuracy == prediction_accuracy(goal.estimated_impact, actual_impact),
{
    let distance = if goal.estimated_impact >= actual_impact {
        goal.estimated_impact - actual_impact
    } else {
        actual_impact - goal.estimated_impact
    };
    1_000_000 - distance
}

} // verus!
