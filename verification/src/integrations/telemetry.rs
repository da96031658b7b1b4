//! The telemetry store and the scorecard drawn from it.

use vstd::prelude::*;
use crate::level::{fixed, push_fixed};
use crate::text::{chars_of, is_str, push_str, text_of, views};
use super::TelemetryEvent;

verus! {

/// The recorded events, in the order in which they came.
pub struct TelemetryStore {
    pub events: Vec<TelemetryEvent>,
}

/// The health of one component.
#[derive(Debug)]
pub struct ComponentScore {
    pub component: String,
    pub score: i64,
}

/// An event counts as a success: it carries no bits, or bits without error.
pub open spec fn succeeded(e: TelemetryEvent) -> bool {
    match e.bits {
        Some(b) => b.e == 0,
        None => true,
    }
}

/// How many of the events belong to the component `name`.
pub open spec fn events_of(events: Seq<TelemetryEvent>, name: Seq<char>) -> nat
    decreases events.len(),
{
    if events.len() == 0 {
        0
    } else {
        events_of(events.drop_last(), name) + if events.last().component@ == name {
            1nat
        } else {
            0nat
        }
    }
}

/// How many of the events belong to the component `name` and count as a
/// success.
pub open spec fn successes_of(events: Seq<TelemetryEvent>, name: Seq<char>) -> nat
    decreases events.len(),
{
    if events.len() == 0 {
        0
    } else {
        successes_of(events.drop_last(), name) + if events.last().component@ == name
            && succeeded(events.last()) {
            1nat
        } else {
            0nat
        }
    }
}

/// The health of a component: the share of its events that count as a
/// success, one where it has no events.
pub open spec fn health(events: Seq<TelemetryEvent>, name: Seq<char>) -> int {
    if events_of(events, name) == 0 {
        1_000_000
    } else {
        ((successes_of(events, name) * 1_000_000) as int) / (events_of(events, name) as int)
    }
}

/// The successes of a component are among its events.
pub proof fn lemma_successes_bound(events: Seq<TelemetryEvent>, name: Seq<char>)
    ensures
        successes_of(events, name) <= events_of(events, name) <= events.len(),
    decreases events.len(),
{
    if events.len() > 0 {
        lemma_successes_bound(events.drop_last(), name);
    }
}

/// The decision for a component of this health: to prune it where it lies
/// under one half, to invest in it where it lies above nine tenths.
pub open spec fn decision(name: Seq<char>, score: i64) -> Option<Seq<char>> {
    if score < 500_000 {
        Some("PRUNE: "@ + name + " (score: "@ + fixed(score as int, 2) + ")"@)
    } else if score > 900_000 {
        Some("INVEST: "@ + name + " (score: "@ + fixed(score as int, 2) + ")"@)
    } else {
        None
    }
}

/// The decision for a component of this health.
pub fn decide(name: &str, score: i64) -> (r: Option<String>)
    ensures
        crate::text::opt_view(r) == decision(name@, score),
{
    if score < 500_000 {
        let mut out = chars_of("PRUNE: ");
        push_str(&mut out, name);
        push_str(&mut out, " (score: ");
        push_fixed(&mut out, score, 2);
        push_str(&mut out, ")");
        Some(text_of(&out))
    } else if score > 900_000 {
        let mut out = chars_of("INVEST: ");
        push_str(&mut out, name);
        push_str(&mut out, " (score: ");
        push_fixed(&mut out, score, 2);
        push_str(&mut out, ")");
        Some(text_of(&out))
    } else {
        None
    }
}

/// The decision, where there is one, as a list of one.
pub open spec fn decided(d: Option<Seq<char>>) -> Seq<Seq<char>> {
    match d {
        Some(s) => seq![s],
        None => Seq::<Seq<char>>::empty(),
    }
}

/// The decision for the component `name` among these events.
pub open spec fn decision_for(events: Seq<TelemetryEvent>, name: Seq<char>) -> Seq<Seq<char>> {
    decided(decision(name, health(events, name) as i64))
}

impl TelemetryStore {
    /// An empty store.
    pub fn new() -> (s: Self)
        ensures
            s.events@.len() == 0,
    {
        TelemetryStore { events: Vec::new() }
    }

    /// Records an event.
    pub fn append(&mut self, event: TelemetryEvent)
        ensures
            final(self).events@ == old(self).events@.push(event),
    {
        self.events.push(event);
    }

    /// The health of the component `name`.
    pub fn health_of(&self, name: &str) -> (score: i64)
        ensures
            score == health(self.events@, name@),
            0 <= score <= 1_000_000,
    {
        let mut total: u64 = 0;
        let mut good: u64 = 0;
        let mut i: usize = 0;
        while i < self.events.len()
            invariant
                i <= self.events.len(),
                total == events_of(self.events@.take(i as int), name@),
                good == successes_of(self.events@.take(i as int), name@),
                good <= total <= i,
            decreases self.events.len() - i,
        {
            proof {
                assert(self.events@.take(i + 1).drop_last() =~= self.events@.take(i as int));
                assert(self.events@.take(i + 1).last() == self.events@[i as int]);
            }
            let e = &self.events[i];
            let c = chars_of(e.component.as_str());
            if is_str(&c, name) {
                total += 1;
                let ok = match &e.bits {
                    Some(b) => b.e == 0,
                    None => true,
                };
                if ok {
                    good += 1;
                }
            }
            i += 1;
        }
        assert(self.events@.take(self.events@.len() as int) =~= self.events@);
        if total == 0 {
            1_000_000
        } else {
            assert(good * 1_000_000 <= total * 1_000_000) by (nonlinear_arith)
                requires
                    good <= total,
            ;
            assert(total * 1_000_000 <= 0xffff_ffff_ffff_ffff * 1_000_000) by (nonlinear_arith)
                requires
                    total <= 0xffff_ffff_ffff_ffff,
            ;
            let score: u128 = ((good as u128) * 1_000_000) / (total as u128);
            assert(score <= 1_000_000) by (nonlinear_arith)
                requires
                    score == (good * 1_000_000) / (total as int),
                    good <= total,
                    total > 0,
            ;
            score as i64
        }
    }

    /// The health of each of the four components, in the order `agent`,
    /// `flywheel`, `monorepo`, `kpi`.
    pub fn nightly_scorecard(&self) -> (scores: Vec<ComponentScore>)
        ensures
            scores@.len() == 4,
            scores@[0].component@ == "agent"@ && scores@[0].score == health(
                self.events@,
                "agent"@,
            ),
            scores@[1].component@ == "flywheel"@ && scores@[1].score == health(
                self.events@,
                "flywheel"@,
            ),
            scores@[2].component@ == "monorepo"@ && scores@[2].score == health(
                self.events@,
                "monorepo"@,
            ),
            scores@[3].component@ == "kpi"@ && scores@[3].score == health(self.events@, "kpi"@),
    {
        let mut scores: Vec<ComponentScore> = Vec::new();
        scores.push(
            ComponentScore { component: "agent".to_owned(), score: self.health_of("agent") },
        );
        scores.push(
            ComponentScore { component: "flywheel".to_owned(), score: self.health_of("flywheel") },
        );
        scores.push(
            ComponentScore { component: "monorepo".to_owned(), score: self.health_of("monorepo") },
        );
        scores.push(ComponentScore { component: "kpi".to_owned(), score: self.health_of("kpi") });
        scores
    }

    /// The decisions that the scorecard leads to: for each component, in the
    /// order of the scorecard, to prune it or to invest in it, where its
    /// health asks for either.
    pub fn prune_or_invest_decisions(&self) -> (decisions: Vec<String>)
        ensures
            views(decisions@) == decision_for(self.events@, "agent"@) + decision_for(
                self.events@,
                "flywheel"@,
            ) + decision_for(self.events@, "monorepo"@) + decision_for(self.events@, "kpi"@),
    {
        let scorecard = self.nightly_scorecard();
        let mut decisions: Vec<String> = Vec::new();
        assert(views(decisions@) =~= Seq::<Seq<char>>::empty());
        push_decision(&mut decisions, &scorecard[0]);
        push_decision(&mut decisions, &scorecard[1]);
        push_decision(&mut decisions, &scorecard[2]);
        push_decision(&mut decisions, &scorecard[3]);
        assert(views(decisions@) =~= decision_for(self.events@, "agent"@) + decision_for(
            self.events@,
            "flywheel"@,
        ) + decision_for(self.events@, "monorepo"@) + decision_for(self.events@, "kpi"@));
        decisions
    }
}

/// Appends the decision for a component, where there is one.
fn push_decision(decisions: &mut Vec<String>, score: &ComponentScore)
    ensures
        views(final(decisions)@) == views(old(decisions)@) + decided(
            decision(score.component@, score.score),
        ),
{
    match decide(score.component.as_str(), score.score) {
        Some(text) => {
            decisions.push(text);
            assert(views(decisions@) =~= views(old(decisions)@) + seq![text@]);
        },
        None => {
            assert(views(decisions@) =~= views(old(decisions)@) + Seq::<Seq<char>>::empty());
        },
    }
}

} // verus!
