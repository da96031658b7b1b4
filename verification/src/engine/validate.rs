//! Validation suites: the tasks they hold, the score that tells how well the
//! bits of a run match what was to be expected of its task, and the summary
//! of a finished suite.

use vstd::prelude::*;
use crate::api::requests::{ValidateResp, ValidationResult};
use crate::json::{entries_view, put, Json, JsonView};
use crate::level::{decimal, fixed, in_unit, push_decimal, push_fixed};
use crate::text::{chars_of, concat, is_str, push_str, text_of};
use super::types::{Bits, Manifest, Policy};
use super::Kernel;

verus! {

/// The alignment boost that is set for what was asked: at least zero and at
/// most three tenths.
pub open spec fn boost_within(v: i64) -> i64 {
    if v < 0 {
        0
    } else if v > 300_000 {
        300_000
    } else {
        v
    }
}

/// Sets the alignment boost of the kernel, within its bounds.
pub fn set_align_boost(kernel: &mut Kernel, v: i64)
    ensures
        final(kernel).align_boost == boost_within(v),
        final(kernel).control == old(kernel).control,
        final(kernel).kpi_history == old(kernel).kpi_history,
        final(kernel).trace_history == old(kernel).trace_history,
{
    kernel.align_boost = if v < 0 {
        0
    } else if v > 300_000 {
        300_000
    } else {
        v
    };
}

/// The policy that validation suites run under.
pub fn suite_policy() -> (p: Policy)
    ensures
        p == (Policy { gamma_gate: 500_000, time_ms: 5000, max_risk: 500_000, tiny_diff_loc: 120 }),
{
    Policy { gamma_gate: 500_000, time_ms: 5000, max_risk: 500_000, tiny_diff_loc: 120 }
}

/// One task of a validation suite: the goal, the difficulty that its
/// uncertainty should come to, and its input.
#[derive(Debug)]
pub struct SuiteTask {
    pub goal_id: String,
    pub expected_difficulty: i64,
    pub inputs: Json,
}

/// The input of a task that echoes `message`.
pub open spec fn message_input(message: Seq<char>) -> JsonView {
    JsonView::Object(seq![("message"@, JsonView::Text(message))])
}

/// `t` is the task of the goal `goal` with this difficulty, with the message
/// `message` as its input or, where there is none, an empty input.
pub open spec fn is_task(
    t: SuiteTask,
    goal: Seq<char>,
    difficulty: i64,
    message: Option<Seq<char>>,
) -> bool {
    &&& t.goal_id@ == goal
    &&& t.expected_difficulty == difficulty
    &&& t.inputs@ == match message {
        Some(m) => message_input(m),
        None => JsonView::Object(Seq::empty()),
    }
}

/// A task with a message as its input.
fn task(goal: &str, difficulty: i64, message: &str) -> (t: SuiteTask)
    ensures
        is_task(t, goal@, difficulty, Some(message@)),
{
    let mut e: Vec<(String, Json)> = Vec::new();
    put(&mut e, "message", Json::text(message));
    assert(entries_view(e@) =~= seq![("message"@, JsonView::Text(message@))]);
    SuiteTask { goal_id: goal.to_owned(), expected_difficulty: difficulty, inputs: Json::Object(e) }
}

/// A task with an empty input.
fn bare_task(goal: &str, difficulty: i64) -> (t: SuiteTask)
    ensures
        is_task(t, goal@, difficulty, None),
{
    let e: Vec<(String, Json)> = Vec::new();
    assert(entries_view(e@) =~= Seq::<(Seq<char>, JsonView)>::empty());
    SuiteTask { goal_id: goal.to_owned(), expected_difficulty: difficulty, inputs: Json::Object(e) }
}

/// The suite `name` is known.
pub open spec fn known_suite(name: Seq<char>) -> bool {
    name == "easy"@ || name == "hard"@ || name == "impossible"@ || name == "adaptive"@
}

/// `tasks` are the tasks of the suite `name`.
pub open spec fn tasks_of(name: Seq<char>, tasks: Seq<SuiteTask>) -> bool {
    if name == "easy"@ {
        &&& tasks.len() == 3
        &&& is_task(tasks[0], "easy.echo1"@, 100_000, Some("test1"@))
        &&& is_task(tasks[1], "easy.echo2"@, 100_000, Some("test2"@))
        &&& is_task(tasks[2], "easy.echo3"@, 100_000, Some("test3"@))
    } else if name == "hard"@ {
        &&& tasks.len() == 3
        &&& is_task(tasks[0], "hard.delay1"@, 700_000, Some("slow1"@))
        &&& is_task(tasks[1], "hard.delay2"@, 700_000, Some("slow2"@))
        &&& is_task(tasks[2], "hard.delay3"@, 700_000, Some("slow3"@))
    } else if name == "impossible"@ {
        &&& tasks.len() == 3
        &&& is_task(tasks[0], "impossible.fail1"@, 900_000, None)
        &&& is_task(tasks[1], "impossible.fail2"@, 900_000, None)
        &&& is_task(tasks[2], "impossible.fail3"@, 900_000, None)
    } else {
        &&& tasks.len() == 4
        &&& is_task(tasks[0], "easy.adapt1"@, 100_000, Some("adapt1"@))
        &&& is_task(tasks[1], "hard.adapt2"@, 700_000, Some("adapt2"@))
        &&& is_task(tasks[2], "impossible.adapt3"@, 900_000, None)
        &&& is_task(tasks[3], "easy.adapt4"@, 100_000, Some("adapt4"@))
    }
}

/// The tasks of a validation suite, in the order in which they run; an error
/// for a suite that is not known.
pub fn suite_tasks(suite: &str) -> (r: Result<Vec<SuiteTask>, String>)
    ensures
        r is Ok <==> known_suite(suite@),
        r matches Ok(tasks) ==> tasks_of(suite@, tasks@),
        r matches Err(msg) ==> msg@ == "Unknown suite: "@ + suite@,
{
    let s = chars_of(suite);
    let mut tasks: Vec<SuiteTask> = Vec::new();
    if is_str(&s, "easy") {
        tasks.push(task("easy.echo1", 100_000, "test1"));
        tasks.push(task("easy.echo2", 100_000, "test2"));
        tasks.push(task("easy.echo3", 100_000, "test3"));
    } else if is_str(&s, "hard") {
        tasks.push(task("hard.delay1", 700_000, "slow1"));
        tasks.push(task("hard.delay2", 700_000, "slow2"));
        tasks.push(task("hard.delay3", 700_000, "slow3"));
    } else if is_str(&s, "impossible") {
        tasks.push(bare_task("impossible.fail1", 900_000));
        tasks.push(bare_task("impossible.fail2", 900_000));
        tasks.push(bare_task("impossible.fail3", 900_000));
    } else if is_str(&s, "adaptive") {
        tasks.push(task("easy.adapt1", 100_000, "adapt1"));
        tasks.push(task("hard.adapt2", 700_000, "adapt2"));
        tasks.push(bare_task("impossible.adapt3", 900_000));
        tasks.push(task("easy.adapt4", 100_000, "adapt4"));
    } else {
        return Err(concat("Unknown suite: ", suite));
    }
    Ok(tasks)
}

/// How well the uncertainty matches the difficulty that was expected: one
/// less their distance.
pub open spec fn uncertainty_accuracy(bits: Bits, expected: i64) -> int {
    1_000_000 - if bits.u >= expected {
        bits.u - expected
    } else {
        expected - bits.u
    }
}

/// How aware the run is of its failure: for a failed run its uncertainty,
/// for any other one less its uncertainty, which counts three tenths at
/// least.
pub open spec fn failure_awareness(bits: Bits) -> int {
    if bits.e > 0 {
        bits.u as int
    } else if bits.u > 300_000 {
        1_000_000 - bits.u
    } else {
        700_000
    }
}

/// How well the trust matches the outcome: the trust of a run without
/// error, one less the trust of a run with error.
pub open spec fn trust_calibration(bits: Bits) -> int {
    if bits.e == 0 {
        bits.t as int
    } else {
        1_000_000 - bits.t
    }
}

/// The score of a run: four tenths of the accuracy of its uncertainty, four
/// tenths of its awareness of failure, two tenths of the calibration of its
/// trust, and the alignment boost on top; at least zero and at most one.
pub open spec fn score_of(bits: Bits, expected: i64, boost: i64) -> int {
    let raw = (uncertainty_accuracy(bits, expected) * 4 + failure_awareness(bits) * 4
        + trust_calibration(bits) * 2) / 10 + boost;
    if raw < 0 {
        0
    } else if raw > 1_000_000 {
        1_000_000
    } else {
        raw
    }
}

/// The score of a run against the difficulty that was expected of its task.
pub fn metacognitive_score(manifest: &Manifest, expected_difficulty: i64, boost: i64) -> (score:
    i64)
    requires
        in_unit(manifest.bits.u),
        in_unit(manifest.bits.t),
        in_unit(expected_difficulty),
        0 <= boost <= 300_000,
    ensures
        score == score_of(manifest.bits, expected_difficulty, boost),
        in_unit(score),
{
    let bits = &manifest.bits;
    let ua: i64 = 1_000_000 - if bits.u >= expected_difficulty {
        bits.u - expected_difficulty
    } else {
        expected_difficulty - bits.u
    };
    let fa: i64 = if bits.e > 0 {
        bits.u
    } else if bits.u > 300_000 {
        1_000_000 - bits.u
    } else {
        700_000
    };
    let tc: i64 = if bits.e == 0 {
        bits.t
    } else {
        1_000_000 - bits.t
    };
    let raw: i64 = (ua * 4 + fa * 4 + tc * 2) / 10 + boost;
    if raw < 0 {
        0
    } else if raw > 1_000_000 {
        1_000_000
    } else {
        raw
    }
}

/// The verdict on an average score.
pub open spec fn verdict(avg: i64) -> Seq<char> {
    if avg >= 800_000 {
        "EXCELLENT metacognitive control"@
    } else if avg >= 600_000 {
        "GOOD metacognitive awareness"@
    } else if avg >= 400_000 {
        "MODERATE self-monitoring"@
    } else {
        "POOR metacognitive calibration"@
    }
}

/// The lowest of `start` and the values of `xs`.
pub open spec fn lowest(xs: Seq<i64>, start: i64) -> i64
    decreases xs.len(),
{
    if xs.len() == 0 {
        start
    } else {
        let rest = lowest(xs.drop_last(), start);
        if xs.last() < rest {
            xs.last()
        } else {
            rest
        }
    }
}

/// The highest of `start` and the values of `xs`.
pub open spec fn highest(xs: Seq<i64>, start: i64) -> i64
    decreases xs.len(),
{
    if xs.len() == 0 {
        start
    } else {
        let rest = highest(xs.drop_last(), start);
        if xs.last() > rest {
            xs.last()
        } else {
            rest
        }
    }
}

/// The uncertainties of the results, in order.
pub open spec fn uncertainties(results: Seq<ValidationResult>) -> Seq<i64> {
    Seq::new(results.len(), |i: int| results[i].actual_bits.u)
}

/// The trusts of the results, in order.
pub open spec fn trusts(results: Seq<ValidationResult>) -> Seq<i64> {
    Seq::new(results.len(), |i: int| results[i].actual_bits.t)
}

/// How many of the results carry an error.
pub open spec fn errors_in(results: Seq<ValidationResult>) -> nat
    decreases results.len(),
{
    if results.len() == 0 {
        0
    } else {
        errors_in(results.drop_last()) + if results.last().actual_bits.e > 0 {
            1nat
        } else {
            0nat
        }
    }
}

/// The summary of a finished suite: the verdict on its average score, the
/// number of results with an error, and the ranges of uncertainty and trust,
/// the first taken from one down and from zero up.
pub open spec fn summary_of(results: Seq<ValidationResult>, avg: i64) -> Seq<char> {
    verdict(avg) + " (score: "@ + fixed(avg as int, 2) + "). Errors: "@ + decimal(
        errors_in(results),
    ) + "/"@ + decimal(results.len()) + ". U range: "@ + fixed(
        lowest(uncertainties(results), 1_000_000) as int,
        2,
    ) + "-"@ + fixed(highest(uncertainties(results), 0) as int, 2) + ". T range: "@ + fixed(
        lowest(trusts(results), 1_000_000) as int,
        2,
    ) + "-"@ + fixed(highest(trusts(results), 0) as int, 2)
}

/// The summary of a finished suite.
pub fn generate_summary(results: &Vec<ValidationResult>, avg_score: i64) -> (r: String)
    ensures
        r@ == summary_of(results@, avg_score),
{
    let mut errors: usize = 0;
    let mut u_low: i64 = 1_000_000;
    let mut u_high: i64 = 0;
    let mut t_low: i64 = 1_000_000;
    let mut t_high: i64 = 0;
    let mut i: usize = 0;
    assert(uncertainties(results@.take(0)) =~= Seq::<i64>::empty());
    assert(trusts(results@.take(0)) =~= Seq::<i64>::empty());
    while i < results.len()
        invariant
            i <= results.len(),
            errors == errors_in(results@.take(i as int)),
            errors <= i,
            u_low == lowest(uncertainties(results@.take(i as int)), 1_000_000),
            u_high == highest(uncertainties(results@.take(i as int)), 0),
            t_low == lowest(trusts(results@.take(i as int)), 1_000_000),
            t_high == highest(trusts(results@.take(i as int)), 0),
        decreases results.len() - i,
    {
        proof {
            let next = results@.take(i + 1);
            assert(next.drop_last() =~= results@.take(i as int));
            assert(next.last() == results@[i as int]);
            assert(uncertainties(next).drop_last() =~= uncertainties(results@.take(i as int)));
            assert(trusts(next).drop_last() =~= trusts(results@.take(i as int)));
            assert(uncertainties(next).last() == results@[i as int].actual_bits.u);
            assert(trusts(next).last() == results@[i as int].actual_bits.t);
        }
        let b = &results[i].actual_bits;
        if b.e > 0 {
            errors += 1;
        }
        if b.u < u_low {
            u_low = b.u;
        }
        if b.u > u_high {
            u_high = b.u;
        }
        if b.t < t_low {
            t_low = b.t;
        }
        if b.t > t_high {
            t_high = b.t;
        }
        i += 1;
    }
    assert(results@.take(results@.len() as int) =~= results@);
    let status = if avg_score >= 800_000 {
        "EXCELLENT metacognitive control"
    } else if avg_score >= 600_000 {
        "GOOD metacognitive awareness"
    } else if avg_score >= 400_000 {
        "MODERATE self-monitoring"
    } else {
        "POOR metacognitive calibration"
    };
    let mut out = chars_of(status);
    push_str(&mut out, " (score: ");
    push_fixed(&mut out, avg_score, 2);
    push_str(&mut out, "). Errors: ");
    push_decimal(&mut out, errors as u64);
    push_str(&mut out, "/");
    push_decimal(&mut out, results.len() as u64);
    push_str(&mut out, ". U range: ");
    push_fixed(&mut out, u_low, 2);
    push_str(&mut out, "-");
    push_fixed(&mut out, u_high, 2);
    push_str(&mut out, ". T range: ");
    push_fixed(&mut out, t_low, 2);
    push_str(&mut out, "-");
    push_fixed(&mut out, t_high, 2);
    text_of(&out)
}

/// The sum of the scores of the results.
pub open spec fn total_score(results: Seq<ValidationResult>) -> int
    decreases results.len(),
{
    if results.len() == 0 {
        0
    } else {
        total_score(results.drop_last()) + results.last().score
    }
}

/// Every score is a level in the unit interval.
pub open spec fn scores_in_unit(results: Seq<ValidationResult>) -> bool {
    forall|i: int| 0 <= i < results.len() ==> in_unit(#[trigger] results[i].score)
}

/// The response for a finished suite: the average of the scores of its
/// results, the results, and their summary.
pub fn summarize_suite(results: Vec<ValidationResult>) -> (resp: ValidateResp)
    requires
        results@.len() > 0,
        scores_in_unit(results@),
    ensures
        resp.metacognitive_score == total_score(results@) / (results@.len() as int),
        resp.results == results,
        resp.summary@ == summary_of(results@, resp.metacognitive_score),
{
    let mut total: u128 = 0;
    let mut i: usize = 0;
    while i < results.len()
        invariant
            i <= results.len(),
            scores_in_unit(results@),
            total == total_score(results@.take(i as int)),
            total <= i * 1_000_000,
        decreases results.len() - i,
    {
        proof {
            assert(results@.take(i + 1).drop_last() =~= results@.take(i as int));
            assert(results@.take(i + 1).last() == results@[i as int]);
        }
        total = total + results[i].score as u128;
        i += 1;
    }
    assert(results@.take(results@.len() as int) =~= results@);
    let n = results.len() as u128;
    let avg: u128 = total / n;
    assert(avg <= 1_000_000) by (nonlinear_arith)
        requires
            avg == total / n,
            total <= n * 1_000_000,
            n > 0,
    ;
    let avg = avg as i64;
    let summary = generate_summary(&results, avg);
    ValidateResp { metacognitive_score: avg, results, summary }
}

} // verus!
