//! Multiway rewriting: all the ways in which a set of rules rewrites a seed
//! string, level by level, as a graph of states and rewriting steps.

use vstd::prelude::*;
use crate::ambient::{debug_quote, debug_quoted};
use crate::json::{entries_view, items_view, put, Json, JsonView};
use crate::level::{decimal, push_decimal};
use crate::text::{
    chars_of, has_at, occurs_at, pieces, push_all, push_str, same_text, slice, text_of,
};

verus! {

/// One rewriting step: the state `src` becomes the state `dst` at the level
/// `depth` by the rule with the pattern `rule`.
pub struct Step {
    pub src: usize,
    pub dst: usize,
    pub depth: usize,
    pub rule: Vec<char>,
}

/// A multiway graph: its states, each once, in the order in which they were
/// first reached; the level at which each was first reached; its steps, in
/// the order in which they were taken; and the states of the level that was
/// reached last.
pub struct Multiway {
    pub states: Vec<Vec<char>>,
    pub depths: Vec<usize>,
    pub steps: Vec<Step>,
    pub frontier: Vec<Vec<char>>,
}

/// One rule: every occurrence of the pattern can be replaced.
pub struct Rule {
    pub pattern: Vec<char>,
    pub replacement: Vec<char>,
}

/// What a multiway graph holds.
pub struct Graph {
    pub states: Seq<Seq<char>>,
    pub depths: Seq<int>,
    pub steps: Seq<(int, int, int, Seq<char>)>,
    pub frontier: Seq<Seq<char>>,
}

/// The position of the text `s` among `states`, or their number where it
/// is not among them.
pub open spec fn place(states: Seq<Seq<char>>, s: Seq<char>) -> int
    decreases states.len(),
{
    if states.len() == 0 || states[0] == s {
        0
    } else {
        1 + place(states.drop_first(), s)
    }
}

/// Where `place` points: at the first state that equals the text.
pub proof fn lemma_place(states: Seq<Seq<char>>, s: Seq<char>, k: int)
    requires
        0 <= k <= states.len(),
        forall|j: int| 0 <= j < k ==> #[trigger] states[j] != s,
        k < states.len() ==> states[k] == s,
    ensures
        place(states, s) == k,
    decreases k,
{
    if k > 0 {
        let t = states.drop_first();
        assert forall|j: int| 0 <= j < k - 1 implies #[trigger] t[j] != s by {
            assert(t[j] == states[j + 1]);
        }
        lemma_place(t, s, k - 1);
    }
}

/// The state `s` with the occurrence of `pattern` at `at` replaced.
pub open spec fn rewritten(
    s: Seq<char>,
    pattern: Seq<char>,
    replacement: Seq<char>,
    at: int,
) -> Seq<char> {
    s.take(at) + replacement + s.skip(at + pattern.len())
}

/// The graph after one step from the state `src` to the state `target` at
/// the level `depth` by the rule `pattern`: a target that is new becomes a
/// state, first reached at this level; the step is recorded; and the target
/// joins the frontier where it is not in it.
pub open spec fn stepped(
    g: Graph,
    src: Seq<char>,
    depth: int,
    pattern: Seq<char>,
    target: Seq<char>,
) -> Graph {
    let known = place(g.states, target) < g.states.len();
    Graph {
        states: if known {
            g.states
        } else {
            g.states.push(target)
        },
        depths: if known {
            g.depths
        } else {
            g.depths.push(depth)
        },
        steps: g.steps.push((place(g.states, src), place(g.states, target), depth, pattern)),
        frontier: if place(g.frontier, target) < g.frontier.len() {
            g.frontier
        } else {
            g.frontier.push(target)
        },
    }
}

/// The graph after the rule was applied to the state `src` at each place
/// from `from` on where its pattern occurs, from left to right. A rule with
/// an empty pattern applies nowhere.
pub open spec fn after_rule(
    g: Graph,
    src: Seq<char>,
    depth: int,
    pattern: Seq<char>,
    replacement: Seq<char>,
    from: int,
) -> Graph
    decreases src.len() - from,
{
    if pattern.len() == 0 || from < 0 || from + pattern.len() > src.len() {
        g
    } else if occurs_at(src, pattern, from) {
        after_rule(
            stepped(g, src, depth, pattern, rewritten(src, pattern, replacement, from)),
            src,
            depth,
            pattern,
            replacement,
            from + 1,
        )
    } else {
        after_rule(g, src, depth, pattern, replacement, from + 1)
    }
}

/// The graph after the rules from the rule `k` on were applied to the state
/// `src`, in order.
pub open spec fn after_rules(
    g: Graph,
    src: Seq<char>,
    depth: int,
    rules: Seq<(Seq<char>, Seq<char>)>,
    k: int,
) -> Graph
    decreases rules.len() - k,
{
    if k < 0 || k >= rules.len() {
        g
    } else {
        after_rules(
            after_rule(g, src, depth, rules[k].0, rules[k].1, 0),
            src,
            depth,
            rules,
            k + 1,
        )
    }
}

/// The graph after the rules were applied to the states of `layer` from the
/// state `j` on, in order.
pub open spec fn after_layer(
    g: Graph,
    layer: Seq<Seq<char>>,
    depth: int,
    rules: Seq<(Seq<char>, Seq<char>)>,
    j: int,
) -> Graph
    decreases layer.len() - j,
{
    if j < 0 || j >= layer.len() {
        g
    } else {
        after_layer(after_rules(g, layer[j], depth, rules, 0), layer, depth, rules, j + 1)
    }
}

/// The graph after `levels` more levels: at each level the rules are applied
/// to the states of the frontier, and what they yield is the next frontier.
pub open spec fn after_levels(
    g: Graph,
    depth: int,
    rules: Seq<(Seq<char>, Seq<char>)>,
    levels: nat,
) -> Graph
    decreases levels,
{
    if levels == 0 {
        g
    } else {
        after_levels(
            after_layer(
                Graph { frontier: Seq::empty(), ..g },
                g.frontier,
                depth + 1,
                rules,
                0,
            ),
            depth + 1,
            rules,
            (levels - 1) as nat,
        )
    }
}

/// The multiway graph of a seed: the seed alone, and `depth` levels of
/// rewriting from it.
pub open spec fn multiway_of(seed: Seq<char>, rules: Seq<(Seq<char>, Seq<char>)>, depth: nat) -> Graph {
    after_levels(
        Graph { states: seq![seed], depths: seq![0int], steps: Seq::empty(), frontier: seq![seed] },
        0,
        rules,
        depth,
    )
}

/// The rules as pairs of pattern and replacement.
pub open spec fn rules_view(rules: Seq<Rule>) -> Seq<(Seq<char>, Seq<char>)> {
    Seq::new(rules.len(), |i: int| (rules[i].pattern@, rules[i].replacement@))
}

/// The steps as they stand in a graph.
pub open spec fn steps_view(steps: Seq<Step>) -> Seq<(int, int, int, Seq<char>)> {
    Seq::new(
        steps.len(),
        |i: int| (steps[i].src as int, steps[i].dst as int, steps[i].depth as int, steps[i].rule@),
    )
}

/// The levels as they stand in a graph.
pub open spec fn depths_view(depths: Seq<usize>) -> Seq<int> {
    Seq::new(depths.len(), |i: int| depths[i] as int)
}

impl View for Multiway {
    type V = Graph;

    open spec fn view(&self) -> Graph {
        Graph {
            states: pieces(self.states@),
            depths: depths_view(self.depths@),
            steps: steps_view(self.steps@),
            frontier: pieces(self.frontier@),
        }
    }
}

impl Multiway {
    /// Every state has its level.
    pub open spec fn leveled(&self) -> bool {
        self.depths@.len() == self.states@.len()
    }
}

/// The position of the text `s` among `states`.
pub fn place_of(states: &Vec<Vec<char>>, s: &Vec<char>) -> (k: usize)
    ensures
        k == place(pieces(states@), s@),
        k <= states@.len(),
{
    let ghost all = pieces(states@);
    let mut k: usize = 0;
    while k < states.len()
        invariant
            k <= states.len(),
            all == pieces(states@),
            forall|j: int| 0 <= j < k ==> #[trigger] all[j] != s@,
        decreases states.len() - k,
    {
        assert(all[k as int] == states@[k as int]@);
        if same_text(&states[k], s) {
            proof {
                lemma_place(all, s@, k as int);
            }
            return k;
        }
        k += 1;
    }
    proof {
        lemma_place(all, s@, k as int);
    }
    k
}

/// A copy of a text.
fn copy_text(s: &Vec<char>) -> (r: Vec<char>)
    ensures
        r@ == s@,
{
    let r = slice(s, 0, s.len());
    assert(r@ =~= s@);
    r
}

/// Takes one step in the graph.
pub fn take_step(g: &mut Multiway, src: &Vec<char>, depth: usize, pattern: &Vec<char>, target: Vec<
    char,
>)
    ensures
        final(g)@ == stepped(old(g)@, src@, depth as int, pattern@, target@),
        old(g).leveled() ==> final(g).leveled(),
{
    let ghost before = g@;
    let from = place_of(&g.states, src);
    let to = place_of(&g.states, &target);
    let in_frontier = place_of(&g.frontier, &target) < g.frontier.len();
    if to >= g.states.len() {
        g.states.push(copy_text(&target));
        g.depths.push(depth);
    }
    g.steps.push(Step { src: from, dst: to, depth, rule: copy_text(pattern) });
    if !in_frontier {
        g.frontier.push(target);
    }
    proof {
        let after = stepped(before, src@, depth as int, pattern@, target@);
        assert(g@.states =~= after.states);
        assert(g@.depths =~= after.depths);
        assert(g@.steps =~= after.steps);
        assert(g@.frontier =~= after.frontier);
    }
}

/// Applies one rule to the state `src` at each place where its pattern
/// occurs.
pub fn apply_rule(g: &mut Multiway, src: &Vec<char>, depth: usize, rule: &Rule)
    ensures
        final(g)@ == after_rule(
            old(g)@,
            src@,
            depth as int,
            rule.pattern@,
            rule.replacement@,
            0,
        ),
        old(g).leveled() ==> final(g).leveled(),
{
    if rule.pattern.len() == 0 || rule.pattern.len() > src.len() {
        return ;
    }
    let last = src.len() - rule.pattern.len();
    let mut at: usize = 0;
    while at <= last
        invariant
            at <= last + 1,
            last == src.len() - rule.pattern.len(),
            rule.pattern.len() > 0,
            old(g).leveled() ==> g.leveled(),
            after_rule(old(g)@, src@, depth as int, rule.pattern@, rule.replacement@, 0)
                == after_rule(g@, src@, depth as int, rule.pattern@, rule.replacement@, at as int),
        decreases last + 1 - at,
    {
        if has_at(src, &rule.pattern, at) {
            let mut target = slice(src, 0, at);
            push_all(&mut target, &rule.replacement);
            let tail = slice(src, at + rule.pattern.len(), src.len());
            push_all(&mut target, &tail);
            assert(target@ =~= rewritten(src@, rule.pattern@, rule.replacement@, at as int));
            take_step(g, src, depth, &rule.pattern, target);
        }
        at += 1;
    }
}

/// Applies the rules to the state `src`, in order.
pub fn apply_rules(g: &mut Multiway, src: &Vec<char>, depth: usize, rules: &Vec<Rule>)
    ensures
        final(g)@ == after_rules(old(g)@, src@, depth as int, rules_view(rules@), 0),
        old(g).leveled() ==> final(g).leveled(),
{
    let mut k: usize = 0;
    while k < rules.len()
        invariant
            k <= rules.len(),
            old(g).leveled() ==> g.leveled(),
            after_rules(old(g)@, src@, depth as int, rules_view(rules@), 0) == after_rules(
                g@,
                src@,
                depth as int,
                rules_view(rules@),
                k as int,
            ),
        decreases rules.len() - k,
    {
        assert(rules_view(rules@)[k as int] == (rules@[k as int].pattern@, rules@[k as int].replacement@));
        apply_rule(g, src, depth, &rules[k]);
        k += 1;
    }
}

/// The multiway graph of a seed: `depth` levels of rewriting by the rules.
pub fn multiway(seed: &Vec<char>, rules: &Vec<Rule>, depth: usize) -> (g: Multiway)
    ensures
        g@ == multiway_of(seed@, rules_view(rules@), depth as nat),
        g.leveled(),
{
    let mut states: Vec<Vec<char>> = Vec::new();
    states.push(copy_text(seed));
    let mut depths: Vec<usize> = Vec::new();
    depths.push(0);
    let mut frontier: Vec<Vec<char>> = Vec::new();
    frontier.push(copy_text(seed));
    let mut g = Multiway { states, depths, steps: Vec::new(), frontier };
    proof {
        assert(g@.states =~= seq![seed@]);
        assert(g@.depths =~= seq![0int]);
        assert(g@.steps =~= Seq::empty());
        assert(g@.frontier =~= seq![seed@]);
    }
    let mut d: usize = 0;
    while d < depth
        invariant
            d <= depth,
            g.leveled(),
            multiway_of(seed@, rules_view(rules@), depth as nat) == after_levels(
                g@,
                d as int,
                rules_view(rules@),
                (depth - d) as nat,
            ),
        decreases depth - d,
    {
        let mut layer: Vec<Vec<char>> = Vec::new();
        let ghost before = g@;
        let Multiway { states, depths, steps, frontier } = g;
        layer = frontier;
        g = Multiway { states, depths, steps, frontier: Vec::new() };
        proof {
            assert(g@.frontier =~= Seq::<Seq<char>>::empty());
            assert(g@ == (Graph { frontier: Seq::empty(), ..before }));
            assert(pieces(layer@) == before.frontier);
        }
        let ghost cleared = g@;
        let mut j: usize = 0;
        while j < layer.len()
            invariant
                j <= layer.len(),
                d < depth,
                g.leveled(),
                after_layer(cleared, pieces(layer@), d + 1, rules_view(rules@), 0) == after_layer(
                    g@,
                    pieces(layer@),
                    d + 1,
                    rules_view(rules@),
                    j as int,
                ),
            decreases layer.len() - j,
        {
            assert(pieces(layer@)[j as int] == layer@[j as int]@);
            apply_rules(&mut g, &layer[j], d + 1, rules);
            j += 1;
        }
        d += 1;
    }
    g
}

/// The pair of texts that an item of a list of rules gives: a list whose
/// first two items are texts.
pub open spec fn rule_of(item: JsonView) -> Option<(Seq<char>, Seq<char>)> {
    match (item.item(0), item.item(1)) {
        (Some(a), Some(b)) => match (a.as_text(), b.as_text()) {
            (Some(p), Some(r)) => Some((p, r)),
            _ => None,
        },
        _ => None,
    }
}

/// The rules that a list gives: one for each item that gives a pair of
/// texts, in order.
pub open spec fn rules_in(items: Seq<JsonView>) -> Seq<(Seq<char>, Seq<char>)>
    decreases items.len(),
{
    if items.len() == 0 {
        Seq::<(Seq<char>, Seq<char>)>::empty()
    } else {
        match rule_of(items.last()) {
            Some(r) => rules_in(items.drop_last()).push(r),
            None => rules_in(items.drop_last()),
        }
    }
}

/// The rules of a multiway run: those that the field `rules` of the input
/// lists, or the two rules `01 → 10` and `10 → 011` where the input has no
/// such list.
pub open spec fn rules_of(inputs: JsonView) -> Seq<(Seq<char>, Seq<char>)> {
    match inputs.get("rules"@) {
        Some(JsonView::List(items)) => rules_in(items),
        _ => seq![("01"@, "10"@), ("10"@, "011"@)],
    }
}

/// The rules of a multiway run.
pub fn parse_rules(inputs: &Json) -> (rules: Vec<Rule>)
    ensures
        rules_view(rules@) == rules_of(inputs@),
{
    let mut rules: Vec<Rule> = Vec::new();
    let listed = match inputs.get("rules") {
        Some(v) => v.as_array(),
        None => None,
    };
    match listed {
        Some(items) => {
            let ghost all = items_view(items@);
            let mut i: usize = 0;
            assert(all.take(0) =~= Seq::<JsonView>::empty());
            assert(rules_view(rules@) =~= Seq::<(Seq<char>, Seq<char>)>::empty());
            while i < items.len()
                invariant
                    i <= items.len(),
                    all == items_view(items@),
                    rules_view(rules@) == rules_in(all.take(i as int)),
                decreases items.len() - i,
            {
                let ghost before = rules_view(rules@);
                proof {
                    assert(all.take(i + 1).drop_last() =~= all.take(i as int));
                    assert(all.take(i + 1).last() == items@[i as int]@);
                }
                let pair = &items[i];
                let a = match pair.item(0) {
                    Some(v) => v.as_str(),
                    None => None,
                };
                let b = match pair.item(1) {
                    Some(v) => v.as_str(),
                    None => None,
                };
                match (a, b) {
                    (Some(p), Some(r)) => {
                        rules.push(Rule { pattern: chars_of(p), replacement: chars_of(r) });
                        assert(rules_view(rules@) =~= before.push((p@, r@)));
                    },
                    _ => {},
                }
                i += 1;
            }
            assert(all.take(items@.len() as int) =~= all);
        },
        None => {
            rules.push(Rule { pattern: chars_of("01"), replacement: chars_of("10") });
            rules.push(Rule { pattern: chars_of("10"), replacement: chars_of("011") });
            assert(rules_view(rules@) =~= seq![("01"@, "10"@), ("10"@, "011"@)]);
        },
    }
    rules
}

/// The rules as they stand in the evidence of a run: a list of pairs.
pub open spec fn rules_evidence(rules: Seq<(Seq<char>, Seq<char>)>) -> JsonView {
    JsonView::List(
        Seq::new(
            rules.len(),
            |i: int| JsonView::List(seq![JsonView::Text(rules[i].0), JsonView::Text(rules[i].1)]),
        ),
    )
}

/// The rules as they stand in the evidence of a run.
pub fn rules_json(rules: &Vec<Rule>) -> (r: Json)
    ensures
        r@ == rules_evidence(rules_view(rules@)),
{
    let mut out: Vec<Json> = Vec::new();
    let mut i: usize = 0;
    while i < rules.len()
        invariant
            i <= rules.len(),
            out@.len() == i,
            forall|j: int|
                0 <= j < i ==> (#[trigger] out@[j])@ == JsonView::List(
                    seq![
                        JsonView::Text(rules@[j].pattern@),
                        JsonView::Text(rules@[j].replacement@),
                    ],
                ),
        decreases rules.len() - i,
    {
        let mut pair: Vec<Json> = Vec::new();
        pair.push(Json::Text(text_of(&rules[i].pattern)));
        pair.push(Json::Text(text_of(&rules[i].replacement)));
        assert(items_view(pair@) =~= seq![
            JsonView::Text(rules@[i as int].pattern@),
            JsonView::Text(rules@[i as int].replacement@),
        ]);
        out.push(Json::List(pair));
        i += 1;
    }
    assert(items_view(out@) =~= rules_evidence(rules_view(rules@))->List_0);
    Json::List(out)
}

/// The record of the state `i` of a graph.
pub open spec fn state_record(g: Graph, i: int) -> JsonView {
    JsonView::Object(
        seq![
            ("depth"@, JsonView::Int(g.depths[i])),
            ("id"@, JsonView::Int(i)),
            ("string"@, JsonView::Text(g.states[i])),
        ],
    )
}

/// The record of the step `i` of a graph.
pub open spec fn step_record(g: Graph, i: int) -> JsonView {
    JsonView::Object(
        seq![
            ("depth"@, JsonView::Int(g.steps[i].2)),
            ("dst"@, JsonView::Int(g.steps[i].1)),
            ("rule"@, JsonView::Text(g.steps[i].3)),
            ("src"@, JsonView::Int(g.steps[i].0)),
        ],
    )
}

/// The records of the states of a graph, one for each state.
pub fn state_records(g: &Multiway) -> (out: Vec<Json>)
    requires
        g.leveled(),
    ensures
        out@.len() == g.states@.len(),
        forall|i: int| 0 <= i < out@.len() ==> (#[trigger] out@[i])@ == state_record(g@, i),
{
    let mut out: Vec<Json> = Vec::new();
    let mut i: usize = 0;
    while i < g.states.len()
        invariant
            i <= g.states.len(),
            g.leveled(),
            out@.len() == i,
            forall|j: int| 0 <= j < i ==> (#[trigger] out@[j])@ == state_record(g@, j),
        decreases g.states.len() - i,
    {
        let mut e: Vec<(String, Json)> = Vec::new();
        put(&mut e, "depth", Json::Nat(g.depths[i] as u64));
        put(&mut e, "id", Json::Nat(i as u64));
        put(&mut e, "string", Json::Text(text_of(&g.states[i])));
        proof {
            assert(g@.depths[i as int] == g.depths@[i as int] as int);
            assert(g@.states[i as int] == g.states@[i as int]@);
            assert(entries_view(e@) =~= state_record(g@, i as int)->Object_0);
        }
        out.push(Json::Object(e));
        i += 1;
    }
    out
}

/// The records of the steps of a graph, one for each step.
pub fn step_records(g: &Multiway) -> (out: Vec<Json>)
    ensures
        out@.len() == g.steps@.len(),
        forall|i: int| 0 <= i < out@.len() ==> (#[trigger] out@[i])@ == step_record(g@, i),
{
    let mut out: Vec<Json> = Vec::new();
    let mut i: usize = 0;
    while i < g.steps.len()
        invariant
            i <= g.steps.len(),
            out@.len() == i,
            forall|j: int| 0 <= j < i ==> (#[trigger] out@[j])@ == step_record(g@, j),
        decreases g.steps.len() - i,
    {
        let st = &g.steps[i];
        let mut e: Vec<(String, Json)> = Vec::new();
        put(&mut e, "depth", Json::Nat(st.depth as u64));
        put(&mut e, "dst", Json::Nat(st.dst as u64));
        put(&mut e, "rule", Json::Text(text_of(&st.rule)));
        put(&mut e, "src", Json::Nat(st.src as u64));
        proof {
            assert(g@.steps[i as int] == (
                st.src as int,
                st.dst as int,
                st.depth as int,
                st.rule@,
            ));
            assert(entries_view(e@) =~= step_record(g@, i as int)->Object_0);
        }
        out.push(Json::Object(e));
        i += 1;
    }
    out
}

/// The lines of a drawing that name the first `n` states.
pub open spec fn node_lines(states: Seq<Seq<char>>, n: int) -> Seq<char>
    decreases n,
{
    if n <= 0 {
        Seq::<char>::empty()
    } else {
        node_lines(states, n - 1) + ("  n"@ + decimal((n - 1) as nat) + " [label=\""@ + states[n
            - 1] + "\"];\n"@)
    }
}

/// The lines of a drawing that draw the first `n` steps, each labelled with
/// its rule and, where `leveled`, its level.
pub open spec fn edge_lines(steps: Seq<(int, int, int, Seq<char>)>, n: int, leveled: bool) -> Seq<
    char,
>
    decreases n,
{
    if n <= 0 {
        Seq::<char>::empty()
    } else {
        let e = steps[n - 1];
        edge_lines(steps, n - 1, leveled) + ("  n"@ + decimal(e.0 as nat) + " -> n"@ + decimal(
            e.1 as nat,
        ) + " [label=\""@ + e.3 + (if leveled {
            "@"@ + decimal(e.2 as nat)
        } else {
            Seq::<char>::empty()
        }) + "\"];\n"@)
    }
}

/// The drawing of a graph under the name `name`: its states, then its
/// steps.
pub open spec fn dot_text(g: Graph, name: Seq<char>, leveled: bool) -> Seq<char> {
    "digraph "@ + name + " {\nrankdir=LR;\n"@ + node_lines(g.states, g.states.len() as int)
        + edge_lines(g.steps, g.steps.len() as int, leveled) + "}\n"@
}

/// The drawing of a graph under the name `name`.
pub fn render_dot(g: &Multiway, name: &str, leveled: bool) -> (r: String)
    ensures
        r@ == dot_text(g@, name@, leveled),
{
    let mut nodes: Vec<char> = Vec::new();
    let mut i: usize = 0;
    while i < g.states.len()
        invariant
            i <= g.states.len(),
            nodes@ == node_lines(g@.states, i as int),
        decreases g.states.len() - i,
    {
        let mut line = chars_of("  n");
        push_decimal(&mut line, i as u64);
        push_str(&mut line, " [label=\"");
        push_all(&mut line, &g.states[i]);
        push_str(&mut line, "\"];\n");
        assert(g@.states[i as int] == g.states@[i as int]@);
        push_all(&mut nodes, &line);
        i += 1;
    }
    let mut edges: Vec<char> = Vec::new();
    let mut k: usize = 0;
    while k < g.steps.len()
        invariant
            k <= g.steps.len(),
            edges@ == edge_lines(g@.steps, k as int, leveled),
        decreases g.steps.len() - k,
    {
        let st = &g.steps[k];
        assert(g@.steps[k as int] == (st.src as int, st.dst as int, st.depth as int, st.rule@));
        let mut line = chars_of("  n");
        push_decimal(&mut line, st.src as u64);
        push_str(&mut line, " -> n");
        push_decimal(&mut line, st.dst as u64);
        push_str(&mut line, " [label=\"");
        push_all(&mut line, &st.rule);
        let mut level: Vec<char> = Vec::new();
        if leveled {
            level = chars_of("@");
            push_decimal(&mut level, st.depth as u64);
        }
        push_all(&mut line, &level);
        push_str(&mut line, "\"];\n");
        push_all(&mut edges, &line);
        k += 1;
    }
    let mut out = chars_of("digraph ");
    push_str(&mut out, name);
    push_str(&mut out, " {\nrankdir=LR;\n");
    push_all(&mut out, &nodes);
    push_all(&mut out, &edges);
    push_str(&mut out, "}\n");
    text_of(&out)
}

/// The first `n` rules as a list shows them: each as a pair of quoted texts,
/// with commas between them.
pub open spec fn shown_rules(rules: Seq<(Seq<char>, Seq<char>)>, n: int) -> Seq<char>
    decreases n,
{
    if n <= 0 {
        Seq::<char>::empty()
    } else {
        shown_rules(rules, n - 1) + ((if n > 1 {
            ", "@
        } else {
            Seq::<char>::empty()
        }) + "("@ + debug_quoted(rules[n - 1].0) + ", "@ + debug_quoted(rules[n - 1].1) + ")"@)
    }
}

/// The page that shows a multiway slice: it names the rules and the depth
/// and loads the two drawings.
pub open spec fn page_text(rules: Seq<(Seq<char>, Seq<char>)>, depth: usize) -> Seq<char> {
    "<!doctype html><html><body><h1>Ruliad slice</h1><p>Rule ["@ + shown_rules(
        rules,
        rules.len() as int,
    ) + "], depth "@ + decimal(depth as nat)
        + "</p><pre id='multiway'></pre><pre id='causal'></pre><script>fetch('multiway.dot').then(r=>r.text()).then(t=>multiway.textContent=t);fetch('causal.dot').then(r=>r.text()).then(t=>causal.textContent=t);</script></body></html>"@
}

/// The rules as a list shows them.
pub fn shown_rules_of(rules: &Vec<Rule>) -> (list: Vec<char>)
    ensures
        list@ == shown_rules(rules_view(rules@), rules@.len() as int),
{
    let mut list: Vec<char> = Vec::new();
    let ghost all = rules_view(rules@);
    let mut i: usize = 0;
    while i < rules.len()
        invariant
            i <= rules.len(),
            all == rules_view(rules@),
            list@ == shown_rules(all, i as int),
        decreases rules.len() - i,
    {
        assert(all[i as int] == (rules@[i as int].pattern@, rules@[i as int].replacement@));
        let mut item: Vec<char> = Vec::new();
        if i > 0 {
            item = chars_of(", ");
        }
        push_str(&mut item, "(");
        let p = text_of(&rules[i].pattern);
        let q = debug_quote(p.as_str());
        push_str(&mut item, q.as_str());
        push_str(&mut item, ", ");
        let r = text_of(&rules[i].replacement);
        let q = debug_quote(r.as_str());
        push_str(&mut item, q.as_str());
        push_str(&mut item, ")");
        push_all(&mut list, &item);
        i += 1;
    }
    list
}

/// The page that shows a multiway slice.
pub fn render_page(rules: &Vec<Rule>, depth: usize) -> (r: String)
    ensures
        r@ == page_text(rules_view(rules@), depth),
{
    let list = shown_rules_of(rules);
    let mut out = chars_of("<!doctype html><html><body><h1>Ruliad slice</h1><p>Rule [");
    push_all(&mut out, &list);
    push_str(&mut out, "], depth ");
    push_decimal(&mut out, depth as u64);
    push_str(
        &mut out,
        "</p><pre id='multiway'></pre><pre id='causal'></pre><script>fetch('multiway.dot').then(r=>r.text()).then(t=>multiway.textContent=t);fetch('causal.dot').then(r=>r.text()).then(t=>causal.textContent=t);</script></body></html>",
    );
    text_of(&out)
}

} // verus!
