//! How a thread graph grows beyond its thread: the runs that a receipt
//! refers to, the nodes and edges that they add, and what is written of the
//! finished graph.

use vstd::prelude::*;
use crate::api::threads::ThreadEvent;
use crate::api::{
    is_safe_char, is_safe_segment, opt_text_json, opt_text_view, receipt_url, receipt_url_of,
    safe_char, safe_segment,
};
use crate::json::{entries_view, items_view, put, Json, JsonView};
use crate::text::{
    begins_with, chars_of, contains, contains_text, is_str, lowercase, on_one_line, one_line_of,
    opt_view, pieces, starts_with, str_eq, text_of, truncate, truncated, views,
};
use super::graphs::{
    bits_of, build_dot, evidence_of, get_actual_success, get_bits, get_goal_id, get_view_url,
    goal_of, seq_edges, success_of, thread_dot, view_url_of, BitsLite, EdgeKind, GraphEdge,
    GraphFiles, GraphNode, ThreadGraphJob,
};
use super::pages::{index_html, index_html_text};
use super::thread_pages::{build_svg, build_table_html, picture, table_rows, MAX_DRAWN};

verus! {

/// The parts of a text between the characters that cannot stand in an
/// identifier, empty parts among them.
pub open spec fn id_parts(s: Seq<char>) -> Seq<Seq<char>>
    decreases s.len(),
{
    if s.len() == 0 {
        seq![Seq::<char>::empty()]
    } else {
        let init = id_parts(s.drop_last());
        if !safe_char(s.last()) {
            init.push(Seq::<char>::empty())
        } else {
            init.drop_last().push(init.last().push(s.last()))
        }
    }
}

/// A part of a text names a run: it begins with `r-`, is a safe segment and
/// has ten characters at least.
pub open spec fn names_run(part: Seq<char>) -> bool {
    starts_with(part, "r-"@) && safe_segment(part) && part.len() >= 10
}

/// The runs found and the budget left after `parts` were read in order:
/// each part that names a run not found before is added and takes one from
/// the budget; with no budget left nothing is added.
pub open spec fn refs_in(out: Seq<Seq<char>>, budget: nat, parts: Seq<Seq<char>>) -> (
    Seq<Seq<char>>,
    nat,
)
    decreases parts.len(),
{
    if parts.len() == 0 {
        (out, budget)
    } else {
        let before = refs_in(out, budget, parts.drop_last());
        if before.1 > 0 && names_run(parts.last()) && !before.0.contains(parts.last()) {
            (before.0.push(parts.last()), (before.1 - 1) as nat)
        } else {
            before
        }
    }
}

/// The values of the fields of an object, in the order of the fields.
pub open spec fn values_of(entries: Seq<(Seq<char>, JsonView)>) -> Seq<JsonView> {
    Seq::new(entries.len(), |i: int| entries[i].1)
}

/// The runs found and the budget left after a value was searched for the
/// runs that its texts name, down to `depth` levels.
pub open spec fn refs_after(v: JsonView, out: Seq<Seq<char>>, depth: nat, budget: nat) -> (
    Seq<Seq<char>>,
    nat,
)
    decreases depth, 0nat,
{
    if budget == 0 || depth == 0 {
        (out, budget)
    } else {
        match v {
            JsonView::Text(s) => refs_in(out, budget, id_parts(s)),
            JsonView::List(items) => refs_after_items(items, out, (depth - 1) as nat, budget),
            JsonView::Object(entries) => refs_after_items(
                values_of(entries),
                out,
                (depth - 1) as nat,
                budget,
            ),
            _ => (out, budget),
        }
    }
}

/// The runs found and the budget left after the values of a list were
/// searched in order.
pub open spec fn refs_after_items(
    items: Seq<JsonView>,
    out: Seq<Seq<char>>,
    depth: nat,
    budget: nat,
) -> (Seq<Seq<char>>, nat)
    decreases depth, items.len() + 1,
{
    if items.len() == 0 {
        (out, budget)
    } else {
        let first = refs_after(items[0], out, depth, budget);
        refs_after_items(items.drop_first(), first.0, depth, first.1)
    }
}

/// What a list of borrowed values holds.
pub open spec fn borrowed_view(values: Seq<&Json>) -> Seq<JsonView> {
    Seq::new(values.len(), |i: int| values[i]@)
}

/// The parts of a text between the characters that cannot stand in an
/// identifier.
pub fn id_parts_of(s: &str) -> (parts: Vec<Vec<char>>)
    ensures
        pieces(parts@) == id_parts(s@),
{
    let text = chars_of(s);
    let mut parts: Vec<Vec<char>> = Vec::new();
    let mut current: Vec<char> = Vec::new();
    let mut i: usize = 0;
    assert(text@.take(0) =~= Seq::<char>::empty());
    assert(pieces(parts@) =~= id_parts(text@.take(0)).drop_last());
    while i < text.len()
        invariant
            i <= text.len(),
            text@ == s@,
            id_parts(text@.take(i as int)).len() >= 1,
            current@ == id_parts(text@.take(i as int)).last(),
            pieces(parts@) == id_parts(text@.take(i as int)).drop_last(),
        decreases text.len() - i,
    {
        let ghost before = id_parts(text@.take(i as int));
        proof {
            assert(text@.take(i + 1).drop_last() =~= text@.take(i as int));
            assert(text@.take(i + 1).last() == text@[i as int]);
        }
        let c = text[i];
        if is_safe_char(c) {
            current.push(c);
            proof {
                let next = id_parts(text@.take(i + 1));
                assert(next == before.drop_last().push(before.last().push(c)));
                assert(next.drop_last() =~= before.drop_last());
            }
        } else {
            let ghost done = current@;
            parts.push(current);
            current = Vec::new();
            proof {
                let next = id_parts(text@.take(i + 1));
                assert(next == before.push(Seq::<char>::empty()));
                assert(next.drop_last() =~= before);
                assert(before =~= before.drop_last().push(done));
                assert(pieces(parts@) =~= before.drop_last().push(done));
            }
        }
        i += 1;
    }
    proof {
        assert(text@.take(text@.len() as int) =~= text@);
        let all = id_parts(text@);
        assert(all =~= all.drop_last().push(all.last()));
    }
    let ghost done = current@;
    parts.push(current);
    assert(pieces(parts@) =~= id_parts(text@).drop_last().push(done));
    parts
}

/// Whether one of the texts is `t`.
fn holds(out: &Vec<String>, t: &Vec<char>) -> (r: bool)
    ensures
        r == views(out@).contains(t@),
{
    let mut i: usize = 0;
    while i < out.len()
        invariant
            i <= out.len(),
            forall|j: int| 0 <= j < i ==> views(out@)[j] != t@,
        decreases out.len() - i,
    {
        if is_str(t, out[i].as_str()) {
            assert(views(out@)[i as int] == t@);
            return true;
        }
        i += 1;
    }
    false
}

/// Whether a part of a text names a run.
fn is_run_name(part: &Vec<char>) -> (r: bool)
    ensures
        r == names_run(part@),
{
    if part.len() < 10 || !begins_with(part, "r-") {
        return false;
    }
    let t = text_of(part);
    is_safe_segment(t.as_str())
}

/// Adds the runs that the parts name to those found.
fn take_refs(parts: &Vec<Vec<char>>, out: &mut Vec<String>, budget: &mut usize)
    ensures
        (views(final(out)@), *final(budget) as nat) == refs_in(
            views(old(out)@),
            *old(budget) as nat,
            pieces(parts@),
        ),
{
    let ghost start = views(out@);
    let ghost b0 = *budget as nat;
    let ghost all = pieces(parts@);
    let mut i: usize = 0;
    assert(all.take(0) =~= Seq::<Seq<char>>::empty());
    while i < parts.len()
        invariant
            i <= parts.len(),
            all == pieces(parts@),
            (views(out@), *budget as nat) == refs_in(start, b0, all.take(i as int)),
        decreases parts.len() - i,
    {
        let ghost found = views(out@);
        proof {
            assert(all.take(i + 1).drop_last() =~= all.take(i as int));
            assert(all.take(i + 1).last() == parts@[i as int]@);
        }
        if *budget > 0 && is_run_name(&parts[i]) && !holds(out, &parts[i]) {
            out.push(text_of(&parts[i]));
            *budget = *budget - 1;
            assert(views(out@) =~= found.push(parts@[i as int]@));
        }
        i += 1;
    }
    assert(all.take(parts@.len() as int) =~= all);
}

/// The items of a list, borrowed.
fn borrowed<'a>(items: &'a Vec<Json>) -> (values: Vec<&'a Json>)
    ensures
        borrowed_view(values@) == items_view(items@),
{
    let mut values: Vec<&'a Json> = Vec::new();
    let mut i: usize = 0;
    while i < items.len()
        invariant
            i <= items.len(),
            values@.len() == i,
            forall|j: int| 0 <= j < i ==> (#[trigger] values@[j])@ == items@[j]@,
        decreases items.len() - i,
    {
        values.push(&items[i]);
        i += 1;
    }
    assert(borrowed_view(values@) =~= items_view(items@));
    values
}

/// The values of the fields of an object, borrowed.
fn field_values<'a>(entries: &'a Vec<(String, Json)>) -> (values: Vec<&'a Json>)
    ensures
        borrowed_view(values@) == values_of(entries_view(entries@)),
{
    let mut values: Vec<&'a Json> = Vec::new();
    let mut i: usize = 0;
    while i < entries.len()
        invariant
            i <= entries.len(),
            values@.len() == i,
            forall|j: int| 0 <= j < i ==> (#[trigger] values@[j])@ == entries@[j].1@,
        decreases entries.len() - i,
    {
        values.push(&entries[i].1);
        i += 1;
    }
    assert(borrowed_view(values@) =~= values_of(entries_view(entries@)));
    values
}

/// Searches the values of a list for the runs that their texts name.
fn search_items(values: &Vec<&Json>, out: &mut Vec<String>, depth: usize, budget: &mut usize)
    ensures
        (views(final(out)@), *final(budget) as nat) == refs_after_items(
            borrowed_view(values@),
            views(old(out)@),
            depth as nat,
            *old(budget) as nat,
        ),
    decreases depth, 1nat,
{
    let ghost start = views(out@);
    let ghost b0 = *budget as nat;
    let ghost all = borrowed_view(values@);
    let mut i: usize = 0;
    assert(all.skip(0) =~= all);
    while i < values.len()
        invariant
            i <= values.len(),
            all == borrowed_view(values@),
            refs_after_items(all, start, depth as nat, b0) == refs_after_items(
                all.skip(i as int),
                views(out@),
                depth as nat,
                *budget as nat,
            ),
        decreases values.len() - i,
    {
        proof {
            assert(all.skip(i as int)[0] == values@[i as int]@);
            assert(all.skip(i as int).drop_first() =~= all.skip(i + 1));
        }
        extract_run_ids_limited(values[i], out, depth, budget);
        i += 1;
    }
    assert(all.skip(values@.len() as int).len() == 0);
}

/// Searches a value for the runs that its texts name, and adds those not
/// found before to `out`: down to `depth` levels, and as many as the budget
/// allows, each taking one from it.
pub fn extract_run_ids_limited(v: &Json, out: &mut Vec<String>, depth: usize, budget: &mut usize)
    ensures
        (views(final(out)@), *final(budget) as nat) == refs_after(
            v@,
            views(old(out)@),
            depth as nat,
            *old(budget) as nat,
        ),
    decreases depth, 0nat,
{
    if *budget == 0 || depth == 0 {
        return ;
    }
    match v {
        Json::Text(s) => {
            let parts = id_parts_of(s.as_str());
            take_refs(&parts, out, budget);
        },
        Json::List(items) => {
            let values = borrowed(items);
            search_items(&values, out, depth - 1, budget);
        },
        Json::Object(entries) => {
            let values = field_values(entries);
            search_items(&values, out, depth - 1, budget);
        },
        _ => {},
    }
}

/// The runs that the texts of a receipt name: twenty-four at most, from the
/// first five levels of the receipt.
pub fn references_of(resp: &Json) -> (refs: Vec<String>)
    ensures
        views(refs@) == refs_after(resp@, Seq::empty(), 5, 24).0,
{
    let mut refs: Vec<String> = Vec::new();
    let mut budget: usize = 24;
    assert(views(refs@) =~= Seq::<Seq<char>>::empty());
    extract_run_ids_limited(resp, &mut refs, 5, &mut budget);
    refs
}

/// What a node holds.
pub struct NodeView {
    pub ts: Seq<char>,
    pub role: Seq<char>,
    pub content: Seq<char>,
    pub run_id: Seq<char>,
    pub goal_id: Option<Seq<char>>,
    pub view_url: Option<Seq<char>>,
    pub ok: Option<bool>,
    pub bits: BitsLite,
}

/// What a node holds.
pub open spec fn node_view(n: GraphNode) -> NodeView {
    NodeView {
        ts: n.event.ts@,
        role: n.event.role@,
        content: n.event.content@,
        run_id: n.event.run_id@,
        goal_id: opt_view(n.goal_id),
        view_url: opt_view(n.view_url),
        ok: n.ok,
        bits: n.bits,
    }
}

/// What the nodes of a graph hold.
pub open spec fn nodes_view(nodes: Seq<GraphNode>) -> Seq<NodeView> {
    Seq::new(nodes.len(), |i: int| node_view(nodes[i]))
}

/// The bits of a run without a receipt: none is known.
pub open spec fn no_bits() -> BitsLite {
    BitsLite {
        a: None,
        u: None,
        p: None,
        e: None,
        d: None,
        i: None,
        r: None,
        t: None,
        m: None,
    }
}

/// The node of an event: with the goal, the page, the outcome and the bits
/// that the receipt of its run tells, where there is a receipt.
pub open spec fn told(
    ts: Seq<char>,
    role: Seq<char>,
    content: Seq<char>,
    run_id: Seq<char>,
    resp: Option<JsonView>,
) -> NodeView {
    match resp {
        Some(r) => NodeView {
            ts,
            role,
            content,
            run_id,
            goal_id: goal_of(r),
            view_url: view_url_of(r),
            ok: success_of(r),
            bits: bits_of(r),
        },
        None => NodeView {
            ts,
            role,
            content,
            run_id,
            goal_id: None,
            view_url: None,
            ok: None,
            bits: no_bits(),
        },
    }
}

/// What a receipt holds, where there is one.
pub open spec fn receipt_view(resp: Option<&Json>) -> Option<JsonView> {
    match resp {
        Some(r) => Some(r@),
        None => None,
    }
}

/// The node of an event of the thread, given the receipt of its run.
pub fn graph_node(event: ThreadEvent, resp: Option<&Json>) -> (node: GraphNode)
    ensures
        node_view(node) == told(
            event.ts@,
            event.role@,
            event.content@,
            event.run_id@,
            receipt_view(resp),
        ),
{
    match resp {
        Some(r) => GraphNode {
            event,
            goal_id: get_goal_id(r),
            view_url: get_view_url(r),
            ok: get_actual_success(r),
            bits: get_bits(r),
        },
        None => GraphNode {
            event,
            goal_id: None,
            view_url: None,
            ok: None,
            bits: BitsLite {
                a: None,
                u: None,
                p: None,
                e: None,
                d: None,
                i: None,
                r: None,
                t: None,
                m: None,
            },
        },
    }
}

/// What a receipt shows of its run: the reply of its evidence, else the
/// output, else the error.
pub open spec fn shown_evidence(resp: JsonView) -> Option<JsonView> {
    match evidence_of(resp) {
        Some(e) => if e.get("reply"@) is Some {
            e.get("reply"@)
        } else if e.get("stdout"@) is Some {
            e.get("stdout"@)
        } else {
            e.get("error"@)
        },
        None => None,
    }
}

/// The text of a node for a run that a receipt refers to: what the receipt
/// of that run shows, where it is a text, on one line and no more than two
/// hundred and sixty characters of it.
pub open spec fn snippet(resp: Option<JsonView>) -> Seq<char> {
    let text = match resp {
        Some(r) => match shown_evidence(r) {
            Some(v) => match v.as_text() {
                Some(s) => s,
                None => Seq::<char>::empty(),
            },
            None => Seq::<char>::empty(),
        },
        None => Seq::<char>::empty(),
    };
    truncated(on_one_line(text), 260)
}

/// The node of a run that a receipt refers to.
pub open spec fn ref_node(run_id: Seq<char>, resp: Option<JsonView>) -> NodeView {
    told(Seq::<char>::empty(), "ref"@, snippet(resp), run_id, resp)
}

/// What a receipt shows of its run.
fn shown_evidence_of(resp: &Json) -> (r: Option<&Json>)
    ensures
        receipt_view(r) == shown_evidence(resp@),
{
    let evidence = match resp.get("manifest") {
        Some(m) => m.get("evidence"),
        None => None,
    };
    match evidence {
        Some(e) => {
            let reply = e.get("reply");
            if reply.is_some() {
                return reply;
            }
            let stdout = e.get("stdout");
            if stdout.is_some() {
                return stdout;
            }
            e.get("error")
        },
        None => None,
    }
}

/// The node of the run `run_id` that a receipt refers to, given the receipt
/// of that run.
pub fn reference_node(run_id: &str, resp: Option<&Json>) -> (node: GraphNode)
    ensures
        node_view(node) == ref_node(run_id@, receipt_view(resp)),
{
    proof {
        reveal_strlit("");
    }
    let shown: &str = match resp {
        Some(r) => match shown_evidence_of(r) {
            Some(v) => match v.as_str() {
                Some(s) => s,
                None => "",
            },
            None => "",
        },
        None => "",
    };
    let content = text_of(&truncate(&one_line_of(&chars_of(shown)), 260));
    let ts = String::new();
    assert(ts@ =~= Seq::<char>::empty());
    assert(""@ =~= Seq::<char>::empty());
    graph_node(
        ThreadEvent { ts, role: "ref".to_owned(), content, run_id: run_id.to_owned() },
        resp,
    )
}

/// A thread graph while it grows: its nodes, its edges, and the nodes whose
/// receipts are still to be read, each with its distance from the thread.
#[derive(Debug)]
pub struct Growth {
    pub nodes: Vec<GraphNode>,
    pub edges: Vec<GraphEdge>,
    pub frontier: Vec<(usize, usize)>,
}

/// What a growing graph holds.
pub struct GrowthView {
    pub nodes: Seq<NodeView>,
    pub edges: Seq<GraphEdge>,
    pub frontier: Seq<(usize, usize)>,
}

/// The last node of the run `run_id`; -1 where no node is of that run.
pub open spec fn last_of(nodes: Seq<NodeView>, run_id: Seq<char>) -> int
    decreases nodes.len(),
{
    if nodes.len() == 0 {
        -1
    } else if nodes.last().run_id == run_id {
        nodes.len() - 1
    } else {
        last_of(nodes.drop_last(), run_id)
    }
}

/// What is left to be read once the nodes at the end that are as far from
/// the thread as the graph reaches are given up.
pub open spec fn waiting(frontier: Seq<(usize, usize)>, depth: usize) -> Seq<(usize, usize)>
    decreases frontier.len(),
{
    if frontier.len() == 0 {
        frontier
    } else if frontier.last().1 >= depth {
        waiting(frontier.drop_last(), depth)
    } else {
        frontier
    }
}

/// An edge from a node to the node of a run that its receipt refers to.
pub open spec fn reference(src: usize, dst: int) -> GraphEdge {
    GraphEdge { src, dst: dst as usize, kind: EdgeKind::Reference }
}

/// The graph after the receipt of the node `src`, which is `d` steps from
/// the thread, was found to refer to the run `run_id`, whose receipt is
/// `resp`. A reference of a run to itself changes nothing. A run that has a
/// node gets an edge to its last node. Any other run gets a node of its
/// own, an edge to it, and is to be read in turn, unless the graph has
/// `max_nodes` nodes already.
pub open spec fn with_reference(
    g: GrowthView,
    src: usize,
    d: usize,
    run_id: Seq<char>,
    resp: Option<JsonView>,
    max_nodes: usize,
) -> GrowthView {
    let at = last_of(g.nodes, run_id);
    if run_id == g.nodes[src as int].run_id {
        g
    } else if at >= 0 {
        GrowthView { edges: g.edges.push(reference(src, at)), ..g }
    } else if g.nodes.len() >= max_nodes {
        g
    } else {
        GrowthView {
            nodes: g.nodes.push(ref_node(run_id, resp)),
            edges: g.edges.push(reference(src, g.nodes.len() as int)),
            frontier: g.frontier.push((g.nodes.len() as usize, (d + 1) as usize)),
        }
    }
}

/// The graph after the references `found` of the node `src` were taken in,
/// in order.
pub open spec fn grown(
    g: GrowthView,
    src: usize,
    d: usize,
    found: Seq<(Seq<char>, Option<JsonView>)>,
    max_nodes: usize,
) -> GrowthView
    decreases found.len(),
{
    if found.len() == 0 {
        g
    } else {
        with_reference(
            grown(g, src, d, found.drop_last(), max_nodes),
            src,
            d,
            found.last().0,
            found.last().1,
            max_nodes,
        )
    }
}

/// What a list of runs with their receipts holds.
pub open spec fn found_view(found: Seq<(String, Option<Json>)>) -> Seq<
    (Seq<char>, Option<JsonView>),
> {
    Seq::new(
        found.len(),
        |i: int|
            (
                found[i].0@,
                match found[i].1 {
                    Some(r) => Some(r@),
                    None => None,
                },
            ),
    )
}

/// The last node of the run `run_id`.
fn find_last(nodes: &Vec<GraphNode>, run_id: &str) -> (r: Option<usize>)
    ensures
        match r {
            Some(i) => i == last_of(nodes_view(nodes@), run_id@),
            None => last_of(nodes_view(nodes@), run_id@) == -1,
        },
        last_of(nodes_view(nodes@), run_id@) < nodes@.len(),
{
    let ghost all = nodes_view(nodes@);
    let mut i: usize = nodes.len();
    assert(all.take(i as int) =~= all);
    while i > 0
        invariant
            i <= nodes.len(),
            all == nodes_view(nodes@),
            last_of(all, run_id@) == last_of(all.take(i as int), run_id@),
        decreases i,
    {
        proof {
            assert(all.take(i as int).last() == node_view(nodes@[i - 1]));
            assert(all.take(i as int).drop_last() =~= all.take(i - 1));
        }
        if str_eq(nodes[i - 1].event.run_id.as_str(), run_id) {
            return Some(i - 1);
        }
        i -= 1;
    }
    None
}

impl Growth {
    /// What the graph holds.
    pub open spec fn view(&self) -> GrowthView {
        GrowthView {
            nodes: nodes_view(self.nodes@),
            edges: self.edges@,
            frontier: self.frontier@,
        }
    }

    /// Every node that is to be read is a node of the graph.
    pub open spec fn wf(&self) -> bool {
        forall|i: int|
            0 <= i < self.frontier@.len() ==> (#[trigger] self.frontier@[i]).0 < self.nodes@.len()
    }

    /// Whether every node that is to be read is a node of the graph.
    pub fn is_wf(&self) -> (r: bool)
        ensures
            r == self.wf(),
    {
        let mut i: usize = 0;
        while i < self.frontier.len()
            invariant
                i <= self.frontier.len(),
                forall|j: int| 0 <= j < i ==> (#[trigger] self.frontier@[j]).0 < self.nodes@.len(),
            decreases self.frontier.len() - i,
        {
            if self.frontier[i].0 >= self.nodes.len() {
                return false;
            }
            i += 1;
        }
        true
    }

    /// The graph of a thread before it grows: the nodes of its events, an
    /// edge from each to the next, and every node still to be read.
    pub fn begin(nodes: Vec<GraphNode>) -> (g: Growth)
        ensures
            g.wf(),
            g.nodes@ == nodes@,
            g.edges@.len() == if nodes@.len() == 0 {
                0
            } else {
                nodes@.len() - 1
            },
            forall|i: int|
                0 <= i < g.edges@.len() ==> #[trigger] g.edges@[i] == (GraphEdge {
                    src: i as usize,
                    dst: (i + 1) as usize,
                    kind: EdgeKind::Next,
                }),
            g.frontier@.len() == nodes@.len(),
            forall|i: int| 0 <= i < nodes@.len() ==> #[trigger] g.frontier@[i] == (i as usize, 0usize),
    {
        let edges = seq_edges(nodes.len());
        let mut frontier: Vec<(usize, usize)> = Vec::new();
        let mut i: usize = 0;
        while i < nodes.len()
            invariant
                i <= nodes.len(),
                frontier@.len() == i,
                forall|j: int| 0 <= j < i ==> #[trigger] frontier@[j] == (j as usize, 0usize),
            decreases nodes.len() - i,
        {
            frontier.push((i, 0));
            i += 1;
        }
        Growth { nodes, edges, frontier }
    }

    /// The node whose receipt is to be read next, with its distance from
    /// the thread: the last of those that wait, which then waits no more.
    /// None once nothing waits; the graph is finished then.
    pub fn take_next(&mut self, depth: usize) -> (r: Option<(usize, usize)>)
        requires
            old(self).wf(),
        ensures
            final(self).wf(),
            final(self).nodes@ == old(self).nodes@,
            final(self).edges@ == old(self).edges@,
            match r {
                Some(at) => {
                    &&& waiting(old(self).frontier@, depth).len() > 0
                    &&& at == waiting(old(self).frontier@, depth).last()
                    &&& final(self).frontier@ == waiting(old(self).frontier@, depth).drop_last()
                    &&& at.0 < final(self).nodes@.len()
                    &&& at.1 < depth
                },
                None => {
                    &&& waiting(old(self).frontier@, depth).len() == 0
                    &&& final(self).frontier@.len() == 0
                },
            },
    {
        let ghost start = self.frontier@;
        while self.frontier.len() > 0
            invariant
                self.wf(),
                self.nodes@ == old(self).nodes@,
                self.edges@ == old(self).edges@,
                start == old(self).frontier@,
                waiting(start, depth) == waiting(self.frontier@, depth),
            decreases self.frontier.len(),
        {
            let ghost before = self.frontier@;
            let at = self.frontier.pop().unwrap();
            proof {
                assert(self.frontier@ =~= before.drop_last());
                assert(at == before[before.len() - 1]);
                assert(at.0 < self.nodes@.len());
                assert forall|j: int| 0 <= j < self.frontier@.len() implies (
                #[trigger] self.frontier@[j]).0 < self.nodes@.len() by {
                    assert(self.frontier@[j] == before[j]);
                }
            }
            if at.1 < depth {
                assert(waiting(before, depth) == before);
                return Some(at);
            }
            assert(waiting(before, depth) == waiting(before.drop_last(), depth));
        }
        None
    }

    /// Takes in the runs that the receipt of the node `src` refers to, each
    /// with its own receipt where it has one.
    pub fn absorb(
        &mut self,
        src: usize,
        d: usize,
        found: &Vec<(String, Option<Json>)>,
        max_nodes: usize,
    )
        requires
            old(self).wf(),
            src < old(self).nodes@.len(),
            d < usize::MAX,
        ensures
            final(self).wf(),
            final(self)@ == grown(old(self)@, src, d, found_view(found@), max_nodes),
    {
        let ghost g0 = self@;
        let ghost all = found_view(found@);
        let mut i: usize = 0;
        assert(all.take(0) =~= Seq::<(Seq<char>, Option<JsonView>)>::empty());
        while i < found.len()
            invariant
                i <= found.len(),
                self.wf(),
                src < self.nodes@.len(),
                d < usize::MAX,
                all == found_view(found@),
                self@ == grown(g0, src, d, all.take(i as int), max_nodes),
            decreases found.len() - i,
        {
            let ghost g = self@;
            proof {
                assert(all.take(i + 1).drop_last() =~= all.take(i as int));
                assert(all.take(i + 1).last() == all[i as int]);
                assert(g.nodes[src as int] == node_view(self.nodes@[src as int]));
            }
            let run_id = found[i].0.as_str();
            if !str_eq(run_id, self.nodes[src].event.run_id.as_str()) {
                match find_last(&self.nodes, run_id) {
                    Some(at) => {
                        self.edges.push(GraphEdge { src, dst: at, kind: EdgeKind::Reference });
                    },
                    None => {
                        if self.nodes.len() < max_nodes {
                            let at = self.nodes.len();
                            let node = reference_node(run_id, found[i].1.as_ref());
                            let ghost before = self.nodes@;
                            self.nodes.push(node);
                            self.edges.push(
                                GraphEdge { src, dst: at, kind: EdgeKind::Reference },
                            );
                            self.frontier.push((at, d + 1));
                            proof {
                                assert(nodes_view(self.nodes@) =~= nodes_view(before).push(
                                    node_view(node),
                                ));
                            }
                        }
                    },
                }
            }
            i += 1;
        }
        assert(all.take(found@.len() as int) =~= all);
    }
}

/// The goal of a node, read in lowercase, holds the text `wanted`.
pub open spec fn has_goal(node: NodeView, wanted: Seq<char>) -> bool {
    contains_text(
        lowercase(
            match node.goal_id {
                Some(g) => g,
                None => Seq::<char>::empty(),
            },
        ),
        wanted,
    )
}

/// The nodes whose goals hold the text `wanted`, in their order.
pub open spec fn with_goal(nodes: Seq<NodeView>, wanted: Seq<char>) -> Seq<NodeView>
    decreases nodes.len(),
{
    if nodes.len() == 0 {
        Seq::<NodeView>::empty()
    } else if has_goal(nodes.last(), wanted) {
        with_goal(nodes.drop_last(), wanted).push(nodes.last())
    } else {
        with_goal(nodes.drop_last(), wanted)
    }
}

/// A copy of an optional text.
fn copy_text(o: &Option<String>) -> (r: Option<String>)
    ensures
        opt_view(r) == opt_view(*o),
{
    match o {
        Some(s) => Some(s.clone()),
        None => None,
    }
}

/// A copy of a node.
pub fn copy_node(n: &GraphNode) -> (r: GraphNode)
    ensures
        node_view(r) == node_view(*n),
{
    GraphNode {
        event: ThreadEvent {
            ts: n.event.ts.clone(),
            role: n.event.role.clone(),
            content: n.event.content.clone(),
            run_id: n.event.run_id.clone(),
        },
        goal_id: copy_text(&n.goal_id),
        view_url: copy_text(&n.view_url),
        ok: n.ok,
        bits: n.bits,
    }
}

/// The nodes whose goals, read in lowercase, hold the text `wanted`.
pub fn nodes_with_goal(nodes: &Vec<GraphNode>, wanted: &str) -> (out: Vec<GraphNode>)
    ensures
        nodes_view(out@) == with_goal(nodes_view(nodes@), wanted@),
{
    let needle = chars_of(wanted);
    let ghost all = nodes_view(nodes@);
    let mut out: Vec<GraphNode> = Vec::new();
    let mut i: usize = 0;
    assert(all.take(0) =~= Seq::<NodeView>::empty());
    assert(nodes_view(out@) =~= Seq::<NodeView>::empty());
    while i < nodes.len()
        invariant
            i <= nodes.len(),
            needle@ == wanted@,
            all == nodes_view(nodes@),
            nodes_view(out@) == with_goal(all.take(i as int), wanted@),
        decreases nodes.len() - i,
    {
        proof {
            reveal_strlit("");
            assert(all.take(i + 1).drop_last() =~= all.take(i as int));
            assert(all.take(i + 1).last() == node_view(nodes@[i as int]));
        }
        let goal: &str = match &nodes[i].goal_id {
            Some(g) => g.as_str(),
            None => "",
        };
        assert(""@ =~= Seq::<char>::empty());
        let lowered = goal.to_lowercase();
        if contains(&chars_of(lowered.as_str()), &needle) {
            let ghost before = out@;
            let node = copy_node(&nodes[i]);
            out.push(node);
            assert(nodes_view(out@) =~= nodes_view(before).push(node_view(node)));
        }
        i += 1;
    }
    assert(all.take(nodes@.len() as int) =~= all);
    out
}

/// A graph as it is shown: its nodes, its edges, and the goal that it was
/// filtered by, in lowercase, where it was.
#[derive(Debug)]
pub struct ShownGraph {
    pub nodes: Vec<GraphNode>,
    pub edges: Vec<GraphEdge>,
    pub filter_goal: Option<String>,
}

/// `edges` lead from each of `n` nodes to the next.
pub open spec fn chain(edges: Seq<GraphEdge>, n: nat) -> bool {
    &&& edges.len() == if n == 0 {
        0
    } else {
        n - 1
    }
    &&& forall|i: int|
        0 <= i < edges.len() ==> #[trigger] edges[i] == (GraphEdge {
            src: i as usize,
            dst: (i + 1) as usize,
            kind: EdgeKind::Next,
        })
}

/// `g` is the graph with the nodes `nodes` and the edges `edges` as it is
/// shown under a filter. Where a goal is asked for and some node has it,
/// the graph shows the nodes with that goal, each leading to the next;
/// else it shows the whole graph.
pub open spec fn shows(
    g: ShownGraph,
    nodes: Seq<GraphNode>,
    edges: Seq<GraphEdge>,
    filter_goal: Option<Seq<char>>,
) -> bool {
    if filter_goal is Some && with_goal(nodes_view(nodes), lowercase(filter_goal->0)).len() > 0 {
        &&& nodes_view(g.nodes@) == with_goal(nodes_view(nodes), lowercase(filter_goal->0))
        &&& chain(g.edges@, g.nodes@.len())
        &&& opt_view(g.filter_goal) == Some(lowercase(filter_goal->0))
    } else {
        &&& g.nodes@ == nodes
        &&& g.edges@ == edges
        &&& g.filter_goal is None
    }
}

/// The goal that is asked for, where one is.
pub open spec fn asked_goal(filter_goal: Option<&str>) -> Option<Seq<char>> {
    match filter_goal {
        Some(f) => Some(f@),
        None => None,
    }
}

/// The graph as it is shown under the filter.
pub fn shown_graph(nodes: Vec<GraphNode>, edges: Vec<GraphEdge>, filter_goal: Option<&str>) -> (g:
    ShownGraph)
    ensures
        shows(g, nodes@, edges@, asked_goal(filter_goal)),
{
    if let Some(fg) = filter_goal {
        let wanted = fg.to_lowercase();
        let kept = nodes_with_goal(&nodes, wanted.as_str());
        if kept.len() > 0 {
            let chained = seq_edges(kept.len());
            return ShownGraph { nodes: kept, edges: chained, filter_goal: Some(wanted) };
        }
    }
    ShownGraph { nodes, edges, filter_goal: None }
}

/// A level, where there is one, as a structured value.
pub open spec fn opt_level_view(o: Option<i64>) -> JsonView {
    match o {
        Some(x) => JsonView::Real(x as int),
        None => JsonView::Null,
    }
}

/// A truth value, where there is one, as a structured value.
pub open spec fn opt_bool_view(o: Option<bool>) -> JsonView {
    match o {
        Some(b) => JsonView::Bool(b),
        None => JsonView::Null,
    }
}

/// The bits of a receipt as a structured value: each bit a number, or null
/// where the receipt does not have it.
pub open spec fn bits_lite_view(b: BitsLite) -> JsonView {
    JsonView::Object(
        seq![
            ("a"@, opt_level_view(b.a)),
            ("u"@, opt_level_view(b.u)),
            ("p"@, opt_level_view(b.p)),
            ("e"@, opt_level_view(b.e)),
            ("d"@, opt_level_view(b.d)),
            ("i"@, opt_level_view(b.i)),
            ("r"@, opt_level_view(b.r)),
            ("t"@, opt_level_view(b.t)),
            ("m"@, opt_level_view(b.m)),
        ],
    )
}

/// The node `i` of a graph as a structured value.
pub open spec fn event_view(n: NodeView, i: int) -> JsonView {
    JsonView::Object(
        seq![
            ("i"@, JsonView::Int(i + 1)),
            ("ts"@, JsonView::Text(n.ts)),
            ("role"@, JsonView::Text(n.role)),
            ("run_id"@, JsonView::Text(n.run_id)),
            ("content"@, JsonView::Text(n.content)),
            ("goal_id"@, opt_text_view(n.goal_id)),
            ("view_url"@, opt_text_view(n.view_url)),
            ("actual_success"@, opt_bool_view(n.ok)),
            ("bits"@, bits_lite_view(n.bits)),
            ("receipt_url"@, JsonView::Text(receipt_url_of(n.run_id))),
        ],
    )
}

/// The nodes of a graph as structured values.
pub open spec fn events_list(nodes: Seq<NodeView>) -> Seq<JsonView> {
    Seq::new(nodes.len(), |i: int| event_view(nodes[i], i))
}

/// A thread graph as a structured value: the user, the thread, the goal it
/// was filtered by where it was, and the nodes.
pub open spec fn events_view(
    user_id: Seq<char>,
    thread: Seq<char>,
    filter_goal: Option<Seq<char>>,
    nodes: Seq<NodeView>,
) -> JsonView {
    JsonView::Object(
        seq![("user_id"@, JsonView::Text(user_id)), ("thread"@, JsonView::Text(thread))] + (
        match filter_goal {
            Some(f) => seq![("filter_goal"@, JsonView::Text(f))],
            None => Seq::<(Seq<char>, JsonView)>::empty(),
        }) + seq![("events"@, JsonView::List(events_list(nodes)))],
    )
}

/// A level, where there is one, as a structured value.
fn opt_level_json(o: Option<i64>) -> (r: Json)
    ensures
        r@ == opt_level_view(o),
{
    match o {
        Some(x) => Json::Real(x),
        None => Json::Null,
    }
}

/// The bits of a receipt as a structured value.
pub fn bits_lite_json(b: &BitsLite) -> (r: Json)
    ensures
        r@ == bits_lite_view(*b),
{
    let mut e: Vec<(String, Json)> = Vec::new();
    put(&mut e, "a", opt_level_json(b.a));
    put(&mut e, "u", opt_level_json(b.u));
    put(&mut e, "p", opt_level_json(b.p));
    put(&mut e, "e", opt_level_json(b.e));
    put(&mut e, "d", opt_level_json(b.d));
    put(&mut e, "i", opt_level_json(b.i));
    put(&mut e, "r", opt_level_json(b.r));
    put(&mut e, "t", opt_level_json(b.t));
    put(&mut e, "m", opt_level_json(b.m));
    assert(entries_view(e@) =~= bits_lite_view(*b)->Object_0);
    Json::Object(e)
}

/// The node `i` of a graph as a structured value.
fn event_json(node: &GraphNode, i: usize) -> (r: Json)
    requires
        i < usize::MAX,
    ensures
        r@ == event_view(node_view(*node), i as int),
{
    let ok = match node.ok {
        Some(b) => Json::Bool(b),
        None => Json::Null,
    };
    let url = receipt_url(node.event.run_id.as_str());
    let mut e: Vec<(String, Json)> = Vec::new();
    put(&mut e, "i", Json::Nat(i as u64 + 1));
    put(&mut e, "ts", Json::text(node.event.ts.as_str()));
    put(&mut e, "role", Json::text(node.event.role.as_str()));
    put(&mut e, "run_id", Json::text(node.event.run_id.as_str()));
    put(&mut e, "content", Json::text(node.event.content.as_str()));
    put(&mut e, "goal_id", opt_text_json(&node.goal_id));
    put(&mut e, "view_url", opt_text_json(&node.view_url));
    put(&mut e, "actual_success", ok);
    put(&mut e, "bits", bits_lite_json(&node.bits));
    put(&mut e, "receipt_url", Json::Text(url));
    assert(entries_view(e@) =~= event_view(node_view(*node), i as int)->Object_0);
    Json::Object(e)
}

/// A thread graph as a structured value.
pub fn events_json(user_id: &str, thread: &str, filter_goal: &Option<String>, nodes: &Vec<GraphNode>) -> (r:
    Json)
    ensures
        r@ == events_view(user_id@, thread@, opt_view(*filter_goal), nodes_view(nodes@)),
{
    let mut events: Vec<Json> = Vec::new();
    let mut i: usize = 0;
    while i < nodes.len()
        invariant
            i <= nodes.len(),
            events@.len() == i,
            forall|j: int|
                0 <= j < i ==> (#[trigger] events@[j])@ == event_view(node_view(nodes@[j]), j),
        decreases nodes.len() - i,
    {
        events.push(event_json(&nodes[i], i));
        i += 1;
    }
    assert(items_view(events@) =~= events_list(nodes_view(nodes@)));
    let mut e: Vec<(String, Json)> = Vec::new();
    put(&mut e, "user_id", Json::text(user_id));
    put(&mut e, "thread", Json::text(thread));
    if let Some(f) = filter_goal {
        put(&mut e, "filter_goal", Json::text(f.as_str()));
    }
    put(&mut e, "events", Json::List(events));
    assert(entries_view(e@) =~= events_view(
        user_id@,
        thread@,
        opt_view(*filter_goal),
        nodes_view(nodes@),
    )->Object_0);
    Json::Object(e)
}

/// What is written of a thread graph: its drawing, its nodes as a
/// structured value, and its page with the picture and the table.
pub fn thread_graph_files(job: &ThreadGraphJob, thread: &str, g: &ShownGraph) -> (f: GraphFiles)
    requires
        g.nodes@.len() <= MAX_DRAWN,
    ensures
        f.out_dir@ == job.out_dir@,
        f.dot@ == thread_dot(g.nodes@, g.edges@, job.opts),
        f.events@ == events_view(
            job.user_id@,
            thread@,
            opt_view(g.filter_goal),
            nodes_view(g.nodes@),
        ),
        f.index_html@ == index_html_text(
            job.run_id@,
            job.user_id@,
            thread@,
            picture(g.nodes@, job.opts),
            g.nodes.len(),
            g.edges.len(),
            table_rows(g.nodes@, g.nodes@.len() as int, job.opts),
        ),
        f.nodes == g.nodes@.len(),
        f.edges == g.edges@.len(),
{
    let svg = build_svg(&g.nodes, &job.opts);
    let table = build_table_html(&g.nodes, &job.opts);
    GraphFiles {
        out_dir: job.out_dir.clone(),
        dot: build_dot(&g.nodes, &g.edges, &job.opts),
        events: events_json(job.user_id.as_str(), thread, &g.filter_goal, &g.nodes),
        index_html: index_html(
            job.run_id.as_str(),
            job.user_id.as_str(),
            thread,
            svg.as_str(),
            g.nodes.len(),
            g.edges.len(),
            table.as_str(),
        ),
        nodes: g.nodes.len(),
        edges: g.edges.len(),
    }
}

} // verus!
