//! The receipts graph: which receipts it shows, in which order, and how
//! they are drawn and listed.

use vstd::prelude::*;
use crate::api::{
    is_safe_segment, opt_text_json, opt_text_view, receipt_url, receipt_url_of, safe_segment,
};
use crate::json::{entries_view, items_view, put, Json, JsonView};
use crate::level::{decimal, push_decimal};
use crate::order::{
    is_text_before, lemma_text_before_asymmetric, lemma_text_before_irreflexive,
    lemma_text_before_total, lemma_text_before_transitive, ranked, sort_ranked, text_before,
    Ranked,
};
use crate::text::{
    chars_of, escaped, html_escaped, join_path, joined, opt_view, push_all, push_str, text_of,
};
use super::graphs::{
    bounded_count, escape_quotes, get_actual_success, get_goal_id, get_view_url, goal_of,
    quote_escaped, receipts_limit, success_of, view_url_of, GraphFiles,
};
use super::pages::{index_html_receipts, index_html_receipts_text};

verus! {

/// One receipt of a receipts graph. `mtime` is the time of its last change
/// in seconds since the Unix epoch.
#[derive(Debug)]
pub struct ReceiptItem {
    pub run_id: String,
    pub goal_id: String,
    pub ok: Option<bool>,
    pub view: Option<String>,
    pub mtime: u64,
}

impl Ranked for ReceiptItem {
    /// The receipt that changed later comes first; of two that changed at one
    /// time, the one with the later identifier.
    open spec fn precedes(&self, other: &Self) -> bool {
        self.mtime > other.mtime || (self.mtime == other.mtime && text_before(
            other.run_id@,
            self.run_id@,
        ))
    }

    fn comes_before(&self, other: &Self) -> (r: bool) {
        if self.mtime > other.mtime {
            true
        } else if self.mtime == other.mtime {
            let a = chars_of(self.run_id.as_str());
            let b = chars_of(other.run_id.as_str());
            is_text_before(&b, &a)
        } else {
            false
        }
    }

    proof fn lemma_asymmetric(a: &Self, b: &Self) {
        lemma_text_before_asymmetric(a.run_id@, b.run_id@);
    }

    proof fn lemma_negatively_transitive(a: &Self, b: &Self, c: &Self) {
        lemma_text_before_total(a.run_id@, b.run_id@);
        lemma_text_before_total(b.run_id@, c.run_id@);
        lemma_text_before_asymmetric(a.run_id@, b.run_id@);
        lemma_text_before_asymmetric(b.run_id@, c.run_id@);
        lemma_text_before_asymmetric(a.run_id@, c.run_id@);
        lemma_text_before_irreflexive(a.run_id@);
        lemma_text_before_irreflexive(c.run_id@);
        if c.precedes(a) && c.mtime == a.mtime {
            if text_before(b.run_id@, a.run_id@) {
                lemma_text_before_transitive(b.run_id@, a.run_id@, c.run_id@);
            }
            if text_before(a.run_id@, c.run_id@) && text_before(c.run_id@, b.run_id@) {
                lemma_text_before_transitive(a.run_id@, c.run_id@, b.run_id@);
            }
        }
    }
}

/// The item of a receipts graph for the receipt of the run `run_id`: none
/// for a receipt without a manifest, which is the placeholder of a run that
/// has not ended.
pub fn receipt_item(run_id: &str, resp: &Json, mtime: u64) -> (r: Option<ReceiptItem>)
    ensures
        r is Some <==> resp@.get("manifest"@) is Some,
        r matches Some(item) ==> {
            &&& item.run_id@ == run_id@
            &&& item.goal_id@ == match goal_of(resp@) {
                Some(g) => g,
                None => "unknown"@,
            }
            &&& item.ok == success_of(resp@)
            &&& opt_view(item.view) == view_url_of(resp@)
            &&& item.mtime == mtime
        },
{
    if resp.get("manifest").is_none() {
        return None;
    }
    let goal_id = match get_goal_id(resp) {
        Some(g) => g,
        None => "unknown".to_owned(),
    };
    Some(
        ReceiptItem {
            run_id: run_id.to_owned(),
            goal_id,
            ok: get_actual_success(resp),
            view: get_view_url(resp),
            mtime,
        },
    )
}

/// `out` holds the `limit` latest of `items`, the earliest of them first:
/// it is the beginning of `items` put in order, the latest first, turned
/// round.
pub open spec fn latest(out: Seq<ReceiptItem>, items: Seq<ReceiptItem>, limit: usize) -> bool {
    exists|all: Seq<ReceiptItem>|
        #![trigger ranked(all)]
        {
            &&& ranked(all)
            &&& all.to_multiset() == items.to_multiset()
            &&& out == (if all.len() <= limit {
                all
            } else {
                all.take(limit as int)
            }).reverse()
        }
}

/// The receipts that a graph shows: the `limit` latest, the earliest of
/// them first.
pub fn latest_receipts(items: Vec<ReceiptItem>, limit: usize) -> (out: Vec<ReceiptItem>)
    ensures
        latest(out@, items@, limit),
{
    let mut sorted = sort_ranked(items);
    let ghost all = sorted@;
    if sorted.len() > limit {
        sorted.truncate(limit);
    }
    let ghost kept = sorted@;
    let mut out: Vec<ReceiptItem> = Vec::new();
    while sorted.len() > 0
        invariant
            sorted@.len() <= kept.len(),
            sorted@ == kept.take(sorted@.len() as int),
            out@ == kept.skip(sorted@.len() as int).reverse(),
        decreases sorted.len(),
    {
        let ghost n = sorted@.len() as int;
        let last = sorted.pop().unwrap();
        out.push(last);
        proof {
            assert(last == kept[n - 1]);
            assert(sorted@ =~= kept.take(n - 1));
            assert(kept.skip(n - 1).reverse() =~= kept.skip(n).reverse().push(kept[n - 1]));
        }
    }
    proof {
        assert(kept.skip(0) =~= kept);
        assert(ranked(all));
    }
    out
}

/// How the outcome of a run is shown.
pub open spec fn outcome_text(ok: Option<bool>) -> Seq<char> {
    match ok {
        Some(true) => "ok"@,
        Some(false) => "fail"@,
        None => "?"@,
    }
}

/// The fill of a receipt: green for a run that succeeded, red for one that
/// failed, grey where the receipt does not say.
pub open spec fn outcome_fill(ok: Option<bool>) -> Seq<char> {
    match ok {
        Some(true) => "#ebfbee"@,
        Some(false) => "#fff5f5"@,
        None => "#f1f3f5"@,
    }
}

/// How the outcome of a run is shown.
pub fn outcome_of(ok: Option<bool>) -> (r: &'static str)
    ensures
        r@ == outcome_text(ok),
{
    match ok {
        Some(true) => "ok",
        Some(false) => "fail",
        None => "?",
    }
}

/// The line of the receipt `i` in a drawing.
pub open spec fn receipt_line(item: ReceiptItem, i: int) -> Seq<char> {
    "  n"@ + decimal(i as nat) + " [label=\""@ + quote_escaped(
        item.goal_id@ + "\\n"@ + item.run_id@ + "\\n"@ + outcome_text(item.ok),
    ) + "\", fillcolor=\""@ + outcome_fill(item.ok) + "\"];\n"@
}

/// The lines of the first `n` receipts.
pub open spec fn receipt_lines(items: Seq<ReceiptItem>, n: int) -> Seq<char>
    decreases n,
{
    if n <= 0 {
        Seq::<char>::empty()
    } else {
        receipt_lines(items, n - 1) + receipt_line(items[n - 1], n - 1)
    }
}

/// The lines of the edges that lead from each of the first `n + 1` receipts
/// to the next.
pub open spec fn chain_lines(n: int) -> Seq<char>
    decreases n,
{
    if n <= 0 {
        Seq::<char>::empty()
    } else {
        chain_lines(n - 1) + ("  n"@ + decimal((n - 1) as nat) + " -> n"@ + decimal(n as nat)
            + ";\n"@)
    }
}

/// The drawing of a receipts graph.
pub open spec fn receipts_dot_text(items: Seq<ReceiptItem>) -> Seq<char> {
    RECEIPTS_DOT_HEAD@ + receipt_lines(items, items.len() as int) + chain_lines(
        items.len() - 1,
    ) + "}\n"@
}

/// The head of the drawing of a receipts graph.
pub const RECEIPTS_DOT_HEAD: &'static str =
    "digraph receipts {\nrankdir=TB;\nnode [shape=box, style=\"rounded,filled\", fontname=\"Helvetica\"];\n";

/// The drawing of a receipts graph: the receipts in order, each leading to
/// the next.
pub fn receipts_dot(items: &Vec<ReceiptItem>) -> (r: String)
    ensures
        r@ == receipts_dot_text(items@),
{
    let mut lines: Vec<char> = Vec::new();
    let mut i: usize = 0;
    while i < items.len()
        invariant
            i <= items.len(),
            lines@ == receipt_lines(items@, i as int),
        decreases items.len() - i,
    {
        let it = &items[i];
        let mut label = chars_of(it.goal_id.as_str());
        push_str(&mut label, "\\n");
        push_str(&mut label, it.run_id.as_str());
        push_str(&mut label, "\\n");
        push_str(&mut label, outcome_of(it.ok));
        let fill: &'static str = match it.ok {
            Some(true) => "#ebfbee",
            Some(false) => "#fff5f5",
            None => "#f1f3f5",
        };
        let mut line = chars_of("  n");
        push_decimal(&mut line, i as u64);
        push_str(&mut line, " [label=\"");
        push_all(&mut line, &escape_quotes(&label));
        push_str(&mut line, "\", fillcolor=\"");
        push_str(&mut line, fill);
        push_str(&mut line, "\"];\n");
        push_all(&mut lines, &line);
        i += 1;
    }
    let mut chain: Vec<char> = Vec::new();
    let mut k: usize = 0;
    while k + 1 < items.len()
        invariant
            k <= items.len(),
            items@.len() == 0 ==> k == 0,
            items@.len() > 0 ==> k <= items@.len() - 1,
            chain@ == chain_lines(k as int),
        decreases items.len() - k,
    {
        let mut line = chars_of("  n");
        push_decimal(&mut line, k as u64);
        push_str(&mut line, " -> n");
        push_decimal(&mut line, (k + 1) as u64);
        push_str(&mut line, ";\n");
        push_all(&mut chain, &line);
        k += 1;
    }
    let mut out = chars_of(RECEIPTS_DOT_HEAD);
    push_all(&mut out, &lines);
    push_all(&mut out, &chain);
    push_str(&mut out, "}\n");
    text_of(&out)
}

/// The list item of a receipt on the page of a receipts graph.
pub open spec fn receipt_item_html(item: ReceiptItem) -> Seq<char> {
    "<li data-t=\""@ + html_escaped(item.goal_id@ + " "@ + item.run_id@) + "\"><a href=\""@
        + html_escaped(receipt_url_of(item.run_id@))
        + "\" target=\"_blank\" rel=\"noreferrer\">"@ + html_escaped(
        item.goal_id@ + " · "@ + item.run_id@,
    ) + "</a><span class=\"pill\">"@ + html_escaped(outcome_text(item.ok)) + "</span>"@ + (
    match item.view {
        Some(v) => if v@.len() == 0 {
            Seq::<char>::empty()
        } else {
            " <a class=\"pill\" href=\""@ + html_escaped(v@)
                + "\" target=\"_blank\" rel=\"noreferrer\">view</a>"@
        },
        None => Seq::<char>::empty(),
    }) + "</li>\n"@
}

/// The list items of the first `n` receipts.
pub open spec fn receipt_items_html(items: Seq<ReceiptItem>, n: int) -> Seq<char>
    decreases n,
{
    if n <= 0 {
        Seq::<char>::empty()
    } else {
        receipt_items_html(items, n - 1) + receipt_item_html(items[n - 1])
    }
}

/// The list of the receipts on the page of a receipts graph.
pub fn receipts_items_html(items: &Vec<ReceiptItem>) -> (r: String)
    ensures
        r@ == receipt_items_html(items@, items@.len() as int),
{
    let mut out: Vec<char> = Vec::new();
    let mut i: usize = 0;
    while i < items.len()
        invariant
            i <= items.len(),
            out@ == receipt_items_html(items@, i as int),
        decreases items.len() - i,
    {
        let it = &items[i];
        let mut data = chars_of(it.goal_id.as_str());
        push_str(&mut data, " ");
        push_str(&mut data, it.run_id.as_str());
        let mut shown = chars_of(it.goal_id.as_str());
        push_str(&mut shown, " · ");
        push_str(&mut shown, it.run_id.as_str());
        let url = receipt_url(it.run_id.as_str());
        let mut item = chars_of("<li data-t=\"");
        push_all(&mut item, &escaped(&data));
        push_str(&mut item, "\"><a href=\"");
        push_all(&mut item, &escaped(&chars_of(url.as_str())));
        push_str(&mut item, "\" target=\"_blank\" rel=\"noreferrer\">");
        push_all(&mut item, &escaped(&shown));
        push_str(&mut item, "</a><span class=\"pill\">");
        push_all(&mut item, &escaped(&chars_of(outcome_of(it.ok))));
        push_str(&mut item, "</span>");
        let mut view: Vec<char> = Vec::new();
        if let Some(v) = &it.view {
            if v.as_str().unicode_len() > 0 {
                view = chars_of(" <a class=\"pill\" href=\"");
                push_all(&mut view, &escaped(&chars_of(v.as_str())));
                push_str(&mut view, "\" target=\"_blank\" rel=\"noreferrer\">view</a>");
            }
        }
        push_all(&mut item, &view);
        push_str(&mut item, "</li>\n");
        push_all(&mut out, &item);
        i += 1;
    }
    text_of(&out)
}

/// A receipt of a graph as a structured value.
pub open spec fn receipt_event_view(item: ReceiptItem) -> JsonView {
    JsonView::Object(
        seq![
            ("run_id"@, JsonView::Text(item.run_id@)),
            ("goal_id"@, JsonView::Text(item.goal_id@)),
            ("actual_success"@, match item.ok {
                Some(b) => JsonView::Bool(b),
                None => JsonView::Null,
            }),
            ("view_url"@, opt_text_view(opt_view(item.view))),
            ("receipt_url"@, JsonView::Text(receipt_url_of(item.run_id@))),
            ("mtime_s"@, JsonView::Int(item.mtime as int)),
        ],
    )
}

/// A receipts graph as a structured value: its kind, how many receipts it
/// shows at most, and the receipts.
pub open spec fn receipts_events_view(limit: usize, items: Seq<ReceiptItem>) -> JsonView {
    JsonView::Object(
        seq![
            ("kind"@, JsonView::Text("receipts"@)),
            ("limit"@, JsonView::Int(limit as int)),
            (
                "items"@,
                JsonView::List(Seq::new(items.len(), |i: int| receipt_event_view(items[i]))),
            ),
        ],
    )
}

/// A receipt of a graph as a structured value.
fn receipt_event_json(item: &ReceiptItem) -> (r: Json)
    ensures
        r@ == receipt_event_view(*item),
{
    let ok = match item.ok {
        Some(b) => Json::Bool(b),
        None => Json::Null,
    };
    let url = receipt_url(item.run_id.as_str());
    let mut e: Vec<(String, Json)> = Vec::new();
    put(&mut e, "run_id", Json::text(item.run_id.as_str()));
    put(&mut e, "goal_id", Json::text(item.goal_id.as_str()));
    put(&mut e, "actual_success", ok);
    put(&mut e, "view_url", opt_text_json(&item.view));
    put(&mut e, "receipt_url", Json::Text(url));
    put(&mut e, "mtime_s", Json::Nat(item.mtime));
    assert(entries_view(e@) =~= receipt_event_view(*item)->Object_0);
    Json::Object(e)
}

/// A receipts graph as a structured value.
pub fn receipts_events_json(limit: usize, items: &Vec<ReceiptItem>) -> (r: Json)
    ensures
        r@ == receipts_events_view(limit, items@),
{
    let mut list: Vec<Json> = Vec::new();
    let mut i: usize = 0;
    while i < items.len()
        invariant
            i <= items.len(),
            list@.len() == i,
            forall|j: int| 0 <= j < i ==> (#[trigger] list@[j])@ == receipt_event_view(items@[j]),
        decreases items.len() - i,
    {
        list.push(receipt_event_json(&items[i]));
        i += 1;
    }
    assert(items_view(list@) =~= Seq::new(
        items@.len(),
        |i: int| receipt_event_view(items@[i]),
    ));
    let mut e: Vec<(String, Json)> = Vec::new();
    put(&mut e, "kind", Json::text("receipts"));
    put(&mut e, "limit", Json::Nat(limit as u64));
    put(&mut e, "items", Json::List(list));
    assert(entries_view(e@) =~= receipts_events_view(limit, items@)->Object_0);
    Json::Object(e)
}

/// `f` is what is written of the receipts graph of the run `run_id` that
/// shows the receipts `shown`, of `limit` at most, under the directory
/// `root`.
pub open spec fn receipts_files(
    f: GraphFiles,
    root: Seq<char>,
    run_id: Seq<char>,
    limit: usize,
    shown: Seq<ReceiptItem>,
) -> bool {
    &&& f.out_dir@ == joined(joined(root, "runs/graphs"@), run_id)
    &&& f.dot@ == receipts_dot_text(shown)
    &&& f.events@ == receipts_events_view(limit, shown)
    &&& f.nodes == shown.len()
    &&& f.edges == if shown.len() == 0 {
        0
    } else {
        shown.len() - 1
    }
    &&& f.index_html@ == index_html_receipts_text(
        run_id,
        f.nodes,
        f.edges,
        receipt_items_html(shown, shown.len() as int),
    )
}

/// The receipts graph of the run `external_run_id` over the receipts
/// `items`: it shows the latest of them, what was asked for but one at
/// least and two thousand at most, the earliest first. A run identifier
/// that is no safe segment is refused.
pub fn receipts_graph(root: &str, external_run_id: &str, limit: usize, items: Vec<ReceiptItem>) -> (r:
    Result<GraphFiles, String>)
    ensures
        match r {
            Ok(f) => safe_segment(external_run_id@) && exists|shown: Seq<ReceiptItem>|
                #![trigger latest(shown, items@, bounded_count(limit, 1, 2000))]
                {
                    &&& latest(shown, items@, bounded_count(limit, 1, 2000))
                    &&& receipts_files(
                        f,
                        root@,
                        external_run_id@,
                        bounded_count(limit, 1, 2000),
                        shown,
                    )
                },
            Err(msg) => !safe_segment(external_run_id@) && msg@ == "invalid __run_id"@,
        },
{
    if !is_safe_segment(external_run_id) {
        return Err("invalid __run_id".to_owned());
    }
    let limit = receipts_limit(limit);
    let shown = latest_receipts(items, limit);
    let graphs = join_path(root, "runs/graphs");
    let nodes = shown.len();
    let edges = if nodes == 0 {
        0
    } else {
        nodes - 1
    };
    let list = receipts_items_html(&shown);
    Ok(
        GraphFiles {
            out_dir: join_path(graphs.as_str(), external_run_id),
            dot: receipts_dot(&shown),
            events: receipts_events_json(limit, &shown),
            index_html: index_html_receipts(external_run_id, nodes, edges, list.as_str()),
            nodes,
            edges,
        },
    )
}

} // verus!
