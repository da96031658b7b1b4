//! The API graph: which traced requests it shows, how repeated requests
//! collapse into rows, and how the rows become nodes and edges.

use vstd::prelude::*;
use crate::api::paths::{
    parse_run_id_from_path, parse_run_id_from_query, parse_user_id_from_path, run_id_in_path,
    run_id_in_query, user_id_in_path,
};
use crate::api::redact::{redact, redacted};
use crate::api::{is_safe_segment, opt_text_json, opt_text_view, safe_segment, texts_json};
use crate::json::{entries_view, items_view, put, Json, JsonView};
use crate::level::{decimal, decimal_of, push_decimal};
use crate::text::{
    chars_of, escaped, html_escaped, join_path, joined, opt_view, push_all, push_html, push_str,
    same_text, str_eq, text_of, views,
};
use super::graphs::{
    api_limit, bounded_count, escape_quotes, normalize_path, normalized, quote_escaped,
    ApiGraphOpts, GraphFiles,
};
use super::pages::{index_html_api, index_html_api_text};

verus! {

/// One traced request.
#[derive(Debug)]
pub struct ApiTraceEvent {
    pub ts: String,
    pub method: String,
    pub path: String,
    pub query: Option<String>,
    pub status: u16,
    pub ms: u64,
    pub mutation: bool,
    pub run_id: Option<String>,
    pub user_id: Option<String>,
    pub thread: Option<String>,
}

/// One row of an API graph: a request, or several requests in a row to one
/// endpoint for one run, with their times added up and the status of the
/// last.
#[derive(Debug)]
pub struct Row {
    pub ts: String,
    pub method: String,
    pub path: String,
    pub status: u16,
    pub ms: u64,
    pub mutation: bool,
    pub run_id: String,
    pub thread: String,
}

/// What a row holds.
pub struct RowView {
    pub ts: Seq<char>,
    pub method: Seq<char>,
    pub path: Seq<char>,
    pub status: u16,
    pub ms: u64,
    pub mutation: bool,
    pub run_id: Seq<char>,
    pub thread: Seq<char>,
}

impl View for Row {
    type V = RowView;

    open spec fn view(&self) -> RowView {
        RowView {
            ts: self.ts@,
            method: self.method@,
            path: self.path@,
            status: self.status,
            ms: self.ms,
            mutation: self.mutation,
            run_id: self.run_id@,
            thread: self.thread@,
        }
    }
}

/// What the rows hold.
pub open spec fn rows_view(rows: Seq<Row>) -> Seq<RowView> {
    Seq::new(rows.len(), |i: int| rows[i]@)
}

/// A filter lets a value pass: it asks for nothing, or for just this value.
pub open spec fn passes(filter: Option<String>, value: Option<String>) -> bool {
    match filter {
        Some(f) => opt_view(value) == Some(f@),
        None => true,
    }
}

/// A request is shown: it is a mutation where only mutations are shown, and
/// it belongs to the run, the thread and the user that are asked for.
pub open spec fn shown(ev: ApiTraceEvent, opts: ApiGraphOpts) -> bool {
    &&& !opts.only_mutations || ev.mutation
    &&& passes(opts.run_id, ev.run_id)
    &&& passes(opts.thread, ev.thread)
    &&& passes(opts.user_id, ev.user_id)
}

/// The text of an optional text, empty where there is none.
pub open spec fn or_empty(o: Option<String>) -> Seq<char> {
    match o {
        Some(s) => s@,
        None => Seq::<char>::empty(),
    }
}

/// The row of one request: its path normalized.
pub open spec fn row_of(ev: ApiTraceEvent) -> RowView {
    RowView {
        ts: ev.ts@,
        method: ev.method@,
        path: normalized(ev.path@),
        status: ev.status,
        ms: ev.ms,
        mutation: ev.mutation,
        run_id: or_empty(ev.run_id),
        thread: or_empty(ev.thread),
    }
}

/// Two rows belong together: they have one method, one path and one run.
pub open spec fn together(a: RowView, b: RowView) -> bool {
    a.method == b.method && a.path == b.path && a.run_id == b.run_id
}

/// The row `last` with the row `next` collapsed into it.
pub open spec fn collapsed(last: RowView, next: RowView) -> RowView {
    RowView {
        ms: if last.ms + next.ms > u64::MAX {
            u64::MAX
        } else {
            (last.ms + next.ms) as u64
        },
        status: next.status,
        ..last
    }
}

/// The rows after the requests `evs` were read into the rows `rows`, in
/// order: a request that is not shown is left out; where rows collapse, a
/// request that belongs together with the last row goes into it; any other
/// request becomes a row, and reading ends once there are `limit` rows.
pub open spec fn rows_from(
    rows: Seq<RowView>,
    evs: Seq<ApiTraceEvent>,
    opts: ApiGraphOpts,
) -> Seq<RowView>
    decreases evs.len(),
{
    if evs.len() == 0 {
        rows
    } else if !shown(evs[0], opts) {
        rows_from(rows, evs.drop_first(), opts)
    } else if opts.collapse && rows.len() > 0 && together(rows.last(), row_of(evs[0])) {
        rows_from(
            rows.drop_last().push(collapsed(rows.last(), row_of(evs[0]))),
            evs.drop_first(),
            opts,
        )
    } else if rows.len() + 1 >= opts.limit {
        rows.push(row_of(evs[0]))
    } else {
        rows_from(rows.push(row_of(evs[0])), evs.drop_first(), opts)
    }
}

/// Whether a filter lets a value pass.
fn lets_pass(filter: &Option<String>, value: &Option<String>) -> (r: bool)
    ensures
        r == passes(*filter, *value),
{
    match filter {
        Some(f) => match value {
            Some(v) => str_eq(v.as_str(), f.as_str()),
            None => false,
        },
        None => true,
    }
}

/// The text of an optional text, empty where there is none.
fn text_or_empty(o: &Option<String>) -> (r: String)
    ensures
        r@ == or_empty(*o),
{
    match o {
        Some(s) => s.clone(),
        None => {
            let r = String::new();
            assert(r@ =~= Seq::<char>::empty());
            r
        },
    }
}

/// The rows of an API graph for the traced requests `evs`.
pub fn api_rows(evs: &Vec<ApiTraceEvent>, opts: &ApiGraphOpts) -> (rows: Vec<Row>)
    ensures
        rows_view(rows@) == rows_from(Seq::empty(), evs@, *opts),
{
    let mut rows: Vec<Row> = Vec::new();
    let mut i: usize = 0;
    let mut full = false;
    assert(evs@.skip(0) =~= evs@);
    assert(rows_view(rows@) =~= Seq::<RowView>::empty());
    while i < evs.len() && !full
        invariant
            i <= evs.len(),
            !full ==> rows_from(Seq::empty(), evs@, *opts) == rows_from(
                rows_view(rows@),
                evs@.skip(i as int),
                *opts,
            ),
            full ==> rows_from(Seq::empty(), evs@, *opts) == rows_view(rows@),
        decreases evs.len() - i + if full { 0int } else { 1int },
    {
        let ghost before = rows_view(rows@);
        proof {
            assert(evs@.skip(i as int)[0] == evs@[i as int]);
            assert(evs@.skip(i as int).drop_first() =~= evs@.skip(i + 1));
        }
        let ev = &evs[i];
        let keep = (!opts.only_mutations || ev.mutation) && lets_pass(&opts.run_id, &ev.run_id)
            && lets_pass(&opts.thread, &ev.thread) && lets_pass(&opts.user_id, &ev.user_id);
        if !keep {
            i += 1;
        } else {
            let row = Row {
                ts: ev.ts.clone(),
                method: ev.method.clone(),
                path: normalize_path(ev.path.as_str()),
                status: ev.status,
                ms: ev.ms,
                mutation: ev.mutation,
                run_id: text_or_empty(&ev.run_id),
                thread: text_or_empty(&ev.thread),
            };
            assert(row@ == row_of(*ev));
            let n = rows.len();
            let merge = opts.collapse && n > 0 && str_eq(
                rows[n - 1].method.as_str(),
                row.method.as_str(),
            ) && str_eq(rows[n - 1].path.as_str(), row.path.as_str()) && str_eq(
                rows[n - 1].run_id.as_str(),
                row.run_id.as_str(),
            );
            proof {
                if n > 0 {
                    assert(before.last() == rows@[n - 1]@);
                }
            }
            if merge {
                let Row { ts, method, path, status: _, ms, mutation, run_id, thread } =
                    rows.pop().unwrap();
                let merged = Row {
                    ts,
                    method,
                    path,
                    status: row.status,
                    ms: ms.saturating_add(row.ms),
                    mutation,
                    run_id,
                    thread,
                };
                rows.push(merged);
                assert(rows_view(rows@) =~= before.drop_last().push(
                    collapsed(before.last(), row_of(*ev)),
                ));
                i += 1;
            } else {
                rows.push(row);
                assert(rows_view(rows@) =~= before.push(row_of(*ev)));
                if rows.len() >= opts.limit {
                    full = true;
                } else {
                    i += 1;
                }
            }
        }
    }
    proof {
        if !full {
            assert(evs@.skip(i as int).len() == 0);
        }
    }
    rows
}

/// The endpoint of a row: its method and its path.
pub open spec fn endpoint(row: RowView) -> Seq<char> {
    row.method + " "@ + row.path
}

/// The position of the text `s` among `nodes`, or their number where it is
/// not among them.
pub open spec fn node_place(nodes: Seq<Seq<char>>, s: Seq<char>) -> int
    decreases nodes.len(),
{
    if nodes.len() == 0 || nodes[0] == s {
        0
    } else {
        1 + node_place(nodes.drop_first(), s)
    }
}

/// The nodes of a graph of the first `n` rows: their endpoints, each once,
/// in the order in which they first occur.
pub open spec fn nodes_of(rows: Seq<RowView>, n: int) -> Seq<Seq<char>>
    decreases n,
{
    if n <= 0 {
        Seq::<Seq<char>>::empty()
    } else {
        let before = nodes_of(rows, n - 1);
        if node_place(before, endpoint(rows[n - 1])) < before.len() {
            before
        } else {
            before.push(endpoint(rows[n - 1]))
        }
    }
}

/// The node that the row `i` stands at.
pub open spec fn node_at(rows: Seq<RowView>, i: int) -> int {
    node_place(nodes_of(rows, i + 1), endpoint(rows[i]))
}

/// Where `node_place` points: at the first node that equals the text.
pub proof fn lemma_node_place(nodes: Seq<Seq<char>>, s: Seq<char>, k: int)
    requires
        0 <= k <= nodes.len(),
        forall|j: int| 0 <= j < k ==> #[trigger] nodes[j] != s,
        k < nodes.len() ==> nodes[k] == s,
    ensures
        node_place(nodes, s) == k,
    decreases k,
{
    if k > 0 {
        let t = nodes.drop_first();
        assert forall|j: int| 0 <= j < k - 1 implies #[trigger] t[j] != s by {
            assert(t[j] == nodes[j + 1]);
        }
        lemma_node_place(t, s, k - 1);
    }
}

/// The nodes and the edges of an API graph: each endpoint is one node, and
/// an edge leads from the node of each row to the node of the next.
pub fn api_nodes(rows: &Vec<Row>) -> (r: (Vec<String>, Vec<(usize, usize)>))
    ensures
        views(r.0@) == nodes_of(rows_view(rows@), rows@.len() as int),
        r.1@.len() == if rows@.len() == 0 {
            0
        } else {
            rows@.len() - 1
        },
        forall|i: int|
            0 <= i < r.1@.len() ==> #[trigger] r.1@[i] == (
                node_at(rows_view(rows@), i) as usize,
                node_at(rows_view(rows@), i + 1) as usize,
            ),
{
    let ghost all = rows_view(rows@);
    let mut nodes: Vec<String> = Vec::new();
    let mut edges: Vec<(usize, usize)> = Vec::new();
    let mut last: usize = 0;
    let mut i: usize = 0;
    assert(views(nodes@) =~= Seq::<Seq<char>>::empty());
    while i < rows.len()
        invariant
            i <= rows.len(),
            all == rows_view(rows@),
            views(nodes@) == nodes_of(all, i as int),
            edges@.len() == if i == 0 {
                0
            } else {
                i - 1
            },
            i > 0 ==> last == node_at(all, i - 1),
            forall|j: int|
                0 <= j < edges@.len() ==> #[trigger] edges@[j] == (
                    node_at(all, j) as usize,
                    node_at(all, j + 1) as usize,
                ),
        decreases rows.len() - i,
    {
        let ghost before = views(nodes@);
        let mut key = chars_of(rows[i].method.as_str());
        push_str(&mut key, " ");
        push_str(&mut key, rows[i].path.as_str());
        assert(key@ == endpoint(all[i as int]));
        let mut k: usize = 0;
        let mut found = false;
        while k < nodes.len() && !found
            invariant
                k <= nodes.len(),
                before == views(nodes@),
                forall|j: int| 0 <= j < k ==> #[trigger] before[j] != key@,
                found ==> k < nodes.len() && before[k as int] == key@,
            decreases nodes.len() - k + if found { 0int } else { 1int },
        {
            assert(before[k as int] == nodes@[k as int]@);
            if same_text(&chars_of(nodes[k].as_str()), &key) {
                found = true;
            } else {
                k += 1;
            }
        }
        proof {
            lemma_node_place(before, key@, k as int);
        }
        if !found {
            nodes.push(text_of(&key));
            assert(views(nodes@) =~= before.push(key@));
            proof {
                lemma_node_place(views(nodes@), key@, k as int);
            }
        } else {
            proof {
                lemma_node_place(views(nodes@), key@, k as int);
            }
        }
        if i > 0 {
            edges.push((last, k));
        }
        last = k;
        i += 1;
    }
    (nodes, edges)
}

/// The lines of a drawing that name the first `n` nodes.
pub open spec fn api_node_lines(nodes: Seq<Seq<char>>, n: int) -> Seq<char>
    decreases n,
{
    if n <= 0 {
        Seq::<char>::empty()
    } else {
        api_node_lines(nodes, n - 1) + ("  n"@ + decimal((n - 1) as nat) + " [label=\""@
            + quote_escaped(nodes[n - 1]) + "\"];\n"@)
    }
}

/// The lines of a drawing that draw the first `n` edges.
pub open spec fn api_edge_lines(edges: Seq<(usize, usize)>, n: int) -> Seq<char>
    decreases n,
{
    if n <= 0 {
        Seq::<char>::empty()
    } else {
        api_edge_lines(edges, n - 1) + ("  n"@ + decimal(edges[n - 1].0 as nat) + " -> n"@
            + decimal(edges[n - 1].1 as nat) + ";\n"@)
    }
}

/// The drawing of an API graph.
pub open spec fn api_dot_text(nodes: Seq<Seq<char>>, edges: Seq<(usize, usize)>) -> Seq<char> {
    API_DOT_HEAD@ + api_node_lines(nodes, nodes.len() as int) + api_edge_lines(
        edges,
        edges.len() as int,
    ) + "}\n"@
}

/// The head of the drawing of an API graph.
pub const API_DOT_HEAD: &'static str =
    "digraph api {\nrankdir=LR;\nnode [shape=box, style=\"rounded,filled\", fontname=\"Helvetica\", fillcolor=\"#f8f9fa\"];\n";

/// The drawing of an API graph.
pub fn api_dot(nodes: &Vec<String>, edges: &Vec<(usize, usize)>) -> (r: String)
    ensures
        r@ == api_dot_text(views(nodes@), edges@),
{
    let ghost all = views(nodes@);
    let mut lines: Vec<char> = Vec::new();
    let mut i: usize = 0;
    while i < nodes.len()
        invariant
            i <= nodes.len(),
            all == views(nodes@),
            lines@ == api_node_lines(all, i as int),
        decreases nodes.len() - i,
    {
        assert(all[i as int] == nodes@[i as int]@);
        let mut line = chars_of("  n");
        push_decimal(&mut line, i as u64);
        push_str(&mut line, " [label=\"");
        push_all(&mut line, &escape_quotes(&chars_of(nodes[i].as_str())));
        push_str(&mut line, "\"];\n");
        push_all(&mut lines, &line);
        i += 1;
    }
    let mut drawn: Vec<char> = Vec::new();
    let mut k: usize = 0;
    while k < edges.len()
        invariant
            k <= edges.len(),
            drawn@ == api_edge_lines(edges@, k as int),
        decreases edges.len() - k,
    {
        let mut line = chars_of("  n");
        push_decimal(&mut line, edges[k].0 as u64);
        push_str(&mut line, " -> n");
        push_decimal(&mut line, edges[k].1 as u64);
        push_str(&mut line, ";\n");
        push_all(&mut drawn, &line);
        k += 1;
    }
    let mut out = chars_of(API_DOT_HEAD);
    push_all(&mut out, &lines);
    push_all(&mut out, &drawn);
    push_str(&mut out, "}\n");
    text_of(&out)
}

/// What the page searches a row by: its method, its path, its run and its
/// thread, with a blank between them.
pub open spec fn row_search_text(row: RowView) -> Seq<char> {
    row.method + " "@ + row.path + " "@ + row.run_id + " "@ + row.thread
}

/// The row `i` of the table on the page of an API graph.
pub open spec fn row_html(row: RowView, i: int) -> Seq<char> {
    "<tr class=\""@ + (if row.mutation {
        "mut"@
    } else {
        Seq::<char>::empty()
    }) + "\" data-t=\""@ + html_escaped(row_search_text(row)) + "\"><td>"@ + decimal(
        (i + 1) as nat,
    ) + "</td><td>"@ + html_escaped(row.ts) + "</td><td>"@ + html_escaped(row.method)
        + "</td><td><code>"@ + html_escaped(row.path) + "</code></td><td>"@ + decimal(
        row.status as nat,
    ) + "</td><td>"@ + decimal(row.ms as nat) + "</td><td><code>"@ + html_escaped(row.run_id)
        + "</code></td><td><code>"@ + html_escaped(row.thread) + "</code></td></tr>\n"@
}

/// The first `n` rows of the table.
pub open spec fn rows_html(rows: Seq<RowView>, n: int) -> Seq<char>
    decreases n,
{
    if n <= 0 {
        Seq::<char>::empty()
    } else {
        rows_html(rows, n - 1) + row_html(rows[n - 1], n - 1)
    }
}

/// The table rows on the page of an API graph, one for each row.
pub fn api_items_html(rows: &Vec<Row>) -> (r: String)
    ensures
        r@ == rows_html(rows_view(rows@), rows@.len() as int),
{
    let ghost all = rows_view(rows@);
    let mut out: Vec<char> = Vec::new();
    let mut i: usize = 0;
    while i < rows.len()
        invariant
            i <= rows.len(),
            all == rows_view(rows@),
            out@ == rows_html(all, i as int),
        decreases rows.len() - i,
    {
        let row = &rows[i];
        assert(all[i as int] == row@);
        let mut search = chars_of(row.method.as_str());
        push_str(&mut search, " ");
        push_str(&mut search, row.path.as_str());
        push_str(&mut search, " ");
        push_str(&mut search, row.run_id.as_str());
        push_str(&mut search, " ");
        push_str(&mut search, row.thread.as_str());
        let mut found: Vec<char> = Vec::new();
        push_html(&mut found, &search);
        assert(found@ =~= html_escaped(row_search_text(row@)));
        let class: Vec<char> = if row.mutation {
            chars_of("mut")
        } else {
            Vec::new()
        };
        let mut line = chars_of("<tr class=\"");
        push_all(&mut line, &class);
        push_str(&mut line, "\" data-t=\"");
        push_all(&mut line, &found);
        push_str(&mut line, "\"><td>");
        push_all(&mut line, &decimal_of((i + 1) as u64));
        push_str(&mut line, "</td><td>");
        push_all(&mut line, &escaped(&chars_of(row.ts.as_str())));
        push_str(&mut line, "</td><td>");
        push_all(&mut line, &escaped(&chars_of(row.method.as_str())));
        push_str(&mut line, "</td><td><code>");
        push_all(&mut line, &escaped(&chars_of(row.path.as_str())));
        push_str(&mut line, "</code></td><td>");
        push_all(&mut line, &decimal_of(row.status as u64));
        push_str(&mut line, "</td><td>");
        push_all(&mut line, &decimal_of(row.ms));
        push_str(&mut line, "</td><td><code>");
        push_all(&mut line, &escaped(&chars_of(row.run_id.as_str())));
        push_str(&mut line, "</code></td><td><code>");
        push_all(&mut line, &escaped(&chars_of(row.thread.as_str())));
        push_str(&mut line, "</code></td></tr>\n");
        push_all(&mut out, &line);
        i += 1;
    }
    text_of(&out)
}

/// The edges of a graph of rows: one from the node of each row to the node
/// of the next.
pub open spec fn edges_of(rows: Seq<RowView>) -> Seq<(usize, usize)> {
    Seq::new(
        if rows.len() == 0 {
            0
        } else {
            (rows.len() - 1) as nat
        },
        |i: int| (node_at(rows, i) as usize, node_at(rows, i + 1) as usize),
    )
}

/// The options of an API graph as a structured value.
pub open spec fn opts_view(opts: ApiGraphOpts) -> JsonView {
    JsonView::Object(
        seq![
            ("limit"@, JsonView::Int(opts.limit as int)),
            ("only_mutations"@, JsonView::Bool(opts.only_mutations)),
            ("run_id"@, opt_text_view(opt_view(opts.run_id))),
            ("thread"@, opt_text_view(opt_view(opts.thread))),
            ("user_id"@, opt_text_view(opt_view(opts.user_id))),
            ("collapse"@, JsonView::Bool(opts.collapse)),
        ],
    )
}

/// The row `i` of an API graph as a structured value.
pub open spec fn row_json_view(row: RowView, i: int) -> JsonView {
    JsonView::Object(
        seq![
            ("i"@, JsonView::Int(i + 1)),
            ("ts"@, JsonView::Text(row.ts)),
            ("method"@, JsonView::Text(row.method)),
            ("path"@, JsonView::Text(row.path)),
            ("status"@, JsonView::Int(row.status as int)),
            ("ms"@, JsonView::Int(row.ms as int)),
            ("mutation"@, JsonView::Bool(row.mutation)),
            ("run_id"@, JsonView::Text(row.run_id)),
            ("thread"@, JsonView::Text(row.thread)),
        ],
    )
}

/// An edge as a structured value: the list of its two nodes.
pub open spec fn edge_json_view(e: (usize, usize)) -> JsonView {
    JsonView::List(seq![JsonView::Int(e.0 as int), JsonView::Int(e.1 as int)])
}

/// An API graph as a structured value: its kind, its options, its rows,
/// its nodes and its edges.
pub open spec fn api_events_view(
    opts: ApiGraphOpts,
    rows: Seq<RowView>,
    nodes: Seq<Seq<char>>,
    edges: Seq<(usize, usize)>,
) -> JsonView {
    JsonView::Object(
        seq![
            ("kind"@, JsonView::Text("api"@)),
            ("opts"@, opts_view(opts)),
            ("rows"@, JsonView::List(Seq::new(rows.len(), |i: int| row_json_view(rows[i], i)))),
            ("nodes"@, JsonView::List(Seq::new(nodes.len(), |i: int| JsonView::Text(nodes[i])))),
            ("edges"@, JsonView::List(Seq::new(edges.len(), |i: int| edge_json_view(edges[i])))),
        ],
    )
}

/// The options of an API graph as a structured value.
fn opts_json(opts: &ApiGraphOpts) -> (r: Json)
    ensures
        r@ == opts_view(*opts),
{
    let mut e: Vec<(String, Json)> = Vec::new();
    put(&mut e, "limit", Json::Nat(opts.limit as u64));
    put(&mut e, "only_mutations", Json::Bool(opts.only_mutations));
    put(&mut e, "run_id", opt_text_json(&opts.run_id));
    put(&mut e, "thread", opt_text_json(&opts.thread));
    put(&mut e, "user_id", opt_text_json(&opts.user_id));
    put(&mut e, "collapse", Json::Bool(opts.collapse));
    assert(entries_view(e@) =~= opts_view(*opts)->Object_0);
    Json::Object(e)
}

/// The row `i` of an API graph as a structured value.
fn row_json(row: &Row, i: usize) -> (r: Json)
    requires
        i < usize::MAX,
    ensures
        r@ == row_json_view(row@, i as int),
{
    let mut e: Vec<(String, Json)> = Vec::new();
    put(&mut e, "i", Json::Nat(i as u64 + 1));
    put(&mut e, "ts", Json::text(row.ts.as_str()));
    put(&mut e, "method", Json::text(row.method.as_str()));
    put(&mut e, "path", Json::text(row.path.as_str()));
    put(&mut e, "status", Json::Nat(row.status as u64));
    put(&mut e, "ms", Json::Nat(row.ms));
    put(&mut e, "mutation", Json::Bool(row.mutation));
    put(&mut e, "run_id", Json::text(row.run_id.as_str()));
    put(&mut e, "thread", Json::text(row.thread.as_str()));
    assert(entries_view(e@) =~= row_json_view(row@, i as int)->Object_0);
    Json::Object(e)
}

/// An API graph as a structured value.
pub fn api_events_json(
    opts: &ApiGraphOpts,
    rows: &Vec<Row>,
    nodes: &Vec<String>,
    edges: &Vec<(usize, usize)>,
) -> (r: Json)
    ensures
        r@ == api_events_view(*opts, rows_view(rows@), views(nodes@), edges@),
{
    let mut row_list: Vec<Json> = Vec::new();
    let mut i: usize = 0;
    while i < rows.len()
        invariant
            i <= rows.len(),
            row_list@.len() == i,
            forall|j: int| 0 <= j < i ==> (#[trigger] row_list@[j])@ == row_json_view(rows@[j]@, j),
        decreases rows.len() - i,
    {
        row_list.push(row_json(&rows[i], i));
        i += 1;
    }
    let mut edge_list: Vec<Json> = Vec::new();
    let mut k: usize = 0;
    while k < edges.len()
        invariant
            k <= edges.len(),
            edge_list@.len() == k,
            forall|j: int| 0 <= j < k ==> (#[trigger] edge_list@[j])@ == edge_json_view(edges@[j]),
        decreases edges.len() - k,
    {
        let mut pair: Vec<Json> = Vec::new();
        pair.push(Json::Nat(edges[k].0 as u64));
        pair.push(Json::Nat(edges[k].1 as u64));
        assert(items_view(pair@) =~= seq![
            JsonView::Int(edges@[k as int].0 as int),
            JsonView::Int(edges@[k as int].1 as int),
        ]);
        edge_list.push(Json::List(pair));
        k += 1;
    }
    let node_list = texts_json(nodes);
    proof {
        let all = rows_view(rows@);
        assert(items_view(row_list@) =~= Seq::new(all.len(), |i: int| row_json_view(all[i], i)));
        assert(items_view(edge_list@) =~= Seq::new(
            edges@.len(),
            |i: int| edge_json_view(edges@[i]),
        ));
        let names = views(nodes@);
        assert(Seq::new(nodes@.len(), |i: int| JsonView::Text(nodes@[i]@)) =~= Seq::new(
            names.len(),
            |i: int| JsonView::Text(names[i]),
        ));
    }
    let mut e: Vec<(String, Json)> = Vec::new();
    put(&mut e, "kind", Json::text("api"));
    put(&mut e, "opts", opts_json(opts));
    put(&mut e, "rows", Json::List(row_list));
    put(&mut e, "nodes", node_list);
    put(&mut e, "edges", Json::List(edge_list));
    assert(entries_view(e@) =~= api_events_view(
        *opts,
        rows_view(rows@),
        views(nodes@),
        edges@,
    )->Object_0);
    Json::Object(e)
}

/// The options of an API graph with the number of requests it reads put
/// within its bounds: ten at least and four thousand at most.
pub open spec fn bounded_opts(opts: ApiGraphOpts) -> ApiGraphOpts {
    ApiGraphOpts { limit: bounded_count(opts.limit, 10, 4000), ..opts }
}

/// `f` is what is written of the API graph of the run `run_id` with the
/// rows `rows` under the directory `root`.
pub open spec fn api_files(
    f: GraphFiles,
    root: Seq<char>,
    run_id: Seq<char>,
    opts: ApiGraphOpts,
    rows: Seq<RowView>,
) -> bool {
    let nodes = nodes_of(rows, rows.len() as int);
    let edges = edges_of(rows);
    &&& f.out_dir@ == joined(joined(root, "runs/graphs"@), run_id)
    &&& f.dot@ == api_dot_text(nodes, edges)
    &&& f.events@ == api_events_view(opts, rows, nodes, edges)
    &&& f.nodes == nodes.len()
    &&& f.edges == edges.len()
    &&& f.index_html@ == index_html_api_text(
        run_id,
        f.nodes,
        f.edges,
        rows_html(rows, rows.len() as int),
    )
}

/// Why an API graph cannot be drawn, where it cannot: the run identifier
/// is no safe segment, or none of the traced requests is shown.
pub open spec fn api_graph_error(run_id: Seq<char>, opts: ApiGraphOpts, evs: Seq<ApiTraceEvent>) -> Option<
    Seq<char>,
> {
    if !safe_segment(run_id) {
        Some("invalid __run_id"@)
    } else if rows_from(Seq::empty(), evs, bounded_opts(opts)).len() == 0 {
        Some("no matching api events"@)
    } else {
        None
    }
}

/// The API graph of the run `external_run_id` over the traced requests
/// `evs`, the earliest first.
pub fn api_graph(root: &str, external_run_id: &str, opts: ApiGraphOpts, evs: &Vec<ApiTraceEvent>) -> (r:
    Result<GraphFiles, String>)
    ensures
        match r {
            Ok(f) => api_graph_error(external_run_id@, opts, evs@) is None && api_files(
                f,
                root@,
                external_run_id@,
                bounded_opts(opts),
                rows_from(Seq::empty(), evs@, bounded_opts(opts)),
            ),
            Err(msg) => api_graph_error(external_run_id@, opts, evs@) == Some(msg@),
        },
{
    if !is_safe_segment(external_run_id) {
        return Err("invalid __run_id".to_owned());
    }
    let opts = ApiGraphOpts {
        limit: api_limit(opts.limit),
        only_mutations: opts.only_mutations,
        run_id: opts.run_id,
        thread: opts.thread,
        user_id: opts.user_id,
        collapse: opts.collapse,
    };
    let rows = api_rows(evs, &opts);
    if rows.len() == 0 {
        return Err("no matching api events".to_owned());
    }
    let (nodes, edges) = api_nodes(&rows);
    assert(edges@ =~= edges_of(rows_view(rows@)));
    let graphs = join_path(root, "runs/graphs");
    let list = api_items_html(&rows);
    Ok(
        GraphFiles {
            out_dir: join_path(graphs.as_str(), external_run_id),
            dot: api_dot(&nodes, &edges),
            events: api_events_json(&opts, &rows, &nodes, &edges),
            index_html: index_html_api(external_run_id, nodes.len(), edges.len(), list.as_str()),
            nodes: nodes.len(),
            edges: edges.len(),
        },
    )
}

/// What a request tells of itself: its method, its path, its query, and
/// what its headers say of the run, the thread and the user it is for.
#[derive(Debug)]
pub struct Request {
    pub method: String,
    pub path: String,
    pub query: Option<String>,
    pub run_header: Option<String>,
    pub thread_header: Option<String>,
    pub user_header: Option<String>,
}

/// A request changes something: it is a POST, a PUT, a PATCH or a DELETE.
pub open spec fn changes(method: Seq<char>) -> bool {
    method == "POST"@ || method == "PUT"@ || method == "PATCH"@ || method == "DELETE"@
}

/// What a header names, where it is a safe segment.
pub open spec fn named(header: Option<String>) -> Option<Seq<char>> {
    match header {
        Some(h) => if safe_segment(h@) {
            Some(h@)
        } else {
            None
        },
        None => None,
    }
}

/// The run that a request is for: the one its header names, else the one
/// its query names, else the one its path names.
pub open spec fn run_of(req: Request) -> Option<Seq<char>> {
    if named(req.run_header) is Some {
        named(req.run_header)
    } else if req.query is Some && run_id_in_query(req.query->0@) is Some {
        run_id_in_query(req.query->0@)
    } else {
        run_id_in_path(req.path@)
    }
}

/// The user that a request is for: the one its header names, else the one
/// its path names.
pub open spec fn user_of(req: Request) -> Option<Seq<char>> {
    if named(req.user_header) is Some {
        named(req.user_header)
    } else {
        user_id_in_path(req.path@)
    }
}

/// `ev` is the trace of the request `req` that was answered at the time
/// `ts` with the status `status` after `ms` milliseconds: its path and its
/// query are redacted.
pub open spec fn traces(ev: ApiTraceEvent, req: Request, ts: Seq<char>, status: u16, ms: u64) -> bool {
    &&& ev.ts@ == ts
    &&& ev.method@ == req.method@
    &&& ev.path@ == redacted(req.path@)
    &&& opt_view(ev.query) == match req.query {
        Some(q) => Some(redacted(q@)),
        None => None,
    }
    &&& ev.status == status
    &&& ev.ms == ms
    &&& ev.mutation == changes(req.method@)
    &&& opt_view(ev.run_id) == run_of(req)
    &&& opt_view(ev.user_id) == user_of(req)
    &&& opt_view(ev.thread) == named(req.thread_header)
}

/// What a header names, where it is a safe segment.
fn named_by(header: &Option<String>) -> (r: Option<String>)
    ensures
        opt_view(r) == named(*header),
{
    match header {
        Some(h) => if is_safe_segment(h.as_str()) {
            Some(h.clone())
        } else {
            None
        },
        None => None,
    }
}

/// The trace of a request.
pub fn trace_event(req: &Request, ts: &str, status: u16, ms: u64) -> (ev: ApiTraceEvent)
    ensures
        traces(ev, *req, ts@, status, ms),
{
    let method = req.method.as_str();
    let mutation = str_eq(method, "POST") || str_eq(method, "PUT") || str_eq(method, "PATCH")
        || str_eq(method, "DELETE");
    let mut run_id = named_by(&req.run_header);
    if run_id.is_none() {
        if let Some(q) = &req.query {
            run_id = parse_run_id_from_query(q.as_str());
        }
    }
    if run_id.is_none() {
        run_id = parse_run_id_from_path(req.path.as_str());
    }
    let mut user_id = named_by(&req.user_header);
    if user_id.is_none() {
        user_id = parse_user_id_from_path(req.path.as_str());
    }
    let query = match &req.query {
        Some(q) => Some(redact(q.as_str())),
        None => None,
    };
    ApiTraceEvent {
        ts: ts.to_owned(),
        method: req.method.clone(),
        path: redact(req.path.as_str()),
        query,
        status,
        ms,
        mutation,
        run_id,
        user_id,
        thread: named_by(&req.thread_header),
    }
}

/// A traced request as it is stored: one object with its ten fields.
pub open spec fn trace_view(ev: ApiTraceEvent) -> JsonView {
    JsonView::Object(
        seq![
            ("ts"@, JsonView::Text(ev.ts@)),
            ("method"@, JsonView::Text(ev.method@)),
            ("path"@, JsonView::Text(ev.path@)),
            ("query"@, opt_text_view(opt_view(ev.query))),
            ("status"@, JsonView::Int(ev.status as int)),
            ("ms"@, JsonView::Int(ev.ms as int)),
            ("mutation"@, JsonView::Bool(ev.mutation)),
            ("run_id"@, opt_text_view(opt_view(ev.run_id))),
            ("user_id"@, opt_text_view(opt_view(ev.user_id))),
            ("thread"@, opt_text_view(opt_view(ev.thread))),
        ],
    )
}

/// A traced request as it is stored.
pub fn trace_json(ev: &ApiTraceEvent) -> (r: Json)
    ensures
        r@ == trace_view(*ev),
{
    let mut e: Vec<(String, Json)> = Vec::new();
    put(&mut e, "ts", Json::text(ev.ts.as_str()));
    put(&mut e, "method", Json::text(ev.method.as_str()));
    put(&mut e, "path", Json::text(ev.path.as_str()));
    put(&mut e, "query", opt_text_json(&ev.query));
    put(&mut e, "status", Json::Nat(ev.status as u64));
    put(&mut e, "ms", Json::Nat(ev.ms));
    put(&mut e, "mutation", Json::Bool(ev.mutation));
    put(&mut e, "run_id", opt_text_json(&ev.run_id));
    put(&mut e, "user_id", opt_text_json(&ev.user_id));
    put(&mut e, "thread", opt_text_json(&ev.thread));
    assert(entries_view(e@) =~= trace_view(*ev)->Object_0);
    Json::Object(e)
}

/// A traced request that was stored can be read again: it has a time, a
/// method and a path as texts, a status and a duration as numbers that fit,
/// and says whether it changed something; its query, its run, its user and
/// its thread are texts where it has them.
pub open spec fn readable(v: JsonView) -> bool {
    &&& v.text_at("ts"@) is Some
    &&& v.text_at("method"@) is Some
    &&& v.text_at("path"@) is Some
    &&& v.u64_at("status"@) is Some && v.u64_at("status"@)->0 <= 0xffff
    &&& v.u64_at("ms"@) is Some
    &&& v.bool_at("mutation"@) is Some
    &&& optional_text(v, "query"@)
    &&& optional_text(v, "run_id"@)
    &&& optional_text(v, "user_id"@)
    &&& optional_text(v, "thread"@)
}

/// The field is missing, null or a text.
pub open spec fn optional_text(v: JsonView, key: Seq<char>) -> bool {
    match v.get(key) {
        Some(x) => x is Null || x is Text,
        None => true,
    }
}

/// Whether the field is missing, null or a text.
fn is_optional_text(v: &Json, key: &str) -> (r: bool)
    ensures
        r == optional_text(v@, key@),
{
    match v.get(key) {
        Some(x) => match x {
            Json::Null => true,
            Json::Text(_) => true,
            _ => false,
        },
        None => true,
    }
}

/// The traced request that a stored value stands for, where it can be
/// read.
pub fn read_trace(v: &Json) -> (r: Option<ApiTraceEvent>)
    ensures
        r is Some <==> readable(v@),
        r matches Some(ev) ==> {
            &&& Some(ev.ts@) == v@.text_at("ts"@)
            &&& Some(ev.method@) == v@.text_at("method"@)
            &&& Some(ev.path@) == v@.text_at("path"@)
            &&& opt_view(ev.query) == v@.text_at("query"@)
            &&& Some(ev.status as u64) == v@.u64_at("status"@)
            &&& Some(ev.ms) == v@.u64_at("ms"@)
            &&& Some(ev.mutation) == v@.bool_at("mutation"@)
            &&& opt_view(ev.run_id) == v@.text_at("run_id"@)
            &&& opt_view(ev.user_id) == v@.text_at("user_id"@)
            &&& opt_view(ev.thread) == v@.text_at("thread"@)
        },
{
    let ts = v.text_at("ts");
    let method = v.text_at("method");
    let path = v.text_at("path");
    let status = v.u64_at("status");
    let ms = v.u64_at("ms");
    let mutation = v.bool_at("mutation");
    if ts.is_none() || method.is_none() || path.is_none() || status.is_none() || ms.is_none()
        || mutation.is_none() {
        return None;
    }
    if status.unwrap() > 0xffff {
        return None;
    }
    if !is_optional_text(v, "query") || !is_optional_text(v, "run_id") || !is_optional_text(
        v,
        "user_id",
    ) || !is_optional_text(v, "thread") {
        return None;
    }
    Some(
        ApiTraceEvent {
            ts: ts.unwrap(),
            method: method.unwrap(),
            path: path.unwrap(),
            query: v.text_at("query"),
            status: status.unwrap() as u16,
            ms: ms.unwrap(),
            mutation: mutation.unwrap(),
            run_id: v.text_at("run_id"),
            user_id: v.text_at("user_id"),
            thread: v.text_at("thread"),
        },
    )
}

} // verus!
