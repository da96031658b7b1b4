//! The picture and the table of a thread graph.

use vstd::prelude::*;
use crate::api::{receipt_url, receipt_url_of};
use crate::level::{decimal, decimal_of};
use crate::text::{
    blank, chars_of, contains_str, contains_text, escaped, html_escaped, is_blank, push_all,
    push_str, text_of, truncate, truncated,
};
use super::graphs::{
    bits_pill, bits_pill_of, drawn_fill, node_fill, role_style, shown_bit, shown_bit_of, style_of,
    text_or_empty, GraphNode, ThreadGraphOpts,
};

verus! {

/// The most nodes that a picture has room for: with more, the place of the
/// last row would not fit in 64 bits.
pub const MAX_DRAWN: u64 = 249_280_325_320_399_345;

/// The height of the row of one node in a picture, with the gap under it.
pub const ROW: u64 = 74;

/// Where the row of the node `i` begins in a picture.
pub open spec fn row_top(i: int) -> nat {
    (24 + i * 74) as nat
}

/// The cell of a table row that shows the bits of a node, and whether its
/// run succeeded; empty where the graph shows no bits.
pub open spec fn bits_cell(node: GraphNode, opts: ThreadGraphOpts) -> Seq<char> {
    if opts.include_bits {
        "<span class=\"pill\">T "@ + shown_bit(node.bits.t) + "</span><span class=\"pill\">U "@
            + shown_bit(node.bits.u) + "</span><span class=\"pill\">E "@ + shown_bit(node.bits.e)
            + "</span>"@ + (match node.ok {
            Some(true) => "<span class=\"pill\">ok</span>"@,
            Some(false) => "<span class=\"pill\">fail</span>"@,
            None => Seq::<char>::empty(),
        })
    } else {
        Seq::<char>::empty()
    }
}

/// The link of a table row to the page of a run, where it has one.
pub open spec fn view_link(node: GraphNode) -> Seq<char> {
    if text_or_empty(node.view_url).len() == 0 {
        Seq::<char>::empty()
    } else {
        " · <a href=\""@ + html_escaped(text_or_empty(node.view_url))
            + "\" target=\"_blank\" rel=\"noreferrer\">view</a>"@
    }
}

/// The row of the node `i` in the table of a thread graph.
pub open spec fn table_row(node: GraphNode, i: int, opts: ThreadGraphOpts) -> Seq<char> {
    "<tr><td>"@ + decimal((i + 1) as nat) + "</td><td>"@ + html_escaped(node.event.role@)
        + "</td><td>"@ + html_escaped(text_or_empty(node.goal_id)) + "</td><td>"@ + bits_cell(
        node,
        opts,
    ) + "</td><td>"@ + html_escaped(
        truncated(node.event.content@, opts.content_chars as nat),
    ) + "</td><td><a href=\""@ + html_escaped(receipt_url_of(node.event.run_id@))
        + "\" target=\"_blank\" rel=\"noreferrer\">receipt</a>"@ + view_link(node)
        + "</td></tr>\n"@
}

/// The rows of the first `n` nodes.
pub open spec fn table_rows(nodes: Seq<GraphNode>, n: int, opts: ThreadGraphOpts) -> Seq<char>
    decreases n,
{
    if n <= 0 {
        Seq::<char>::empty()
    } else {
        table_rows(nodes, n - 1, opts) + table_row(nodes[n - 1], n - 1, opts)
    }
}

/// The cell of a table row that shows the bits of a node.
fn bits_cell_of(node: &GraphNode, opts: &ThreadGraphOpts) -> (out: Vec<char>)
    ensures
        out@ == bits_cell(*node, *opts),
{
    if !opts.include_bits {
        return Vec::new();
    }
    let mut out = chars_of("<span class=\"pill\">T ");
    push_all(&mut out, &shown_bit_of(node.bits.t));
    push_str(&mut out, "</span><span class=\"pill\">U ");
    push_all(&mut out, &shown_bit_of(node.bits.u));
    push_str(&mut out, "</span><span class=\"pill\">E ");
    push_all(&mut out, &shown_bit_of(node.bits.e));
    push_str(&mut out, "</span>");
    let verdict: Vec<char> = match node.ok {
        Some(true) => chars_of("<span class=\"pill\">ok</span>"),
        Some(false) => chars_of("<span class=\"pill\">fail</span>"),
        None => Vec::new(),
    };
    push_all(&mut out, &verdict);
    out
}

/// The text of an optional text, empty where there is none.
pub fn or_empty(o: &Option<String>) -> (out: Vec<char>)
    ensures
        out@ == text_or_empty(*o),
{
    match o {
        Some(s) => chars_of(s.as_str()),
        None => Vec::new(),
    }
}

/// The link of a table row to the page of a run.
pub fn view_link_of(node: &GraphNode) -> (out: Vec<char>)
    ensures
        out@ == view_link(*node),
{
    let view = or_empty(&node.view_url);
    if view.len() == 0 {
        return Vec::new();
    }
    let mut out = chars_of(" · <a href=\"");
    push_all(&mut out, &escaped(&view));
    push_str(&mut out, "\" target=\"_blank\" rel=\"noreferrer\">view</a>");
    out
}

/// The table of a thread graph: one row for each node, with its number, its
/// role, its goal, its bits, its text and its links.
pub fn build_table_html(nodes: &Vec<GraphNode>, opts: &ThreadGraphOpts) -> (r: String)
    ensures
        r@ == table_rows(nodes@, nodes@.len() as int, *opts),
{
    let mut out: Vec<char> = Vec::new();
    let mut i: usize = 0;
    while i < nodes.len()
        invariant
            i <= nodes.len(),
            out@ == table_rows(nodes@, i as int, *opts),
        decreases nodes.len() - i,
    {
        let node = &nodes[i];
        let url = receipt_url(node.event.run_id.as_str());
        let mut row = chars_of("<tr><td>");
        push_all(&mut row, &decimal_of((i + 1) as u64));
        push_str(&mut row, "</td><td>");
        push_all(&mut row, &escaped(&chars_of(node.event.role.as_str())));
        push_str(&mut row, "</td><td>");
        push_all(&mut row, &escaped(&or_empty(&node.goal_id)));
        push_str(&mut row, "</td><td>");
        push_all(&mut row, &bits_cell_of(node, opts));
        push_str(&mut row, "</td><td>");
        push_all(
            &mut row,
            &escaped(&truncate(&chars_of(node.event.content.as_str()), opts.content_chars)),
        );
        push_str(&mut row, "</td><td><a href=\"");
        push_all(&mut row, &escaped(&chars_of(url.as_str())));
        push_str(&mut row, "\" target=\"_blank\" rel=\"noreferrer\">receipt</a>");
        push_all(&mut row, &view_link_of(node));
        push_str(&mut row, "</td></tr>\n");
        push_all(&mut out, &row);
        i += 1;
    }
    text_of(&out)
}

/// The height of the picture of `n` nodes.
pub open spec fn picture_height(n: nat) -> nat {
    48 + 74 * if n == 0 {
        1
    } else {
        n
    }
}

/// The opening of the picture of `n` nodes: its size and its style.
pub open spec fn picture_head(n: nat) -> Seq<char> {
    "<svg width=\"980\" height=\""@ + decimal(picture_height(n)) + "\" viewBox=\"0 0 980 "@
        + decimal(picture_height(n)) + "\" xmlns=\"http://www.w3.org/2000/svg\">"@
        + "<style>text{font-family:system-ui,-apple-system,Segoe UI,Roboto,Arial;font-size:14px;fill:#111}</style>"@
}

/// The line and the arrow head that lead from the node `i` to the next.
pub open spec fn connector(i: int) -> Seq<char> {
    let y = row_top(i);
    let y2 = row_top(i + 1);
    "<line x1=\"58\" y1=\""@ + decimal(y + 56) + "\" x2=\"58\" y2=\""@ + decimal(y2)
        + "\" stroke=\"#adb5bd\" stroke-width=\"2\"/>"@ + "<polygon points=\"54,"@ + decimal(
        (y2 - 6) as nat,
    ) + " 62,"@ + decimal((y2 - 6) as nat) + " 58,"@ + decimal(y2 + 2)
        + "\" fill=\"#adb5bd\"/>"@
}

/// The connectors between the first `n + 1` nodes.
pub open spec fn connectors(n: int) -> Seq<char>
    decreases n,
{
    if n <= 0 {
        Seq::<char>::empty()
    } else {
        connectors(n - 1) + connector(n - 1)
    }
}

/// The title of a node: its role, and its goal where it has one.
pub open spec fn node_title(node: GraphNode) -> Seq<char> {
    if text_or_empty(node.goal_id).len() > 0 {
        node.event.role@ + " · "@ + text_or_empty(node.goal_id)
    } else {
        node.event.role@
    }
}

/// The second line of a node: its text, where the picture shows text and
/// the node has some; else the page of its run, where it has one; else its
/// run.
pub open spec fn node_second_line(node: GraphNode, opts: ThreadGraphOpts) -> Seq<char> {
    let nl = if contains_text(opts.label_mode@, "nl"@) {
        truncated(node.event.content@, opts.content_chars as nat)
    } else {
        Seq::<char>::empty()
    };
    if !blank(nl) {
        nl
    } else if text_or_empty(node.view_url).len() > 0 {
        "view: "@ + text_or_empty(node.view_url)
    } else {
        "run_id: "@ + node.event.run_id@
    }
}

/// The box of the node `i` in a picture: a link to its receipt around its
/// frame, its two lines and, where the picture shows bits, its bits; and
/// beside it the time of the event, where it has one.
pub open spec fn node_box(node: GraphNode, i: int, opts: ThreadGraphOpts) -> Seq<char> {
    let y = row_top(i);
    "<a href=\""@ + html_escaped(receipt_url_of(node.event.run_id@))
        + "\" target=\"_blank\" rel=\"noreferrer\">"@ + "<rect x=\"40\" y=\""@ + decimal(y)
        + "\" rx=\"10\" ry=\"10\" width=\"900\" height=\"56\" fill=\""@ + drawn_fill(node, opts)
        + "\" stroke=\""@ + style_of(node.event.role@).1 + "\" stroke-width=\"2\"/>"@
        + "<text x=\"56\" y=\""@ + decimal(y + 22) + "\">"@ + html_escaped(
        decimal((i + 1) as nat) + ": "@ + node_title(node),
    ) + "</text>"@ + "<text x=\"56\" y=\""@ + decimal(y + 42) + "\" fill=\"#495057\">"@
        + html_escaped(node_second_line(node, opts)) + "</text>"@ + (if opts.include_bits {
        "<text x=\"930\" y=\""@ + decimal(y + 42) + "\" fill=\"#868e96\" font-size=\"12\">"@
            + html_escaped(bits_pill(node.bits)) + "</text>"@
    } else {
        Seq::<char>::empty()
    }) + "</a>"@ + (if node.event.ts@.len() > 0 {
        "<text x=\"930\" y=\""@ + decimal(y + 22) + "\" fill=\"#868e96\" font-size=\"12\">"@
            + html_escaped(node.event.ts@) + "</text>"@
    } else {
        Seq::<char>::empty()
    })
}

/// The boxes of the first `n` nodes.
pub open spec fn node_boxes(nodes: Seq<GraphNode>, n: int, opts: ThreadGraphOpts) -> Seq<char>
    decreases n,
{
    if n <= 0 {
        Seq::<char>::empty()
    } else {
        node_boxes(nodes, n - 1, opts) + node_box(nodes[n - 1], n - 1, opts)
    }
}

/// The picture of a thread graph: the connectors, then the boxes.
pub open spec fn picture(nodes: Seq<GraphNode>, opts: ThreadGraphOpts) -> Seq<char> {
    picture_head(nodes.len()) + connectors(nodes.len() - 1) + node_boxes(
        nodes,
        nodes.len() as int,
        opts,
    ) + "</svg>"@
}

/// The connector from the node `i` to the next.
fn connector_of(i: usize) -> (out: Vec<char>)
    requires
        i < MAX_DRAWN,
    ensures
        out@ == connector(i as int),
{
    let y: u64 = 24 + (i as u64) * ROW;
    let y2: u64 = 24 + (i as u64 + 1) * ROW;
    let mut out = chars_of("<line x1=\"58\" y1=\"");
    push_all(&mut out, &decimal_of(y + 56));
    push_str(&mut out, "\" x2=\"58\" y2=\"");
    push_all(&mut out, &decimal_of(y2));
    push_str(&mut out, "\" stroke=\"#adb5bd\" stroke-width=\"2\"/>");
    push_str(&mut out, "<polygon points=\"54,");
    push_all(&mut out, &decimal_of(y2 - 6));
    push_str(&mut out, " 62,");
    push_all(&mut out, &decimal_of(y2 - 6));
    push_str(&mut out, " 58,");
    push_all(&mut out, &decimal_of(y2 + 2));
    push_str(&mut out, "\" fill=\"#adb5bd\"/>");
    out
}

/// The title of a node.
fn node_title_of(node: &GraphNode) -> (out: Vec<char>)
    ensures
        out@ == node_title(*node),
{
    let goal = or_empty(&node.goal_id);
    let mut out = chars_of(node.event.role.as_str());
    if goal.len() > 0 {
        push_str(&mut out, " · ");
        push_all(&mut out, &goal);
    }
    out
}

/// The second line of a node.
fn node_second_line_of(node: &GraphNode, opts: &ThreadGraphOpts) -> (out: Vec<char>)
    ensures
        out@ == node_second_line(*node, *opts),
{
    let mode = chars_of(opts.label_mode.as_str());
    let nl: Vec<char> = if contains_str(&mode, "nl") {
        truncate(&chars_of(node.event.content.as_str()), opts.content_chars)
    } else {
        Vec::new()
    };
    if !is_blank(&nl) {
        return nl;
    }
    let view = or_empty(&node.view_url);
    if view.len() > 0 {
        let mut out = chars_of("view: ");
        push_all(&mut out, &view);
        out
    } else {
        let mut out = chars_of("run_id: ");
        push_str(&mut out, node.event.run_id.as_str());
        out
    }
}

/// The box of the node `i` in a picture.
fn node_box_of(node: &GraphNode, i: usize, opts: &ThreadGraphOpts) -> (out: Vec<char>)
    requires
        i < MAX_DRAWN,
    ensures
        out@ == node_box(*node, i as int, *opts),
{
    let y: u64 = 24 + (i as u64) * ROW;
    let style = role_style(node.event.role.as_str());
    let fill: &'static str = if opts.include_bits {
        node_fill(style.0, &node.bits, node.ok)
    } else {
        style.0
    };
    let url = receipt_url(node.event.run_id.as_str());
    let mut first = decimal_of(i as u64 + 1);
    push_str(&mut first, ": ");
    push_all(&mut first, &node_title_of(node));
    let mut out = chars_of("<a href=\"");
    push_all(&mut out, &escaped(&chars_of(url.as_str())));
    push_str(&mut out, "\" target=\"_blank\" rel=\"noreferrer\">");
    push_str(&mut out, "<rect x=\"40\" y=\"");
    push_all(&mut out, &decimal_of(y));
    push_str(&mut out, "\" rx=\"10\" ry=\"10\" width=\"900\" height=\"56\" fill=\"");
    push_str(&mut out, fill);
    push_str(&mut out, "\" stroke=\"");
    push_str(&mut out, style.1);
    push_str(&mut out, "\" stroke-width=\"2\"/>");
    push_str(&mut out, "<text x=\"56\" y=\"");
    push_all(&mut out, &decimal_of(y + 22));
    push_str(&mut out, "\">");
    push_all(&mut out, &escaped(&first));
    push_str(&mut out, "</text>");
    push_str(&mut out, "<text x=\"56\" y=\"");
    push_all(&mut out, &decimal_of(y + 42));
    push_str(&mut out, "\" fill=\"#495057\">");
    push_all(&mut out, &escaped(&node_second_line_of(node, opts)));
    push_str(&mut out, "</text>");
    let mut pill: Vec<char> = Vec::new();
    if opts.include_bits {
        pill = chars_of("<text x=\"930\" y=\"");
        push_all(&mut pill, &decimal_of(y + 42));
        push_str(&mut pill, "\" fill=\"#868e96\" font-size=\"12\">");
        push_all(&mut pill, &escaped(&bits_pill_of(&node.bits)));
        push_str(&mut pill, "</text>");
    }
    push_all(&mut out, &pill);
    push_str(&mut out, "</a>");
    let mut stamp: Vec<char> = Vec::new();
    let ts = chars_of(node.event.ts.as_str());
    if ts.len() > 0 {
        stamp = chars_of("<text x=\"930\" y=\"");
        push_all(&mut stamp, &decimal_of(y + 22));
        push_str(&mut stamp, "\" fill=\"#868e96\" font-size=\"12\">");
        push_all(&mut stamp, &escaped(&ts));
        push_str(&mut stamp, "</text>");
    }
    push_all(&mut out, &stamp);
    out
}

/// The picture of a thread graph.
pub fn build_svg(nodes: &Vec<GraphNode>, opts: &ThreadGraphOpts) -> (r: String)
    requires
        nodes@.len() <= MAX_DRAWN,
    ensures
        r@ == picture(nodes@, *opts),
{
    let n = nodes.len();
    let rows: u64 = if n == 0 {
        1
    } else {
        n as u64
    };
    let h: u64 = 48 + ROW * rows;
    let mut out = chars_of("<svg width=\"980\" height=\"");
    push_all(&mut out, &decimal_of(h));
    push_str(&mut out, "\" viewBox=\"0 0 980 ");
    push_all(&mut out, &decimal_of(h));
    push_str(&mut out, "\" xmlns=\"http://www.w3.org/2000/svg\">");
    push_str(
        &mut out,
        "<style>text{font-family:system-ui,-apple-system,Segoe UI,Roboto,Arial;font-size:14px;fill:#111}</style>",
    );
    let mut lines: Vec<char> = Vec::new();
    let mut i: usize = 0;
    while i + 1 < n
        invariant
            n == nodes.len(),
            n <= MAX_DRAWN,
            n == 0 ==> i == 0,
            n > 0 ==> i <= n - 1,
            lines@ == connectors(i as int),
        decreases n - i,
    {
        push_all(&mut lines, &connector_of(i));
        i += 1;
    }
    let mut boxes: Vec<char> = Vec::new();
    let mut k: usize = 0;
    while k < n
        invariant
            n == nodes.len(),
            n <= MAX_DRAWN,
            k <= n,
            boxes@ == node_boxes(nodes@, k as int, *opts),
        decreases n - k,
    {
        push_all(&mut boxes, &node_box_of(&nodes[k], k, opts));
        k += 1;
    }
    push_all(&mut out, &lines);
    push_all(&mut out, &boxes);
    push_str(&mut out, "</svg>");
    text_of(&out)
}

} // verus!
