//! Thread, receipt and API graphs: what a graph run is asked for, what it
//! reports, and the text rules its pages are written by.

use vstd::prelude::*;
use crate::api::{is_safe_segment, safe_segment};
use crate::api::threads::{field_text, ThreadEvent};
use crate::json::{Json, JsonView};
use crate::level::{decimal, fixed, push_decimal, push_fixed};
use crate::text::{
    blank, chars_of, concat, contains, contains_str, contains_text, is_blank, is_str, join_path,
    joined, lowercase, on_one_line, one_line_of, opt_view, pieces, push_all, push_str, segments,
    segments_of, str_eq, text_of, trim, trimmed, truncate, truncated,
};

verus! {

/// What a thread graph run reports: where its pages are, and the size of the
/// graph.
#[derive(Debug)]
pub struct ThreadGraphResult {
    pub out_dir: String,
    pub nodes: usize,
    pub edges: usize,
    pub thread: String,
}

/// How a thread graph is drawn. `label_mode` is `"nl"`, `"goal"` or
/// `"nl+goal"`.
#[derive(Debug)]
pub struct ThreadGraphOpts {
    pub max_events: usize,
    pub content_chars: usize,
    pub label_mode: String,
    pub filter_text: Option<String>,
    pub filter_goal: Option<String>,
    pub recursive: bool,
    pub depth: usize,
    pub max_nodes: usize,
    pub include_bits: bool,
}

/// What a receipts graph run reports.
#[derive(Debug)]
pub struct ReceiptsGraphResult {
    pub out_dir: String,
    pub nodes: usize,
    pub edges: usize,
}

/// What an API graph run reports.
#[derive(Debug)]
pub struct ApiGraphResult {
    pub out_dir: String,
    pub nodes: usize,
    pub edges: usize,
}

/// Which traced requests an API graph shows.
#[derive(Debug)]
pub struct ApiGraphOpts {
    pub limit: usize,
    pub only_mutations: bool,
    pub run_id: Option<String>,
    pub thread: Option<String>,
    pub user_id: Option<String>,
    pub collapse: bool,
}

/// What is written of a graph into its directory: the drawing, the graph as
/// a structured value and the page, with the numbers of its nodes and edges.
#[derive(Debug)]
pub struct GraphFiles {
    pub out_dir: String,
    pub dot: String,
    pub events: Json,
    pub index_html: String,
    pub nodes: usize,
    pub edges: usize,
}

/// A thread graph that is ready to be drawn: the identifiers it was asked
/// with, the thread (none for the largest thread of the user), the options
/// within their bounds, and the directories it reads from and writes to.
#[derive(Debug)]
pub struct ThreadGraphJob {
    pub run_id: String,
    pub user_id: String,
    pub thread: Option<String>,
    pub opts: ThreadGraphOpts,
    pub threads_dir: String,
    pub out_dir: String,
}

/// A count within bounds: at least `low` and at most `high`.
pub open spec fn bounded_count(x: usize, low: usize, high: usize) -> usize {
    if x < low {
        low
    } else if x > high {
        high
    } else {
        x
    }
}

/// A count within bounds.
pub fn bound_count(x: usize, low: usize, high: usize) -> (r: usize)
    ensures
        r == bounded_count(x, low, high),
{
    if x < low {
        low
    } else if x > high {
        high
    } else {
        x
    }
}

/// The thread that a graph is asked for: none, which stands for the largest
/// thread of the user, where the text is empty or `auto`.
pub open spec fn asked_thread(thread: Seq<char>) -> Option<Seq<char>> {
    let t = trimmed(thread);
    if t.len() == 0 || t == "auto"@ {
        None
    } else {
        Some(t)
    }
}

/// Why a thread graph cannot be drawn, where it cannot: one of its
/// identifiers is no safe segment.
pub open spec fn thread_graph_error(
    run_id: Seq<char>,
    user_id: Seq<char>,
    thread: Seq<char>,
) -> Option<Seq<char>> {
    if !safe_segment(run_id) {
        Some("invalid __run_id"@)
    } else if !safe_segment(user_id) {
        Some("invalid user_id"@)
    } else if asked_thread(thread) is Some && !safe_segment(asked_thread(thread)->0) {
        Some("invalid thread"@)
    } else {
        None
    }
}

/// `job` is the thread graph that was asked for with these identifiers and
/// options under the root directory `root`.
pub open spec fn thread_graph_job(
    job: ThreadGraphJob,
    root: Seq<char>,
    run_id: Seq<char>,
    user_id: Seq<char>,
    thread: Seq<char>,
    opts: ThreadGraphOpts,
) -> bool {
    &&& job.run_id@ == run_id
    &&& job.user_id@ == user_id
    &&& opt_view(job.thread) == asked_thread(thread)
    &&& job.threads_dir@ == joined(joined(joined(root, "users"@), user_id), "threads"@)
    &&& job.out_dir@ == joined(joined(root, "runs/graphs"@), run_id)
    &&& job.opts.max_events == bounded_count(opts.max_events, 1, 800)
    &&& job.opts.content_chars == bounded_count(opts.content_chars, 20, 220)
    &&& job.opts.depth == bounded_count(opts.depth, 1, 3)
    &&& job.opts.max_nodes == bounded_count(opts.max_nodes, 20, 1200)
    &&& job.opts.label_mode@ == if blank(opts.label_mode@) {
        "nl+goal"@
    } else {
        opts.label_mode@
    }
    &&& job.opts.filter_text == opts.filter_text
    &&& job.opts.filter_goal == opts.filter_goal
    &&& job.opts.recursive == opts.recursive
    &&& job.opts.include_bits == opts.include_bits
}

/// Prepares a thread graph: checks the identifiers, puts the options within
/// their bounds, and names the directories. Reading the thread and writing
/// the pages is the part of the caller.
pub fn thread_graph_with_opts(
    root: &str,
    external_run_id: &str,
    user_id: &str,
    thread: &str,
    opts: ThreadGraphOpts,
) -> (r: Result<ThreadGraphJob, String>)
    ensures
        match r {
            Ok(job) => thread_graph_error(external_run_id@, user_id@, thread@) is None
                && thread_graph_job(job, root@, external_run_id@, user_id@, thread@, opts),
            Err(msg) => thread_graph_error(external_run_id@, user_id@, thread@) == Some(msg@),
        },
{
    if !is_safe_segment(external_run_id) {
        return Err("invalid __run_id".to_owned());
    }
    if !is_safe_segment(user_id) {
        return Err("invalid user_id".to_owned());
    }
    let t = trim(&chars_of(thread));
    let asked: Option<String> = if t.len() == 0 || is_str(&t, "auto") {
        None
    } else {
        let name = text_of(&t);
        if !is_safe_segment(name.as_str()) {
            return Err("invalid thread".to_owned());
        }
        Some(name)
    };
    let users = join_path(root, "users");
    let user_dir = join_path(users.as_str(), user_id);
    let threads_dir = join_path(user_dir.as_str(), "threads");
    let graphs = join_path(root, "runs/graphs");
    let out_dir = join_path(graphs.as_str(), external_run_id);
    let label = chars_of(opts.label_mode.as_str());
    let label_mode = if is_blank(&label) {
        "nl+goal".to_owned()
    } else {
        opts.label_mode
    };
    Ok(
        ThreadGraphJob {
            run_id: external_run_id.to_owned(),
            user_id: user_id.to_owned(),
            thread: asked,
            opts: ThreadGraphOpts {
                max_events: bound_count(opts.max_events, 1, 800),
                content_chars: bound_count(opts.content_chars, 20, 220),
                label_mode,
                filter_text: opts.filter_text,
                filter_goal: opts.filter_goal,
                recursive: opts.recursive,
                depth: bound_count(opts.depth, 1, 3),
                max_nodes: bound_count(opts.max_nodes, 20, 1200),
                include_bits: opts.include_bits,
            },
            threads_dir,
            out_dir,
        },
    )
}

/// The options of a thread graph that names only how many events it shows:
/// short natural-language labels with the goal, no filter, no recursion, and
/// the bits of each run.
pub open spec fn plain_opts(opts: ThreadGraphOpts, max_events: usize) -> bool {
    &&& opts.max_events == max_events
    &&& opts.content_chars == 120
    &&& opts.label_mode@ == "nl+goal"@
    &&& opts.filter_text is None
    &&& opts.filter_goal is None
    &&& !opts.recursive
    &&& opts.depth == 1
    &&& opts.max_nodes == 200
    &&& opts.include_bits
}

/// Prepares a thread graph with the plain options.
pub fn thread_graph(
    root: &str,
    external_run_id: &str,
    user_id: &str,
    thread: &str,
    max_events: usize,
) -> (r: Result<ThreadGraphJob, String>)
    ensures
        match r {
            Ok(job) => {
                &&& thread_graph_error(external_run_id@, user_id@, thread@) is None
                &&& job.run_id@ == external_run_id@
                &&& job.user_id@ == user_id@
                &&& opt_view(job.thread) == asked_thread(thread@)
                &&& job.threads_dir@ == joined(joined(joined(root@, "users"@), user_id@), "threads"@)
                &&& job.out_dir@ == joined(joined(root@, "runs/graphs"@), external_run_id@)
                &&& plain_opts(job.opts, bounded_count(max_events, 1, 800))
            },
            Err(msg) => thread_graph_error(external_run_id@, user_id@, thread@) == Some(msg@),
        },
{
    thread_graph_with_opts(
        root,
        external_run_id,
        user_id,
        thread,
        ThreadGraphOpts {
            max_events,
            content_chars: 120,
            label_mode: "nl+goal".to_owned(),
            filter_text: None,
            filter_goal: None,
            recursive: false,
            depth: 1,
            max_nodes: 200,
            include_bits: true,
        },
    )
}

/// The bits of a receipt, each where the receipt has it.
#[derive(Clone, Copy, Debug, PartialEq, Eq, Structural)]
pub struct BitsLite {
    pub a: Option<i64>,
    pub u: Option<i64>,
    pub p: Option<i64>,
    pub e: Option<i64>,
    pub d: Option<i64>,
    pub i: Option<i64>,
    pub r: Option<i64>,
    pub t: Option<i64>,
    pub m: Option<i64>,
}

/// The goal of a receipt: the field `goal_id` of its manifest.
pub open spec fn goal_of(resp: JsonView) -> Option<Seq<char>> {
    match resp.get("manifest"@) {
        Some(m) => m.text_at("goal_id"@),
        None => None,
    }
}

/// The evidence of a receipt: the field `evidence` of its manifest.
pub open spec fn evidence_of(resp: JsonView) -> Option<JsonView> {
    match resp.get("manifest"@) {
        Some(m) => m.get("evidence"@),
        None => None,
    }
}

/// The page of a receipt: the static page that its evidence names, else the
/// index page.
pub open spec fn view_url_of(resp: JsonView) -> Option<Seq<char>> {
    match evidence_of(resp) {
        Some(ev) => match ev.text_at("static_html_url"@) {
            Some(u) => Some(u),
            None => ev.text_at("index_html_url"@),
        },
        None => None,
    }
}

/// Whether the run of a receipt succeeded, where its evidence says so.
pub open spec fn success_of(resp: JsonView) -> Option<bool> {
    match evidence_of(resp) {
        Some(ev) => ev.bool_at("actual_success"@),
        None => None,
    }
}

/// The goal of a receipt.
pub fn get_goal_id(resp: &Json) -> (r: Option<String>)
    ensures
        opt_view(r) == goal_of(resp@),
{
    match resp.get("manifest") {
        Some(m) => m.text_at("goal_id"),
        None => None,
    }
}

/// The page of a receipt.
pub fn get_view_url(resp: &Json) -> (r: Option<String>)
    ensures
        opt_view(r) == view_url_of(resp@),
{
    let ev = match resp.get("manifest") {
        Some(m) => match m.get("evidence") {
            Some(ev) => ev,
            None => {
                return None;
            },
        },
        None => {
            return None;
        },
    };
    match ev.text_at("static_html_url") {
        Some(u) => Some(u),
        None => ev.text_at("index_html_url"),
    }
}

/// Whether the run of a receipt succeeded, where its evidence says so.
pub fn get_actual_success(resp: &Json) -> (r: Option<bool>)
    ensures
        r == success_of(resp@),
{
    match resp.get("manifest") {
        Some(m) => match m.get("evidence") {
            Some(ev) => ev.bool_at("actual_success"),
            None => None,
        },
        None => None,
    }
}

/// The bit under the small letter `low`, else under the capital `high`.
pub open spec fn bit_of(bits: JsonView, low: Seq<char>, high: Seq<char>) -> Option<i64> {
    match bits.level_at(low) {
        Some(x) => Some(x),
        None => bits.level_at(high),
    }
}

/// Where a receipt keeps its bits: at its top, else in its manifest; it has
/// to be an object.
pub open spec fn bits_object(resp: JsonView) -> Option<JsonView> {
    let found = match resp.get("bits"@) {
        Some(b) => Some(b),
        None => match resp.get("manifest"@) {
            Some(m) => m.get("bits"@),
            None => None,
        },
    };
    match found {
        Some(JsonView::Object(entries)) => Some(JsonView::Object(entries)),
        _ => None,
    }
}

/// The bits of a receipt.
pub open spec fn bits_of(resp: JsonView) -> BitsLite {
    match bits_object(resp) {
        Some(b) => BitsLite {
            a: bit_of(b, "a"@, "A"@),
            u: bit_of(b, "u"@, "U"@),
            p: bit_of(b, "p"@, "P"@),
            e: bit_of(b, "e"@, "E"@),
            d: bit_of(b, "d"@, "D"@),
            i: bit_of(b, "i"@, "I"@),
            r: bit_of(b, "r"@, "R"@),
            t: bit_of(b, "t"@, "T"@),
            m: bit_of(b, "m"@, "M"@),
        },
        None => BitsLite {
            a: None,
            u: None,
            p: None,
            e: None,
            d: None,
            i: None,
            r: None,
            t: None,
            m: None,
        },
    }
}

/// The bit under the small letter `low`, else under the capital `high`.
fn get_bit(bits: &Json, low: &str, high: &str) -> (r: Option<i64>)
    ensures
        r == bit_of(bits@, low@, high@),
{
    match bits.level_at(low) {
        Some(x) => Some(x),
        None => bits.level_at(high),
    }
}

/// The bits of a receipt.
pub fn get_bits(resp: &Json) -> (r: BitsLite)
    ensures
        r == bits_of(resp@),
{
    let none = BitsLite {
        a: None,
        u: None,
        p: None,
        e: None,
        d: None,
        i: None,
        r: None,
        t: None,
        m: None,
    };
    let found = match resp.get("bits") {
        Some(b) => b,
        None => match resp.get("manifest") {
            Some(m) => match m.get("bits") {
                Some(b) => b,
                None => {
                    return none;
                },
            },
            None => {
                return none;
            },
        },
    };
    match found {
        Json::Object(_) => BitsLite {
            a: get_bit(found, "a", "A"),
            u: get_bit(found, "u", "U"),
            p: get_bit(found, "p", "P"),
            e: get_bit(found, "e", "E"),
            d: get_bit(found, "d", "D"),
            i: get_bit(found, "i", "I"),
            r: get_bit(found, "r", "R"),
            t: get_bit(found, "t", "T"),
            m: get_bit(found, "m", "M"),
        },
        _ => none,
    }
}

/// The colors in which a role is drawn: the fill and the stroke.
pub open spec fn style_of(role: Seq<char>) -> (Seq<char>, Seq<char>) {
    if role == "user"@ {
        ("#e7f5ff"@, "#1c7ed6"@)
    } else if role == "assistant"@ {
        ("#f3f0ff"@, "#7048e8"@)
    } else if role == "tool"@ {
        ("#ebfbee"@, "#2b8a3e"@)
    } else if role == "system"@ {
        ("#fff4e6"@, "#e8590c"@)
    } else if role == "ref"@ {
        ("#f8f9fa"@, "#495057"@)
    } else {
        ("#f1f3f5"@, "#495057"@)
    }
}

/// The colors in which a role is drawn: the fill and the stroke.
pub fn role_style(role: &str) -> (r: (&'static str, &'static str))
    ensures
        (r.0@, r.1@) == style_of(role@),
{
    if str_eq(role, "user") {
        ("#e7f5ff", "#1c7ed6")
    } else if str_eq(role, "assistant") {
        ("#f3f0ff", "#7048e8")
    } else if str_eq(role, "tool") {
        ("#ebfbee", "#2b8a3e")
    } else if str_eq(role, "system") {
        ("#fff4e6", "#e8590c")
    } else if str_eq(role, "ref") {
        ("#f8f9fa", "#495057")
    } else {
        ("#f1f3f5", "#495057")
    }
}

/// The fill of a node whose run has these bits and this outcome: red for a
/// failed run or an error of one half or more, green for a trust of nine
/// tenths or more, yellow for a trust of six tenths or more, else the fill
/// of its role.
pub open spec fn fill_of(role_fill: Seq<char>, bits: BitsLite, ok: Option<bool>) -> Seq<char> {
    let e = match bits.e {
        Some(x) => x,
        None => 0,
    };
    let t = match bits.t {
        Some(x) => x,
        None => 0,
    };
    if ok == Some(false) || e >= 500_000 {
        "#fff5f5"@
    } else if t >= 900_000 {
        "#ebfbee"@
    } else if t >= 600_000 {
        "#fff9db"@
    } else {
        role_fill
    }
}

/// The fill of a node whose run has these bits and this outcome.
pub fn node_fill(role_fill: &'static str, bits: &BitsLite, ok: Option<bool>) -> (r: &'static str)
    ensures
        r@ == fill_of(role_fill@, *bits, ok),
{
    let e = match bits.e {
        Some(x) => x,
        None => 0,
    };
    let t = match bits.t {
        Some(x) => x,
        None => 0,
    };
    let passed = match ok {
        Some(b) => b,
        None => true,
    };
    if !passed || e >= 500_000 {
        "#fff5f5"
    } else if t >= 900_000 {
        "#ebfbee"
    } else if t >= 600_000 {
        "#fff9db"
    } else {
        role_fill
    }
}

/// A path with what varies from run to run and from user to user taken out,
/// so that requests to one endpoint count as one.
pub open spec fn normalized(p: Seq<char>) -> Seq<char> {
    let parts = segments(p);
    if parts.len() >= 3 && parts[0] == "runs"@ && parts[1] == "receipts"@ {
        "/runs/receipts/<run_id>/…"@
    } else if parts.len() >= 3 && parts[0] == "runs"@ && parts[1] == "wiki"@ {
        "/runs/wiki/<run_id>/…"@
    } else if parts.len() >= 3 && parts[0] == "runs"@ && parts[1] == "graphs"@ {
        "/runs/graphs/<run_id>/…"@
    } else if parts.len() >= 2 && parts[0] == "users"@ {
        "/users/<user>/"@ + if parts.len() >= 3 {
            parts[2]
        } else {
            Seq::<char>::empty()
        }
    } else {
        p
    }
}

/// A path with what varies from run to run and from user to user taken out.
pub fn normalize_path(p: &str) -> (r: String)
    ensures
        r@ == normalized(p@),
{
    let parts = segments_of(p);
    proof {
        assert(pieces(parts@).len() == parts@.len());
        if parts@.len() >= 1 {
            assert(pieces(parts@)[0] == parts@[0]@);
        }
        if parts@.len() >= 2 {
            assert(pieces(parts@)[1] == parts@[1]@);
        }
        if parts@.len() >= 3 {
            assert(pieces(parts@)[2] == parts@[2]@);
        }
    }
    if parts.len() >= 3 && is_str(&parts[0], "runs") && is_str(&parts[1], "receipts") {
        return "/runs/receipts/<run_id>/…".to_owned();
    }
    if parts.len() >= 3 && is_str(&parts[0], "runs") && is_str(&parts[1], "wiki") {
        return "/runs/wiki/<run_id>/…".to_owned();
    }
    if parts.len() >= 3 && is_str(&parts[0], "runs") && is_str(&parts[1], "graphs") {
        return "/runs/graphs/<run_id>/…".to_owned();
    }
    if parts.len() >= 2 && is_str(&parts[0], "users") {
        if parts.len() >= 3 {
            let third = text_of(&parts[2]);
            return concat("/users/<user>/", third.as_str());
        } else {
            proof {
                reveal_strlit("");
            }
            let r = concat("/users/<user>/", "");
            assert(r@ =~= "/users/<user>/"@ + Seq::<char>::empty());
            return r;
        }
    }
    p.to_owned()
}

/// How many receipts a receipts graph shows: what was asked for, one at
/// least and two thousand at most.
pub fn receipts_limit(limit: usize) -> (r: usize)
    ensures
        r == bounded_count(limit, 1, 2000),
{
    bound_count(limit, 1, 2000)
}

/// How many traced requests an API graph reads: what was asked for, ten at
/// least and four thousand at most.
pub fn api_limit(limit: usize) -> (r: usize)
    ensures
        r == bounded_count(limit, 10, 4000),
{
    bound_count(limit, 10, 4000)
}

/// One node of a thread graph: an event of the thread, and what the receipt
/// of its run tells.
#[derive(Debug)]
pub struct GraphNode {
    pub event: ThreadEvent,
    pub goal_id: Option<String>,
    pub view_url: Option<String>,
    pub ok: Option<bool>,
    pub bits: BitsLite,
}

/// How one node of a graph leads to another: as the next event of the
/// thread, or as a run that its receipt refers to.
#[derive(Clone, Copy, Debug, PartialEq, Eq, Structural)]
pub enum EdgeKind {
    Next,
    Reference,
}

/// One edge of a thread graph.
#[derive(Clone, Copy, Debug, PartialEq, Eq, Structural)]
pub struct GraphEdge {
    pub src: usize,
    pub dst: usize,
    pub kind: EdgeKind,
}

/// The content of an event as a graph shows it: on one line, and no more
/// than four hundred characters of it.
pub open spec fn shown_content(v: JsonView) -> Seq<char> {
    truncated(on_one_line(field_text(v, "content"@)), 400)
}

/// An event of a thread goes into a graph: it has a role and names a run
/// under a safe identifier, and where the graph filters by text, its content
/// holds that text, both read in lowercase.
pub open spec fn in_graph(v: JsonView, filter_text: Option<Seq<char>>) -> bool {
    &&& field_text(v, "role"@).len() > 0
    &&& field_text(v, "run_id"@).len() > 0
    &&& safe_segment(field_text(v, "run_id"@))
    &&& match filter_text {
        Some(ft) => contains_text(lowercase(shown_content(v)), lowercase(ft)),
        None => true,
    }
}

/// The event of a graph that an event of a thread gives, where it goes into
/// the graph.
pub fn graph_event(v: &Json, filter_text: Option<&str>) -> (r: Option<ThreadEvent>)
    ensures
        r is Some <==> in_graph(
            v@,
            match filter_text {
                Some(f) => Some(f@),
                None => None,
            },
        ),
        r matches Some(ev) ==> {
            &&& ev.ts@ == field_text(v@, "ts"@)
            &&& ev.role@ == field_text(v@, "role"@)
            &&& ev.run_id@ == field_text(v@, "run_id"@)
            &&& ev.content@ == shown_content(v@)
        },
{
    proof {
        reveal_strlit("");
    }
    let ts = match v.str_at("ts") {
        Some(s) => s,
        None => "",
    };
    let role = match v.str_at("role") {
        Some(s) => s,
        None => "",
    };
    let run_id = match v.str_at("run_id") {
        Some(s) => s,
        None => "",
    };
    let raw = match v.str_at("content") {
        Some(s) => s,
        None => "",
    };
    assert(ts@ =~= field_text(v@, "ts"@));
    assert(role@ =~= field_text(v@, "role"@));
    assert(run_id@ =~= field_text(v@, "run_id"@));
    assert(raw@ =~= field_text(v@, "content"@));
    let content = text_of(&truncate(&one_line_of(&chars_of(raw)), 400));
    if role.unicode_len() == 0 || run_id.unicode_len() == 0 || !is_safe_segment(run_id) {
        return None;
    }
    if let Some(ft) = filter_text {
        let needle = ft.to_lowercase();
        let hay = content.as_str().to_lowercase();
        if !contains(&chars_of(hay.as_str()), &chars_of(needle.as_str())) {
            return None;
        }
    }
    Some(
        ThreadEvent {
            ts: ts.to_owned(),
            role: role.to_owned(),
            content,
            run_id: run_id.to_owned(),
        },
    )
}

/// The edges that lead from each of `n` events to the next.
pub fn seq_edges(n: usize) -> (edges: Vec<GraphEdge>)
    ensures
        edges@.len() == if n == 0 {
            0
        } else {
            n - 1
        },
        forall|i: int|
            0 <= i < edges@.len() ==> #[trigger] edges@[i] == (GraphEdge {
                src: i as usize,
                dst: (i + 1) as usize,
                kind: EdgeKind::Next,
            }),
{
    let mut edges: Vec<GraphEdge> = Vec::new();
    if n == 0 {
        return edges;
    }
    let mut i: usize = 0;
    while i < n - 1
        invariant
            n > 0,
            i <= n - 1,
            edges@.len() == i,
            forall|j: int|
                0 <= j < i ==> #[trigger] edges@[j] == (GraphEdge {
                    src: j as usize,
                    dst: (j + 1) as usize,
                    kind: EdgeKind::Next,
                }),
        decreases n - 1 - i,
    {
        edges.push(GraphEdge { src: i, dst: i + 1, kind: EdgeKind::Next });
        i += 1;
    }
    edges
}

/// A text with a backslash before each double quote.
pub open spec fn quote_escaped(s: Seq<char>) -> Seq<char>
    decreases s.len(),
{
    if s.len() == 0 {
        Seq::<char>::empty()
    } else if s.last() == '"' {
        quote_escaped(s.drop_last()) + seq!['\\', '"']
    } else {
        quote_escaped(s.drop_last()).push(s.last())
    }
}

/// A text with a backslash before each double quote.
pub fn escape_quotes(s: &Vec<char>) -> (out: Vec<char>)
    ensures
        out@ == quote_escaped(s@),
{
    let mut out: Vec<char> = Vec::new();
    let mut i: usize = 0;
    assert(s@.take(0) =~= Seq::<char>::empty());
    while i < s.len()
        invariant
            i <= s.len(),
            out@ == quote_escaped(s@.take(i as int)),
        decreases s.len() - i,
    {
        let ghost before = out@;
        proof {
            assert(s@.take(i + 1).drop_last() =~= s@.take(i as int));
            assert(s@.take(i + 1).last() == s@[i as int]);
        }
        if s[i] == '"' {
            out.push('\\');
            out.push('"');
            assert(out@ =~= before + seq!['\\', '"']);
        } else {
            out.push(s[i]);
        }
        i += 1;
    }
    assert(s@.take(s@.len() as int) =~= s@);
    out
}

/// A bit as a label shows it: with two decimals, or a hyphen where the
/// receipt does not have it.
pub open spec fn shown_bit(b: Option<i64>) -> Seq<char> {
    match b {
        Some(x) => fixed(x as int, 2),
        None => "-"@,
    }
}

/// The bits as a label shows them.
pub open spec fn bits_pill(bits: BitsLite) -> Seq<char> {
    "T="@ + shown_bit(bits.t) + " U="@ + shown_bit(bits.u) + " E="@ + shown_bit(bits.e)
}

/// The bits as a label shows them.
pub fn bits_pill_of(bits: &BitsLite) -> (out: Vec<char>)
    ensures
        out@ == bits_pill(*bits),
{
    let mut out = chars_of("T=");
    push_all(&mut out, &shown_bit_of(bits.t));
    push_str(&mut out, " U=");
    push_all(&mut out, &shown_bit_of(bits.u));
    push_str(&mut out, " E=");
    push_all(&mut out, &shown_bit_of(bits.e));
    out
}

/// A bit as a label shows it.
pub fn shown_bit_of(b: Option<i64>) -> (out: Vec<char>)
    ensures
        out@ == shown_bit(b),
{
    match b {
        Some(x) => {
            let mut out: Vec<char> = Vec::new();
            push_fixed(&mut out, x, 2);
            assert(out@ =~= fixed(x as int, 2));
            out
        },
        None => chars_of("-"),
    }
}

/// The text of an optional text, empty where there is none.
pub open spec fn text_or_empty(o: Option<String>) -> Seq<char> {
    match o {
        Some(s) => s@,
        None => Seq::<char>::empty(),
    }
}

/// The label of the node `i` in a drawing: its number and role; its goal,
/// where the labels show goals and it has one; its content, where the labels
/// show text and it has some, else its run; and its bits, where the drawing
/// shows bits and it has any of trust, uncertainty and error.
pub open spec fn node_label(node: GraphNode, i: int, opts: ThreadGraphOpts) -> Seq<char> {
    let goal = text_or_empty(node.goal_id);
    decimal((i + 1) as nat) + ": "@ + node.event.role@ + (if contains_text(
        opts.label_mode@,
        "goal"@,
    ) && goal.len() > 0 {
        "\\n"@ + goal
    } else {
        Seq::<char>::empty()
    }) + (if contains_text(opts.label_mode@, "nl"@) && !blank(node.event.content@) {
        "\\n"@ + quote_escaped(truncated(node.event.content@, opts.content_chars as nat))
    } else {
        "\\n"@ + node.event.run_id@
    }) + (if opts.include_bits && (node.bits.t is Some || node.bits.u is Some || node.bits.e
        is Some) {
        "\\n"@ + bits_pill(node.bits)
    } else {
        Seq::<char>::empty()
    })
}

/// The fill of a node in a drawing: that of its role, or where the drawing
/// shows bits the one that its bits and its outcome give.
pub open spec fn drawn_fill(node: GraphNode, opts: ThreadGraphOpts) -> Seq<char> {
    if opts.include_bits {
        fill_of(style_of(node.event.role@).0, node.bits, node.ok)
    } else {
        style_of(node.event.role@).0
    }
}

/// The line of the node `i` in a drawing.
pub open spec fn node_line(node: GraphNode, i: int, opts: ThreadGraphOpts) -> Seq<char> {
    "  n"@ + decimal(i as nat) + " [label=\""@ + quote_escaped(node_label(node, i, opts))
        + "\", fillcolor=\""@ + drawn_fill(node, opts) + "\", color=\""@ + style_of(
        node.event.role@,
    ).1 + "\"];\n"@
}

/// The line of an edge in a drawing.
pub open spec fn edge_line(e: GraphEdge) -> Seq<char> {
    "  n"@ + decimal(e.src as nat) + " -> n"@ + decimal(e.dst as nat) + (match e.kind {
        EdgeKind::Next => Seq::<char>::empty(),
        EdgeKind::Reference => " [label=\"ref\"]"@,
    }) + ";\n"@
}

/// The lines of the first `n` nodes.
pub open spec fn node_lines(nodes: Seq<GraphNode>, n: int, opts: ThreadGraphOpts) -> Seq<char>
    decreases n,
{
    if n <= 0 {
        Seq::<char>::empty()
    } else {
        node_lines(nodes, n - 1, opts) + node_line(nodes[n - 1], n - 1, opts)
    }
}

/// The lines of the first `n` edges.
pub open spec fn edge_lines(edges: Seq<GraphEdge>, n: int) -> Seq<char>
    decreases n,
{
    if n <= 0 {
        Seq::<char>::empty()
    } else {
        edge_lines(edges, n - 1) + edge_line(edges[n - 1])
    }
}

/// The drawing of a thread graph.
pub open spec fn thread_dot(nodes: Seq<GraphNode>, edges: Seq<GraphEdge>, opts: ThreadGraphOpts) -> Seq<
    char,
> {
    "digraph thread {\nrankdir=TB;\nnode [shape=box, style=\"rounded,filled\", fontname=\"Helvetica\"];\n"@
        + node_lines(nodes, nodes.len() as int, opts) + edge_lines(edges, edges.len() as int)
        + "}\n"@
}

/// The label of the node `i` in a drawing.
pub fn node_label_of(node: &GraphNode, i: usize, opts: &ThreadGraphOpts) -> (out: Vec<char>)
    requires
        i < usize::MAX,
    ensures
        out@ == node_label(*node, i as int, *opts),
{
    proof {
        reveal_strlit("");
    }
    let mode = chars_of(opts.label_mode.as_str());
    let goal: &str = match &node.goal_id {
        Some(g) => g.as_str(),
        None => "",
    };
    assert(goal@ =~= text_or_empty(node.goal_id));
    let mut out: Vec<char> = Vec::new();
    push_decimal(&mut out, (i + 1) as u64);
    assert(out@ =~= decimal((i + 1) as nat));
    push_str(&mut out, ": ");
    push_str(&mut out, node.event.role.as_str());
    let mut goal_part: Vec<char> = Vec::new();
    if contains_str(&mode, "goal") && goal.unicode_len() > 0 {
        goal_part = chars_of("\\n");
        push_str(&mut goal_part, goal);
    }
    push_all(&mut out, &goal_part);
    let content = chars_of(node.event.content.as_str());
    let mut text_part = chars_of("\\n");
    if contains_str(&mode, "nl") && !is_blank(&content) {
        push_all(&mut text_part, &escape_quotes(&truncate(&content, opts.content_chars)));
    } else {
        push_str(&mut text_part, node.event.run_id.as_str());
    }
    push_all(&mut out, &text_part);
    let mut bits_part: Vec<char> = Vec::new();
    if opts.include_bits && (node.bits.t.is_some() || node.bits.u.is_some()
        || node.bits.e.is_some()) {
        bits_part = chars_of("\\n");
        push_all(&mut bits_part, &bits_pill_of(&node.bits));
    }
    push_all(&mut out, &bits_part);
    out
}

/// The drawing of a thread graph: its nodes in order, then its edges.
pub fn build_dot(nodes: &Vec<GraphNode>, edges: &Vec<GraphEdge>, opts: &ThreadGraphOpts) -> (r:
    String)
    ensures
        r@ == thread_dot(nodes@, edges@, *opts),
{
    let mut lines: Vec<char> = Vec::new();
    let mut i: usize = 0;
    while i < nodes.len()
        invariant
            i <= nodes.len(),
            lines@ == node_lines(nodes@, i as int, *opts),
        decreases nodes.len() - i,
    {
        let node = &nodes[i];
        let style = role_style(node.event.role.as_str());
        let fill: &'static str = if opts.include_bits {
            node_fill(style.0, &node.bits, node.ok)
        } else {
            style.0
        };
        let mut line = chars_of("  n");
        push_decimal(&mut line, i as u64);
        push_str(&mut line, " [label=\"");
        push_all(&mut line, &escape_quotes(&node_label_of(node, i, opts)));
        push_str(&mut line, "\", fillcolor=\"");
        push_str(&mut line, fill);
        push_str(&mut line, "\", color=\"");
        push_str(&mut line, style.1);
        push_str(&mut line, "\"];\n");
        push_all(&mut lines, &line);
        i += 1;
    }
    let mut drawn: Vec<char> = Vec::new();
    let mut k: usize = 0;
    while k < edges.len()
        invariant
            k <= edges.len(),
            drawn@ == edge_lines(edges@, k as int),
        decreases edges.len() - k,
    {
        let e = &edges[k];
        let mut line = chars_of("  n");
        push_decimal(&mut line, e.src as u64);
        push_str(&mut line, " -> n");
        push_decimal(&mut line, e.dst as u64);
        let label: Vec<char> = match e.kind {
            EdgeKind::Next => Vec::new(),
            EdgeKind::Reference => chars_of(" [label=\"ref\"]"),
        };
        push_all(&mut line, &label);
        push_str(&mut line, ";\n");
        push_all(&mut drawn, &line);
        k += 1;
    }
    let mut out = chars_of(
        "digraph thread {\nrankdir=TB;\nnode [shape=box, style=\"rounded,filled\", fontname=\"Helvetica\"];\n",
    );
    push_all(&mut out, &lines);
    push_all(&mut out, &drawn);
    push_str(&mut out, "}\n");
    text_of(&out)
}

} // verus!
