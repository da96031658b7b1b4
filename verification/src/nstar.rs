//! The N* loop: what its requests carry, and the worlds that it shows: one
//! grown from a seed by rewriting rules, one drawn from the recorded trace.

use vstd::prelude::*;
use crate::ambient::{fresh_uuid, hyphenated};
use crate::engine::multiway::{
    multiway, multiway_of, rules_view, shown_rules, shown_rules_of, Multiway, Rule,
};
use crate::json::{entries_view, flag_or, items_view, put, set_field, text_or, Json, JsonView};
use crate::level::{decimal, decimal_of, push_decimal};
use crate::text::{
    byte_len, chars_of, concat, concat3, contains_str, contains_text, first_word, first_word_of,
    push_all, push_str, replace_all, replaced, same_text, text_of,
};

verus! {

/// A request to run the loop on a task.
#[derive(Debug)]
pub struct NStarRunReq {
    pub task: String,
}

/// What a run of the loop yields.
#[derive(Debug)]
pub struct NStarRunResp {
    pub ok: bool,
    pub result: String,
    pub policy: Json,
    pub adapt: Json,
}

/// The form in which the dashboard is asked for: `json` or `html`.
#[derive(Debug)]
pub struct HudQuery {
    pub format: Option<String>,
}

/// A request to resolve a query against earlier runs.
#[derive(Debug)]
pub struct ResolveReq {
    pub query: String,
}

/// An earlier run that matches a query.
#[derive(Debug)]
pub struct ContextMatch {
    pub task: String,
    pub run_id: String,
}

/// The earlier runs that match a query, and what to do next.
#[derive(Debug)]
pub struct ResolveResp {
    pub matches: Vec<ContextMatch>,
    pub suggestion: String,
}

/// The reference under which a task is handled locally: a number from two to
/// eighty that depends on the length of the task in bytes alone.
pub open spec fn prime_ref(len: nat) -> nat {
    ((len * 17) % 79 + 2) as nat
}

/// The reply of the local kernel to a task.
pub open spec fn local_reply(task: Seq<char>) -> Seq<char> {
    let r = decimal(prime_ref(byte_len(task) as nat));
    "{ \"ref\": "@ + r + ", \"net\": \"P"@ + r
        + " -> P2 (Fluid Kernel) -> Local Processing\", \"out\": \"Processed intent locally: '"@
        + task + "'. Entropy reduced.\" }"@
}

/// What the local kernel does for a task: it simulates a write where the
/// task asks to write or to create, and nothing else.
pub open spec fn local_ops(task: Seq<char>) -> Seq<char> {
    if contains_text(task, "write"@) || contains_text(task, "create"@) {
        "Op: [Local Write Simulated]"@
    } else {
        "No ops"@
    }
}

/// Handles a task in the local kernel: its reply, and what it did.
pub fn execute_meta6_local_kernel(task: &str) -> (r: (String, String))
    ensures
        r.0@ == local_reply(task@),
        r.1@ == local_ops(task@),
{
    let len = task.len();
    let reduced: usize = len % 79;
    assert((len * 17) % 79 == (reduced * 17) % 79) by (nonlinear_arith)
        requires
            reduced == len % 79,
    ;
    let prime: usize = (reduced * 17) % 79 + 2;
    let mut out = chars_of("{ \"ref\": ");
    push_decimal(&mut out, prime as u64);
    push_str(&mut out, ", \"net\": \"P");
    push_decimal(&mut out, prime as u64);
    push_str(
        &mut out,
        " -> P2 (Fluid Kernel) -> Local Processing\", \"out\": \"Processed intent locally: '",
    );
    push_str(&mut out, task);
    push_str(&mut out, "'. Entropy reduced.\" }");
    let t = chars_of(task);
    let ops = if contains_str(&t, "write") || contains_str(&t, "create") {
        "Op: [Local Write Simulated]".to_owned()
    } else {
        "No ops".to_owned()
    };
    (text_of(&out), ops)
}

/// Part 1 of the page of a grown world.
pub const DIVINE_PAGE_0: &'static str =
    "<!doctype html>\n<html>\n<style>\nbody { background: #000; color: #fff; font-family: monospace; display: flex; flex-direction: column; align-items: center; justify-content: center; height: 100vh; overflow: hidden; }\ncanvas { width: 100%; height: 100%; }\n.hud { position: absolute; top: 20px; left: 20px; background: rgba(0,0,0,0.8); padding: 10px; border: 1px solid #333; pointer-events: none; }\n</style>\n<body>\n<div class=\"hud\">\n  <h1>Divine Matrix</h1>\n  <div>Rule: ";

/// Part 2 of the page of a grown world.
pub const DIVINE_PAGE_1: &'static str =
    "</div>\n  <div>States: ";

/// Part 3 of the page of a grown world.
pub const DIVINE_PAGE_2: &'static str =
    " | Edges: ";

/// Part 4 of the page of a grown world.
pub const DIVINE_PAGE_3: &'static str =
    "</div>\n</div>\n<script src=\"https://unpkg.com/force-graph\"></script>\n<div id=\"graph\"></div>\n<script>\n  const gData = {\n    nodes: [";

/// Part 5 of the page of a grown world.
pub const DIVINE_PAGE_4: &'static str =
    "],\n    links: [";

/// Part 6 of the page of a grown world.
pub const DIVINE_PAGE_5: &'static str =
    "]\n  };\n  ForceGraph()(document.getElementById('graph'))\n    .graphData(gData)\n    .nodeAutoColorBy('group')\n    .linkColor(() => 'rgba(255,255,255,0.2)')\n    .backgroundColor('#000000');\n</script>\n</body>\n</html>";

/// Part 1 of the page of the system matrix.
pub const MATRIX_PAGE_0: &'static str =
    "<!doctype html>\n<html>\n<style>\nbody { background: #0b0c10; color: #c5c6c7; font-family: monospace; display: flex; flex-direction: column; align-items: center; justify-content: center; height: 100vh; overflow: hidden; }\n.hud { position: absolute; top: 20px; left: 20px; background: rgba(0,0,0,0.8); padding: 15px; border-left: 2px solid #66fcf1; pointer-events: none; }\nh1 { margin: 0 0 10px 0; color: #66fcf1; text-transform: uppercase; letter-spacing: 2px; }\n</style>\n<body>\n<div class=\"hud\">\n  <h1>System Matrix (Live)</h1>\n  <div>Nodes: ";

/// Part 2 of the page of the system matrix.
pub const MATRIX_PAGE_1: &'static str =
    "</div>\n  <div>Links: ";

/// Part 3 of the page of the system matrix.
pub const MATRIX_PAGE_2: &'static str =
    "</div>\n</div>\n<!-- DATA PAYLOAD (Robust Injection) -->\n<script id=\"graph-data\" type=\"application/json\">\n";

/// Part 4 of the page of the system matrix.
pub const MATRIX_PAGE_3: &'static str =
    "\n</script>\n\n<script src=\"https://unpkg.com/force-graph\"></script>\n<div id=\"graph\"></div>\n<script>\n  // Hydrate from Safe JSON\n  const gData = JSON.parse(document.getElementById('graph-data').textContent);\n  \n  const Graph = ForceGraph()(document.getElementById('graph'))\n    .graphData(gData)\n    .nodeAutoColorBy('group')\n    .nodeLabel('label')\n    .linkColor(() => 'rgba(102, 252, 241, 0.2)')\n    .backgroundColor('#0b0c10')\n    .d3Force('charge').strength(-50)\n    .onNodeClick(node => {\n        console.log(\"Node clicked:\", node);\n        // Robust Payload Extraction\n        const payload = node.details ? node.details : { id: node.id, label: node.label, group: node.group };\n        window.parent.postMessage({\n            type: 'node_selected', \n            payload: payload\n        }, '*');\n        \n        Graph.centerAt(node.x, node.y, 1000);\n        Graph.zoom(8, 2000);\n    });\n</script>\n</body>\n</html>";

/// A world that was made: the run it is known by, the directory it is
/// written to, its page, and the address of the page.
#[derive(Debug)]
pub struct World {
    pub run_id: String,
    pub out_dir: String,
    pub index_html: String,
    pub url: String,
}

/// `w` is the world with the page `page`, made under a run that is named
/// with `prefix` and the fresh identifier `fresh`.
pub open spec fn world_at(w: World, prefix: Seq<char>, fresh: Seq<char>, page: Seq<char>) -> bool {
    &&& w.run_id@ == prefix + fresh
    &&& w.out_dir@ == "runs/ruliad_kernel/"@ + w.run_id@
    &&& w.url@ == "/"@ + w.out_dir@ + "/index.html"@
    &&& w.index_html@ == page
}

/// The world with this page under the run that is named with `prefix` and
/// `fresh`.
fn world_of(prefix: &str, fresh: &str, page: String) -> (w: World)
    ensures
        world_at(w, prefix@, fresh@, page@),
{
    let run_id = concat(prefix, fresh);
    let out_dir = concat("runs/ruliad_kernel/", run_id.as_str());
    let url = concat3("/", out_dir.as_str(), "/index.html");
    World { run_id, out_dir, index_html: page, url }
}

/// The first `n` states of a grown world as the page draws them.
pub open spec fn drawn_states(n: int) -> Seq<char>
    decreases n,
{
    if n <= 0 {
        Seq::<char>::empty()
    } else {
        drawn_states(n - 1) + ((if n > 1 {
            ","@
        } else {
            Seq::<char>::empty()
        }) + "{id:"@ + decimal((n - 1) as nat) + ",group:1}"@)
    }
}

/// The first `n` steps of a grown world as the page draws them.
pub open spec fn drawn_steps(steps: Seq<(int, int, int, Seq<char>)>, n: int) -> Seq<char>
    decreases n,
{
    if n <= 0 {
        Seq::<char>::empty()
    } else {
        drawn_steps(steps, n - 1) + ((if n > 1 {
            ","@
        } else {
            Seq::<char>::empty()
        }) + "{source:"@ + decimal(steps[n - 1].0 as nat) + ",target:"@ + decimal(
            steps[n - 1].1 as nat,
        ) + "}"@)
    }
}

/// The page of a world grown by the rules `rules`, with `states` states
/// and the steps `steps`.
pub open spec fn divine_page_text(
    rules: Seq<(Seq<char>, Seq<char>)>,
    states: nat,
    steps: Seq<(int, int, int, Seq<char>)>,
) -> Seq<char> {
    DIVINE_PAGE_0@ + ("["@ + shown_rules(rules, rules.len() as int) + "]"@) + DIVINE_PAGE_1@
        + decimal(states) + DIVINE_PAGE_2@ + decimal(steps.len()) + DIVINE_PAGE_3@
        + drawn_states(states as int) + DIVINE_PAGE_4@ + drawn_steps(steps, steps.len() as int)
        + DIVINE_PAGE_5@
}

/// The page of a grown world.
pub fn divine_page(rules: &Vec<Rule>, g: &Multiway) -> (r: String)
    ensures
        r@ == divine_page_text(rules_view(rules@), g@.states.len(), g@.steps),
{
    let mut shown = chars_of("[");
    push_all(&mut shown, &shown_rules_of(rules));
    push_str(&mut shown, "]");
    let mut nodes: Vec<char> = Vec::new();
    let mut i: usize = 0;
    while i < g.states.len()
        invariant
            i <= g.states.len(),
            nodes@ == drawn_states(i as int),
        decreases g.states.len() - i,
    {
        let mut item: Vec<char> = Vec::new();
        if i > 0 {
            item = chars_of(",");
        }
        push_str(&mut item, "{id:");
        push_decimal(&mut item, i as u64);
        push_str(&mut item, ",group:1}");
        push_all(&mut nodes, &item);
        i += 1;
    }
    let mut links: Vec<char> = Vec::new();
    let mut k: usize = 0;
    while k < g.steps.len()
        invariant
            k <= g.steps.len(),
            links@ == drawn_steps(g@.steps, k as int),
        decreases g.steps.len() - k,
    {
        let mut item: Vec<char> = Vec::new();
        if k > 0 {
            item = chars_of(",");
        }
        push_str(&mut item, "{source:");
        push_decimal(&mut item, g.steps[k].src as u64);
        push_str(&mut item, ",target:");
        push_decimal(&mut item, g.steps[k].dst as u64);
        push_str(&mut item, "}");
        push_all(&mut links, &item);
        k += 1;
    }
    let mut out = chars_of(DIVINE_PAGE_0);
    push_all(&mut out, &shown);
    push_str(&mut out, DIVINE_PAGE_1);
    push_all(&mut out, &decimal_of(g.states.len() as u64));
    push_str(&mut out, DIVINE_PAGE_2);
    push_all(&mut out, &decimal_of(g.steps.len() as u64));
    push_str(&mut out, DIVINE_PAGE_3);
    push_all(&mut out, &nodes);
    push_str(&mut out, DIVINE_PAGE_4);
    push_all(&mut out, &links);
    push_str(&mut out, DIVINE_PAGE_5);
    text_of(&out)
}

/// Pairs of texts as pairs of sequences.
pub open spec fn pairs_view(rules: Seq<(String, String)>) -> Seq<(Seq<char>, Seq<char>)> {
    Seq::new(rules.len(), |i: int| (rules[i].0@, rules[i].1@))
}

/// The page of the world that grows from `seed` by `rules` in `depth`
/// levels.
pub open spec fn grown_page(seed: Seq<char>, rules: Seq<(Seq<char>, Seq<char>)>, depth: nat) -> Seq<
    char,
> {
    divine_page_text(
        rules,
        multiway_of(seed, rules, depth).states.len(),
        multiway_of(seed, rules, depth).steps,
    )
}

/// The world that grows from `seed` by `rules` in `depth` levels, made
/// under a run named with the fresh identifier `fresh`.
pub fn execute_divine_ruliad_with(
    seed: &str,
    rules: &Vec<(String, String)>,
    depth: usize,
    fresh: &str,
) -> (w: World)
    ensures
        world_at(w, "divine-"@, fresh@, grown_page(seed@, pairs_view(rules@), depth as nat)),
{
    let mut list: Vec<Rule> = Vec::new();
    let mut i: usize = 0;
    while i < rules.len()
        invariant
            i <= rules.len(),
            list@.len() == i,
            forall|j: int|
                0 <= j < i ==> (#[trigger] list@[j]).pattern@ == rules@[j].0@
                    && list@[j].replacement@ == rules@[j].1@,
        decreases rules.len() - i,
    {
        list.push(
            Rule {
                pattern: chars_of(rules[i].0.as_str()),
                replacement: chars_of(rules[i].1.as_str()),
            },
        );
        i += 1;
    }
    assert(rules_view(list@) =~= pairs_view(rules@));
    let g = multiway(&chars_of(seed), &list, depth);
    world_of("divine-", fresh, divine_page(&list, &g))
}

/// The world that grows from `seed` by `rules` in `depth` levels, made
/// under a run with a fresh name.
pub fn execute_divine_ruliad(seed: &str, rules: &Vec<(String, String)>, depth: usize) -> (w: World)
    ensures
        exists|fresh: Seq<char>|
            hyphenated(fresh) && #[trigger] world_at(
                w,
                "divine-"@,
                fresh,
                grown_page(seed@, pairs_view(rules@), depth as nat),
            ),
{
    let fresh = fresh_uuid();
    let w = execute_divine_ruliad_with(seed, rules, depth, fresh.as_str());
    assert(world_at(w, "divine-"@, fresh@, grown_page(seed@, pairs_view(rules@), depth as nat)));
    w
}

/// A record of the trace as the matrix reads it. A record with a title and
/// a text is an older kind: it is read as a successful run that is named by
/// its time, has its text as its task and belongs to the cluster of its
/// title.
pub open spec fn read_record(v: JsonView) -> JsonView {
    if v.get("title"@) is Some && v.get("text"@) is Some {
        v.with("run_id"@, JsonView::Text(text_or(v, "ts"@, "legacy"@))).with(
            "task"@,
            JsonView::Text(text_or(v, "text"@, "No Text"@)),
        ).with("ok"@, JsonView::Bool(true)).with(
            "cluster_hint"@,
            JsonView::Text(text_or(v, "title"@, "Misc"@)),
        )
    } else {
        v
    }
}

/// The cluster that a record belongs to: the one it names, else the first
/// word of its task, else `misc`.
pub open spec fn cluster_key(v: JsonView) -> Seq<char> {
    match v.text_at("cluster_hint"@) {
        Some(h) => h,
        None => if first_word(text_or(v, "task"@, "?"@)).len() > 0 {
            first_word(text_or(v, "task"@, "?"@))
        } else {
            "misc"@
        },
    }
}

/// The node of a cluster.
pub open spec fn cluster_node(id: int, key: Seq<char>) -> JsonView {
    JsonView::Object(
        seq![
            ("id"@, JsonView::Int(id)),
            ("label"@, JsonView::Text(key)),
            ("group"@, JsonView::Int(2)),
            ("val"@, JsonView::Int(10)),
        ],
    )
}

/// The node of a run: green where the run succeeded, red where it did not,
/// with the record as its details.
pub open spec fn run_node(id: int, v: JsonView) -> JsonView {
    JsonView::Object(
        seq![
            ("id"@, JsonView::Int(id)),
            ("label"@, JsonView::Text(text_or(v, "run_id"@, "?"@))),
            ("group"@, JsonView::Int(1)),
            (
                "color"@,
                JsonView::Text(
                    if flag_or(v, "ok"@, false) {
                        "#4ade80"@
                    } else {
                        "#f87171"@
                    },
                ),
            ),
            ("details"@, v),
        ],
    )
}

/// The link from a cluster to one of its runs.
pub open spec fn cluster_link(source: int, target: int) -> JsonView {
    JsonView::Object(seq![("source"@, JsonView::Int(source)), ("target"@, JsonView::Int(target))])
}

/// The link from a run to the run that came next.
pub open spec fn next_link(source: int, target: int) -> JsonView {
    JsonView::Object(
        seq![
            ("source"@, JsonView::Int(source)),
            ("target"@, JsonView::Int(target)),
            ("value"@, JsonView::Real(500_000)),
        ],
    )
}

/// What a matrix holds while it is drawn: its nodes, its links, the node
/// of each cluster, and the node of the run that came last.
pub struct MatrixView {
    pub nodes: Seq<JsonView>,
    pub links: Seq<JsonView>,
    pub clusters: Seq<(Seq<char>, int)>,
    pub last: Option<int>,
}

/// The node of the cluster `key`, where it has one.
pub open spec fn cluster_of(clusters: Seq<(Seq<char>, int)>, key: Seq<char>) -> Option<int>
    decreases clusters.len(),
{
    if clusters.len() == 0 {
        None
    } else if clusters[0].0 == key {
        Some(clusters[0].1)
    } else {
        cluster_of(clusters.drop_first(), key)
    }
}

/// The matrix with the node of the cluster `key`, which is added where the
/// cluster has none.
pub open spec fn with_cluster(m: MatrixView, key: Seq<char>) -> MatrixView {
    if cluster_of(m.clusters, key) is Some {
        m
    } else {
        MatrixView {
            nodes: m.nodes.push(cluster_node(m.nodes.len() as int, key)),
            clusters: m.clusters.push((key, m.nodes.len() as int)),
            ..m
        }
    }
}

/// The matrix after the record `raw` was read: its cluster has a node, the
/// run has a node of its own, a link leads from the cluster to the run, and
/// one from the run that came before.
pub open spec fn with_record(m: MatrixView, raw: JsonView) -> MatrixView {
    let v = read_record(raw);
    let c = with_cluster(m, cluster_key(v));
    let id = c.nodes.len() as int;
    MatrixView {
        nodes: c.nodes.push(run_node(id, v)),
        links: c.links.push(cluster_link(cluster_of(c.clusters, cluster_key(v))->0, id)) + (
        match c.last {
            Some(p) => seq![next_link(p, id)],
            None => Seq::<JsonView>::empty(),
        }),
        clusters: c.clusters,
        last: Some(id),
    }
}

/// The matrix after the first `n` records were read.
pub open spec fn matrix_of(records: Seq<JsonView>, n: int) -> MatrixView
    decreases n,
{
    if n <= 0 {
        MatrixView {
            nodes: Seq::empty(),
            links: Seq::empty(),
            clusters: Seq::empty(),
            last: None,
        }
    } else {
        with_record(matrix_of(records, n - 1), records[n - 1])
    }
}

/// The matrix as the page loads it: an object with the nodes and the links.
pub open spec fn graph_data(m: MatrixView) -> JsonView {
    JsonView::Object(
        seq![("nodes"@, JsonView::List(m.nodes)), ("links"@, JsonView::List(m.links))],
    )
}

/// A matrix while it is drawn.
pub struct Matrix {
    pub nodes: Vec<Json>,
    pub links: Vec<Json>,
    pub clusters: Vec<(String, usize)>,
    pub last: Option<usize>,
}

impl View for Matrix {
    type V = MatrixView;

    open spec fn view(&self) -> MatrixView {
        MatrixView {
            nodes: items_view(self.nodes@),
            links: items_view(self.links@),
            clusters: Seq::new(
                self.clusters@.len(),
                |i: int| (self.clusters@[i].0@, self.clusters@[i].1 as int),
            ),
            last: match self.last {
                Some(p) => Some(p as int),
                None => None,
            },
        }
    }
}

/// A record of the trace as the matrix reads it.
pub fn read_record_of(v: Json) -> (r: Json)
    ensures
        r@ == read_record(v@),
{
    if v.get("title").is_some() && v.get("text").is_some() {
        let run_id = v.text_or("ts", "legacy");
        let task = v.text_or("text", "No Text");
        let title = v.text_or("title", "Misc");
        let v = set_field(v, "run_id", Json::Text(run_id));
        let v = set_field(v, "task", Json::Text(task));
        let v = set_field(v, "ok", Json::Bool(true));
        set_field(v, "cluster_hint", Json::Text(title))
    } else {
        v
    }
}

/// The cluster that a record belongs to.
pub fn cluster_key_of(v: &Json) -> (r: String)
    ensures
        r@ == cluster_key(v@),
{
    match v.text_at("cluster_hint") {
        Some(h) => h,
        None => {
            let task = v.text_or("task", "?");
            let word = first_word_of(&chars_of(task.as_str()));
            if word.len() > 0 {
                text_of(&word)
            } else {
                "misc".to_owned()
            }
        },
    }
}

/// The node of the cluster `key`, where it has one.
fn find_cluster(clusters: &Vec<(String, usize)>, key: &str) -> (r: Option<usize>)
    ensures
        match r {
            Some(id) => cluster_of(
                Seq::new(clusters@.len(), |i: int| (clusters@[i].0@, clusters@[i].1 as int)),
                key@,
            ) == Some(id as int),
            None => cluster_of(
                Seq::new(clusters@.len(), |i: int| (clusters@[i].0@, clusters@[i].1 as int)),
                key@,
            ) is None,
        },
{
    let ghost all = Seq::new(clusters@.len(), |i: int| (clusters@[i].0@, clusters@[i].1 as int));
    let name = chars_of(key);
    let mut i: usize = 0;
    assert(all.skip(0) =~= all);
    while i < clusters.len()
        invariant
            i <= clusters.len(),
            name@ == key@,
            all == Seq::new(clusters@.len(), |i: int| (clusters@[i].0@, clusters@[i].1 as int)),
            cluster_of(all, key@) == cluster_of(all.skip(i as int), key@),
        decreases clusters.len() - i,
    {
        proof {
            assert(all.skip(i as int)[0] == all[i as int]);
            assert(all.skip(i as int).drop_first() =~= all.skip(i + 1));
        }
        if same_text(&chars_of(clusters[i].0.as_str()), &name) {
            return Some(clusters[i].1);
        }
        i += 1;
    }
    assert(all.skip(clusters@.len() as int).len() == 0);
    None
}

/// A number of a node as a structured value.
fn node_number(id: usize) -> (r: Json)
    ensures
        r@ == JsonView::Int(id as int),
{
    Json::Nat(id as u64)
}

impl Matrix {
    /// A matrix before any record is read.
    pub fn new() -> (m: Matrix)
        ensures
            m@ == matrix_of(Seq::empty(), 0),
    {
        let m = Matrix { nodes: Vec::new(), links: Vec::new(), clusters: Vec::new(), last: None };
        assert(m@.nodes =~= Seq::<JsonView>::empty());
        assert(m@.links =~= Seq::<JsonView>::empty());
        assert(m@.clusters =~= Seq::<(Seq<char>, int)>::empty());
        m
    }

    /// Reads one record of the trace into the matrix.
    pub fn read(&mut self, raw: Json)
        ensures
            final(self)@ == with_record(old(self)@, raw@),
    {
        let ghost m0 = self@;
        let v = read_record_of(raw);
        let key = cluster_key_of(&v);
        let cluster = match find_cluster(&self.clusters, key.as_str()) {
            Some(id) => id,
            None => {
                let id = self.nodes.len();
                let mut e: Vec<(String, Json)> = Vec::new();
                put(&mut e, "id", node_number(id));
                put(&mut e, "label", Json::text(key.as_str()));
                put(&mut e, "group", Json::Int(2));
                put(&mut e, "val", Json::Int(10));
                assert(entries_view(e@) =~= cluster_node(id as int, key@)->Object_0);
                let ghost before = items_view(self.nodes@);
                let ghost known = self@.clusters;
                self.nodes.push(Json::Object(e));
                self.clusters.push((key, id));
                proof {
                    assert(items_view(self.nodes@) =~= before.push(cluster_node(id as int, key@)));
                    assert(self@.clusters =~= known.push((key@, id as int)));
                    lemma_cluster_added(known, key@, id as int);
                }
                id
            },
        };
        let ghost c = with_cluster(m0, cluster_key(v@));
        assert(self@.nodes == c.nodes);
        assert(self@.clusters == c.clusters);
        assert(cluster_of(c.clusters, cluster_key(v@)) == Some(cluster as int));
        let id = self.nodes.len();
        let color = if v.flag_or("ok", false) {
            "#4ade80"
        } else {
            "#f87171"
        };
        let mut e: Vec<(String, Json)> = Vec::new();
        put(&mut e, "id", node_number(id));
        put(&mut e, "label", Json::Text(v.text_or("run_id", "?")));
        put(&mut e, "group", Json::Int(1));
        put(&mut e, "color", Json::text(color));
        let ghost record = v@;
        put(&mut e, "details", v);
        assert(entries_view(e@) =~= run_node(id as int, record)->Object_0);
        let ghost nodes_before = items_view(self.nodes@);
        let ghost links_before = items_view(self.links@);
        self.nodes.push(Json::Object(e));
        let mut l: Vec<(String, Json)> = Vec::new();
        put(&mut l, "source", node_number(cluster));
        put(&mut l, "target", node_number(id));
        assert(entries_view(l@) =~= cluster_link(cluster as int, id as int)->Object_0);
        self.links.push(Json::Object(l));
        proof {
            assert(items_view(self.nodes@) =~= nodes_before.push(run_node(id as int, record)));
            assert(items_view(self.links@) =~= links_before.push(
                cluster_link(cluster as int, id as int),
            ));
        }
        match self.last {
            Some(p) => {
                let mut t: Vec<(String, Json)> = Vec::new();
                put(&mut t, "source", node_number(p));
                put(&mut t, "target", node_number(id));
                put(&mut t, "value", Json::Real(500_000));
                assert(entries_view(t@) =~= next_link(p as int, id as int)->Object_0);
                self.links.push(Json::Object(t));
                assert(items_view(self.links@) =~= links_before.push(
                    cluster_link(cluster as int, id as int),
                ) + seq![next_link(p as int, id as int)]);
            },
            None => {
                assert(items_view(self.links@) =~= links_before.push(
                    cluster_link(cluster as int, id as int),
                ) + Seq::<JsonView>::empty());
            },
        }
        self.last = Some(id);
    }

    /// The matrix as the page loads it.
    pub fn graph_data(self) -> (r: Json)
        ensures
            r@ == graph_data(self@),
    {
        let mut e: Vec<(String, Json)> = Vec::new();
        put(&mut e, "nodes", Json::List(self.nodes));
        put(&mut e, "links", Json::List(self.links));
        assert(entries_view(e@) =~= graph_data(self@)->Object_0);
        Json::Object(e)
    }
}

/// A cluster that is added after clusters with other keys is found at its
/// own node.
pub proof fn lemma_cluster_added(clusters: Seq<(Seq<char>, int)>, key: Seq<char>, id: int)
    requires
        cluster_of(clusters, key) is None,
    ensures
        cluster_of(clusters.push((key, id)), key) == Some(id),
    decreases clusters.len(),
{
    if clusters.len() > 0 {
        assert(clusters.push((key, id)).drop_first() =~= clusters.drop_first().push((key, id)));
        lemma_cluster_added(clusters.drop_first(), key, id);
    }
}

/// The matrix of the records of a trace, read in order.
pub fn system_matrix(records: &Vec<Json>) -> (m: Matrix)
    ensures
        m@ == matrix_of(items_view(records@), records@.len() as int),
{
    let mut m = Matrix::new();
    let mut i: usize = 0;
    while i < records.len()
        invariant
            i <= records.len(),
            m@ == matrix_of(items_view(records@), i as int),
        decreases records.len() - i,
    {
        m.read(records[i].copy());
        i += 1;
    }
    m
}

/// The page of the matrix with `nodes` nodes and `links` links, whose
/// graph is written out as `data`: in the graph every end of a script is
/// made harmless.
pub open spec fn matrix_page_text(nodes: usize, links: usize, data: Seq<char>) -> Seq<char> {
    MATRIX_PAGE_0@ + decimal(nodes as nat) + MATRIX_PAGE_1@ + decimal(links as nat)
        + MATRIX_PAGE_2@ + replaced(data, "</script>"@, "<\\/script>"@) + MATRIX_PAGE_3@
}

/// The page of the matrix.
pub fn matrix_page(nodes: usize, links: usize, data: &str) -> (r: String)
    ensures
        r@ == matrix_page_text(nodes, links, data@),
{
    let safe = replace_all(&chars_of(data), &chars_of("</script>"), &chars_of("<\\/script>"));
    let mut out = chars_of(MATRIX_PAGE_0);
    push_all(&mut out, &decimal_of(nodes as u64));
    push_str(&mut out, MATRIX_PAGE_1);
    push_all(&mut out, &decimal_of(links as u64));
    push_str(&mut out, MATRIX_PAGE_2);
    push_all(&mut out, &safe);
    push_str(&mut out, MATRIX_PAGE_3);
    text_of(&out)
}

/// The world drawn from a trace, whose matrix has `nodes` nodes and
/// `links` links and is written out as `data`, under a run named with the
/// fresh identifier `fresh`.
pub fn execute_system_matrix_with(nodes: usize, links: usize, data: &str, fresh: &str) -> (w: World)
    ensures
        world_at(w, "matrix-"@, fresh@, matrix_page_text(nodes, links, data@)),
{
    world_of("matrix-", fresh, matrix_page(nodes, links, data))
}

/// The world drawn from a trace, under a run with a fresh name.
pub fn execute_system_matrix(nodes: usize, links: usize, data: &str) -> (w: World)
    ensures
        exists|fresh: Seq<char>|
            hyphenated(fresh) && #[trigger] world_at(
                w,
                "matrix-"@,
                fresh,
                matrix_page_text(nodes, links, data@),
            ),
{
    let fresh = fresh_uuid();
    let w = execute_system_matrix_with(nodes, links, data, fresh.as_str());
    assert(world_at(w, "matrix-"@, fresh@, matrix_page_text(nodes, links, data@)));
    w
}

} // verus!
