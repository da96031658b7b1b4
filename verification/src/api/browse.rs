//! The browse page: the latest receipts and build logs, as a page and as a
//! structured value.

use vstd::prelude::*;
use crate::json::{entries_view, put, Json, JsonView};
use crate::order::{
    is_text_before, lemma_text_before_asymmetric, lemma_text_before_irreflexive,
    lemma_text_before_total, lemma_text_before_transitive, ranked, sort_ranked, text_before,
    Ranked,
};
use crate::text::{chars_of, push_all, push_str, text_of, views};
use super::{texts_json, texts_view};

verus! {

/// An entry of a directory: its name, and the time of its last change in
/// seconds since the Unix epoch.
#[derive(Debug)]
pub struct Listed {
    pub mtime: u64,
    pub name: String,
}

impl Ranked for Listed {
    /// The entry that changed later comes first; of two that changed at one
    /// time, the one with the later name.
    open spec fn precedes(&self, other: &Self) -> bool {
        self.mtime > other.mtime || (self.mtime == other.mtime && text_before(
            other.name@,
            self.name@,
        ))
    }

    fn comes_before(&self, other: &Self) -> (r: bool) {
        if self.mtime > other.mtime {
            true
        } else if self.mtime == other.mtime {
            let a = chars_of(self.name.as_str());
            let b = chars_of(other.name.as_str());
            is_text_before(&b, &a)
        } else {
            false
        }
    }

    proof fn lemma_asymmetric(a: &Self, b: &Self) {
        lemma_text_before_asymmetric(a.name@, b.name@);
    }

    proof fn lemma_negatively_transitive(a: &Self, b: &Self, c: &Self) {
        lemma_text_before_total(a.name@, b.name@);
        lemma_text_before_total(b.name@, c.name@);
        lemma_text_before_asymmetric(a.name@, b.name@);
        lemma_text_before_asymmetric(b.name@, c.name@);
        lemma_text_before_asymmetric(a.name@, c.name@);
        lemma_text_before_irreflexive(a.name@);
        lemma_text_before_irreflexive(c.name@);
        if c.precedes(a) && c.mtime == a.mtime {
            if text_before(b.name@, a.name@) {
                lemma_text_before_transitive(b.name@, a.name@, c.name@);
            }
            if text_before(a.name@, c.name@) && text_before(c.name@, b.name@) {
                lemma_text_before_transitive(a.name@, c.name@, b.name@);
            }
        }
    }
}

/// The names of entries, in their order.
pub open spec fn names_of(entries: Seq<Listed>) -> Seq<Seq<char>> {
    Seq::new(entries.len(), |i: int| entries[i].name@)
}

/// `names` are the names of the `limit` latest of `entries`, the latest
/// first.
pub open spec fn latest_names(names: Seq<Seq<char>>, entries: Seq<Listed>, limit: usize) -> bool {
    exists|all: Seq<Listed>|
        #![trigger ranked(all)]
        {
            &&& ranked(all)
            &&& all.to_multiset() == entries.to_multiset()
            &&& names == names_of(
                if all.len() <= limit {
                    all
                } else {
                    all.take(limit as int)
                },
            )
        }
}

/// The names of the `limit` latest entries, the latest first.
pub fn list_latest(entries: Vec<Listed>, limit: usize) -> (names: Vec<String>)
    ensures
        latest_names(views(names@), entries@, limit),
{
    let mut sorted = sort_ranked(entries);
    let ghost all = sorted@;
    if sorted.len() > limit {
        sorted.truncate(limit);
    }
    let ghost kept = sorted@;
    let mut names: Vec<String> = Vec::new();
    let mut i: usize = 0;
    while i < sorted.len()
        invariant
            i <= sorted.len(),
            sorted@ == kept,
            names@.len() == i,
            forall|j: int| 0 <= j < i ==> (#[trigger] names@[j])@ == kept[j].name@,
        decreases sorted.len() - i,
    {
        names.push(sorted[i].name.clone());
        i += 1;
    }
    proof {
        assert(views(names@) =~= names_of(kept));
        assert(ranked(all));
    }
    names
}

/// The first `n` links of a list on the page: each leads to the file
/// `name` under `base`, with `ending` after the name.
pub open spec fn links(base: Seq<char>, ending: Seq<char>, names: Seq<Seq<char>>, n: int) -> Seq<
    char,
>
    decreases n,
{
    if n <= 0 {
        Seq::<char>::empty()
    } else {
        links(base, ending, names, n - 1) + ("<li><a href=\""@ + base + names[n - 1] + ending
            + "\">"@ + names[n - 1] + "</a></li>"@)
    }
}

/// The beginning of the browse page.
pub const BROWSE_HEAD: &'static str =
    "<!doctype html><html><head><meta charset=\"utf-8\"><title>One Engine Browse</title><meta name=\"viewport\" content=\"width=device-width,initial-scale=1\"><style>body{font-family:system-ui,-apple-system,Segoe UI,Roboto,Arial;margin:24px} a{color:#1f6feb;text-decoration:none} a:hover{text-decoration:underline} code{background:#f6f8fa;padding:2px 6px;border-radius:6px} .muted{color:#57606a}</style></head><body><h1>One Engine</h1><p class=\"muted\">Quick links: <a href=\"/terminal\">Terminal</a> · <a href=\"/docs/openapi_request_examples.md\">API examples</a></p><h2>Latest receipts</h2><ul>";

/// What stands between the two lists of the browse page.
pub const BROWSE_MIDDLE: &'static str = "</ul><h2>meta3.build logs</h2><ul>";

/// The end of the browse page.
pub const BROWSE_FOOT: &'static str =
    "</ul><p class=\"muted\">Note: directory listing is intentionally disabled; this page links to concrete artifacts.</p></body></html>";

/// The browse page: links to the receipts of these runs and to these build
/// logs.
pub open spec fn browse_page(receipts: Seq<Seq<char>>, logs: Seq<Seq<char>>) -> Seq<char> {
    BROWSE_HEAD@ + links("/runs/receipts/"@, "/RECEIPT.md"@, receipts, receipts.len() as int)
        + BROWSE_MIDDLE@ + links("/runs/meta3-build/"@, Seq::<char>::empty(), logs, logs.len() as int)
        + BROWSE_FOOT@
}

/// The links of a list on the page.
fn links_of(base: &str, ending: &str, names: &Vec<String>) -> (out: Vec<char>)
    ensures
        out@ == links(base@, ending@, views(names@), names@.len() as int),
{
    let ghost all = views(names@);
    let mut out: Vec<char> = Vec::new();
    let mut i: usize = 0;
    while i < names.len()
        invariant
            i <= names.len(),
            all == views(names@),
            out@ == links(base@, ending@, all, i as int),
        decreases names.len() - i,
    {
        assert(all[i as int] == names@[i as int]@);
        let mut href = chars_of(base);
        push_str(&mut href, names[i].as_str());
        push_str(&mut href, ending);
        let mut item = chars_of("<li><a href=\"");
        push_all(&mut item, &href);
        push_str(&mut item, "\">");
        push_str(&mut item, names[i].as_str());
        push_str(&mut item, "</a></li>");
        proof {
            assert(item@ =~= "<li><a href=\""@ + base@ + all[i as int] + ending@ + "\">"@
                + all[i as int] + "</a></li>"@);
        }
        push_all(&mut out, &item);
        i += 1;
    }
    out
}

/// The browse page.
pub fn browse_html(receipts: &Vec<String>, logs: &Vec<String>) -> (r: String)
    ensures
        r@ == browse_page(views(receipts@), views(logs@)),
{
    proof {
        reveal_strlit("");
    }
    let mut out = chars_of(BROWSE_HEAD);
    push_all(&mut out, &links_of("/runs/receipts/", "/RECEIPT.md", receipts));
    push_str(&mut out, BROWSE_MIDDLE);
    let logs_list = links_of("/runs/meta3-build/", "", logs);
    assert(""@ =~= Seq::<char>::empty());
    push_all(&mut out, &logs_list);
    push_str(&mut out, BROWSE_FOOT);
    text_of(&out)
}

/// The links that the browse index names.
pub open spec fn index_links() -> JsonView {
    JsonView::Object(
        seq![
            ("ui"@, JsonView::Text("/ui/"@)),
            ("browse"@, JsonView::Text("/browse"@)),
            ("swagger"@, JsonView::Text("/swagger-ui"@)),
            ("staleness"@, JsonView::Text("/docs/staleness_matrix.md"@)),
            ("impact"@, JsonView::Text("/docs/financial_impact.md"@)),
        ],
    )
}

/// The browse index as a structured value: the root, the receipts, the
/// build logs and the links.
pub open spec fn browse_view(root: Seq<char>, receipts: Seq<String>, logs: Seq<String>) -> JsonView {
    JsonView::Object(
        seq![
            ("meta3_root"@, JsonView::Text(root)),
            ("receipts"@, texts_view(receipts)),
            ("meta3_build_logs"@, texts_view(logs)),
            ("links"@, index_links()),
        ],
    )
}

/// The browse index as a structured value.
pub fn browse_json(root: &str, receipts: &Vec<String>, logs: &Vec<String>) -> (r: Json)
    ensures
        r@ == browse_view(root@, receipts@, logs@),
{
    let mut l: Vec<(String, Json)> = Vec::new();
    put(&mut l, "ui", Json::text("/ui/"));
    put(&mut l, "browse", Json::text("/browse"));
    put(&mut l, "swagger", Json::text("/swagger-ui"));
    put(&mut l, "staleness", Json::text("/docs/staleness_matrix.md"));
    put(&mut l, "impact", Json::text("/docs/financial_impact.md"));
    assert(entries_view(l@) =~= index_links()->Object_0);
    let mut e: Vec<(String, Json)> = Vec::new();
    put(&mut e, "meta3_root", Json::text(root));
    put(&mut e, "receipts", texts_json(receipts));
    put(&mut e, "meta3_build_logs", texts_json(logs));
    put(&mut e, "links", Json::Object(l));
    assert(entries_view(e@) =~= browse_view(root@, receipts@, logs@)->Object_0);
    Json::Object(e)
}

} // verus!
