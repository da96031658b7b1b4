//! The search flywheel: context for a goal.

use vstd::prelude::*;
use crate::ambient::{fresh_uuid, hyphenated};
use crate::json::{entries_view, put, Json, JsonView};
use crate::text::concat;

verus! {

/// One hit of the flywheel. `relevance` is a level.
#[derive(Debug)]
pub struct SearchResult {
    pub id: String,
    pub content: String,
    pub relevance: i64,
    pub metadata: Json,
}

/// `hit` is the context that the flywheel gives for `query` under the fresh
/// identifier `fresh`.
pub open spec fn context_hit(hit: SearchResult, query: Seq<char>, fresh: Seq<char>) -> bool {
    &&& hit.id@ == "search-"@ + fresh
    &&& hit.content@ == "Context for: "@ + query
    &&& hit.relevance == 850_000
    &&& hit.metadata@ == JsonView::Object(seq![("source"@, JsonView::Text("flywheel"@))])
}

/// The context that the flywheel gives for a query: one hit that names the
/// query.
pub fn search_with(query: &str, fresh_id: &str) -> (hits: Vec<SearchResult>)
    ensures
        hits@.len() == 1,
        context_hit(hits@[0], query@, fresh_id@),
{
    let mut m: Vec<(String, Json)> = Vec::new();
    put(&mut m, "source", Json::text("flywheel"));
    assert(entries_view(m@) =~= seq![("source"@, JsonView::Text("flywheel"@))]);
    let mut hits: Vec<SearchResult> = Vec::new();
    hits.push(
        SearchResult {
            id: concat("search-", fresh_id),
            content: concat("Context for: ", query),
            relevance: 850_000,
            metadata: Json::Object(m),
        },
    );
    hits
}

/// The context that the flywheel gives for a query, under a fresh
/// identifier.
pub fn search(query: &str) -> (hits: Vec<SearchResult>)
    ensures
        hits@.len() == 1,
        exists|fresh: Seq<char>| hyphenated(fresh) && #[trigger] context_hit(hits@[0], query@, fresh),
{
    let fresh = fresh_uuid();
    let hits = search_with(query, fresh.as_str());
    assert(context_hit(hits@[0], query@, fresh@));
    hits
}

} // verus!
