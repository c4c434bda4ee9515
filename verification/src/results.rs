//! Result mapping: the API's raw item schema becomes the tool's own result
//! schema. Pure and total; order and count are preserved exactly, and no
//! filtering happens at this stage.

use vstd::prelude::*;

verus! {

/// One item as the API's wire schema carries it.
#[derive(Debug, Clone)]
pub struct RawSearchItem {
    pub title: String,
    pub link: String,
    pub snippet: String,
}

/// One result in the tool's own schema. Ordering follows the API response
/// order; the value is immutable after creation.
#[derive(Debug, Clone)]
pub struct SearchResult {
    pub title: String,
    pub link: String,
    pub description: String,
}

/// Maps every raw item to a result, in order: same length, and the result at
/// each index carries that index's title, link, and snippet (as description).
pub fn map_results(items: &Vec<RawSearchItem>) -> (r: Vec<SearchResult>)
    ensures
        r@.len() == items@.len(),
        forall|i: int|
            0 <= i < items@.len() ==> {
                &&& (#[trigger] r@[i]).title@ == items@[i].title@
                &&& r@[i].link@ == items@[i].link@
                &&& r@[i].description@ == items@[i].snippet@
            },
{
    let mut out: Vec<SearchResult> = Vec::new();
    let mut i: usize = 0;
    while i < items.len()
        invariant
            i <= items@.len(),
            out@.len() == i,
            forall|k: int|
                0 <= k < i ==> {
                    &&& (#[trigger] out@[k]).title@ == items@[k].title@
                    &&& out@[k].link@ == items@[k].link@
                    &&& out@[k].description@ == items@[k].snippet@
                },
        decreases items@.len() - i,
    {
        let item = &items[i];
        out.push(
            SearchResult {
                title: item.title.clone(),
                link: item.link.clone(),
                description: item.snippet.clone(),
            },
        );
        i = i + 1;
    }
    out
}

} // verus!
