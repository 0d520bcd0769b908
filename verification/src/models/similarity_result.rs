//! Response shape of the similarity collaborator, and the per-event scored
//! result the pipeline delivers.
//!
//! Similarity scores are carried as opaque raw 32-bit encodings (`u32`): the
//! pipeline copies the best match's score through to the waiter and never
//! compares or combines scores. Collaborator-side timing fields are not
//! modelled: the pipeline never reads them.

use vstd::prelude::*;

verus! {

/// The similarity collaborator's answer for one batched call: one ranked
/// match list per query, in query order.
#[derive(Debug)]
pub struct Root {
    pub result: Vec<ResultItem>,
    pub status: String,
}

/// The ranked matches for one query, best first.
#[derive(Debug)]
pub struct ResultItem {
    pub points: Vec<Point>,
}

/// One ranked match.
#[derive(Debug)]
pub struct Point {
    pub id: String,
    pub version: u32,
    pub score: u32,
    pub payload: Payload,
}

/// Answer of the vector store's scroll endpoint.
#[derive(Debug)]
pub struct RootSearch {
    pub result: ResultItemSearch,
    pub status: String,
}

/// One page of scrolled points.
#[derive(Debug)]
pub struct ResultItemSearch {
    pub points: Vec<PointSearch>,
    pub next_page_offset: Option<u64>,
}

/// One stored point as returned by a scroll.
#[derive(Debug)]
pub struct PointSearch {
    pub id: String,
    pub payload: Payload,
}

/// The stored payload of a point.
#[derive(Debug)]
pub struct Payload {
    pub user_id: String,
    pub text: String,
}

/// Mathematical view of one scored result.
pub ghost struct ScoredView {
    pub id: Seq<char>,
    pub text: Seq<char>,
    pub score: u32,
}

/// One event's best similarity match: the event's identifier and text with
/// the best match's score (raw 32-bit encoding).
#[derive(Debug)]
pub struct SimilarityResult {
    pub id: String,
    pub text: String,
    pub score: u32,
}

impl View for SimilarityResult {
    type V = ScoredView;

    open spec fn view(&self) -> ScoredView {
        ScoredView { id: self.id@, text: self.text@, score: self.score }
    }
}

/// The view of a vector of scored results, element by element.
pub open spec fn scored_view(results: Seq<SimilarityResult>) -> Seq<ScoredView> {
    results.map_values(|r: SimilarityResult| r@)
}

/// Parameters of a payload search: whose points, and how many at most.
#[derive(Debug)]
pub struct SearchParams {
    pub user_id: String,
    pub limit: u32,
}

} // verus!
