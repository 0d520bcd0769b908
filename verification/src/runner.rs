//! The pipeline runner's per-tick decisions: skip-and-backoff on an empty
//! snapshot, the embedding answer's length check, and the all-or-nothing
//! publication of one cycle's results.
//!
//! The runner itself is a single sequential loop: the surrounding process
//! performs the two collaborator calls with a bounded timeout and hands their
//! outcomes here (`None` for a failure or timeout), so every decision about
//! them is verified for every possible outcome. Ticks never overlap: the next
//! one starts only after these steps returned.

use vstd::prelude::*;

use crate::conversion::{first_scores, hashmap_score_user, into_compatible, query_for, score_map};
use crate::models::internal::TweetPayload;
use crate::models::middleware::SearchRequest;
use crate::models::response::EmbeddingResponse;
use crate::models::similarity_result::Root;
use crate::store::ResultStore;

verus! {

/// Why a cycle was abandoned. A failed cycle's batch is dropped for good:
/// there is no retry and no partial credit.
#[derive(Debug, Clone, Copy, PartialEq, Eq, Structural)]
pub enum CycleError {
    /// The embedding collaborator failed or timed out.
    EmbeddingFailed,
    /// The embedding collaborator answered with a vector count different
    /// from the batch's event count.
    LengthMismatch,
    /// The similarity collaborator failed or timed out.
    SearchFailed,
}

/// What one tick does with its drained snapshot.
#[derive(Debug, Clone, Copy, PartialEq, Eq, Structural)]
pub enum TickAction {
    /// Run the embedding/similarity round-trip on the snapshot.
    Process,
    /// The snapshot was empty: skip it and re-check after the shorter
    /// backoff interval, not a failure.
    Backoff,
}

/// Decides what a tick does: an empty snapshot is skipped, anything else is
/// processed.
pub fn plan_tick(snapshot: &TweetPayload) -> (a: TickAction)
    ensures
        a is Process <==> snapshot@.len() > 0,
{
    if snapshot.tweets.len() > 0 {
        TickAction::Process
    } else {
        TickAction::Backoff
    }
}

/// The ordered list of texts sent to the embedding collaborator: one per
/// event of the batch, in batch order.
pub fn texts_of(payload: &TweetPayload) -> (r: Vec<String>)
    ensures
        r@.len() == payload@.len(),
        forall|i: int| 0 <= i < r@.len() ==> #[trigger] r@[i]@ == payload@[i].text,
{
    let mut texts: Vec<String> = Vec::new();
    let mut i: usize = 0;
    while i < payload.tweets.len()
        invariant
            i <= payload.tweets@.len(),
            texts@.len() == i as int,
            forall|j: int| 0 <= j < i ==> #[trigger] texts@[j]@ == payload@[j].text,
        decreases payload.tweets@.len() - i,
    {
        texts.push(payload.tweets[i].text.clone());
        i += 1;
    }
    texts
}

/// Turns the embedding collaborator's outcome into the batched similarity
/// request, or abandons the cycle: a failed call or a vector count different
/// from the event count is a hard failure, and exactly those are.
pub fn prepare_queries(payload: &TweetPayload, embedding: Option<&EmbeddingResponse>) -> (r:
    Result<SearchRequest, CycleError>)
    ensures
        r is Ok <==> (embedding matches Some(e) && e.data@.len() == payload@.len()),
        match r {
            Ok(req) => {
                &&& embedding matches Some(e) && {
                    &&& req.searches@.len() == payload@.len()
                    &&& forall|i: int|
                        0 <= i < req.searches@.len() ==> query_for(
                            #[trigger] req.searches@[i],
                            payload@[i],
                            e.data@[i].embedding@,
                        )
                }
            },
            Err(err) => {
                &&& err is EmbeddingFailed <==> embedding is None
                &&& err is LengthMismatch <==> (embedding matches Some(e) && e.data@.len()
                    != payload@.len())
            },
        },
{
    match embedding {
        Some(resp) => {
            if resp.data.len() != payload.tweets.len() {
                Err(CycleError::LengthMismatch)
            } else {
                Ok(into_compatible(payload, resp))
            }
        },
        None => Err(CycleError::EmbeddingFailed),
    }
}

/// Finishes one cycle from the similarity collaborator's outcome: on success
/// the store's contents are replaced by exactly this batch's per-submitter
/// mapping (the caller then broadcasts one wakeup); on failure nothing at all
/// is written — all-or-nothing, never a partial publish.
pub fn complete_cycle(store: &mut ResultStore, batch: &TweetPayload, search: Option<&Root>) -> (r:
    Result<(), CycleError>)
    requires
        old(store).wf(),
    ensures
        final(store).wf(),
        r is Ok <==> search is Some,
        match r {
            Ok(_) => (search matches Some(root) && final(store)@ == score_map(
                batch@,
                first_scores(root.result@),
            )),
            Err(err) => err is SearchFailed && final(store)@ == old(store)@,
        },
{
    match search {
        Some(root) => {
            let mapping = hashmap_score_user(root, batch);
            store.publish(mapping);
            Ok(())
        },
        None => Err(CycleError::SearchFailed),
    }
}

} // verus!
