//! The session waiter: per-connection logic that submits events, blocks on
//! the store's broadcast, and claims exactly its own submitter's results.
//!
//! The surrounding connection task runs the I/O: it authenticates the
//! submitter, appends via [`crate::buffer::BatchBuffer::append`], suspends on
//! the broadcast signal holding no lock, performs exactly one
//! [`crate::store::ResultStore::try_claim`] for its own key per wakeup, and
//! hands the outcome to [`on_wake`]. The wait is explicitly bounded by
//! [`WaiterConfig::max_wakes`]: a waiter whose events were dropped by a
//! failed cycle expires instead of hanging forever.

use vstd::prelude::*;
use vstd::string::StringExecFns;

use crate::models::internal::{Tweet, TweetPayload};
use crate::models::similarity_result::{scored_view, ScoredView, SimilarityResult};

verus! {

/// Explicit wait policy: after how many missed broadcasts a waiter gives up.
#[derive(Debug, Clone, Copy, PartialEq, Eq, Structural)]
pub struct WaiterConfig {
    pub max_wakes: u32,
}

/// The per-connection lifecycle. `Blocked` counts the broadcasts that woke
/// this waiter without its key being present.
#[derive(Debug, Clone, Copy, PartialEq, Eq, Structural)]
pub enum WaiterState {
    /// No submission pending.
    Idle,
    /// Events handed to the batch buffer, submitter recorded.
    Submitted,
    /// Waiting on the store's broadcast signal.
    Blocked { misses: u32 },
    /// Own results claimed and transmitted.
    Delivered,
    /// Gave up after the configured number of missed broadcasts.
    Expired,
}

/// What the connection task does after one wakeup.
pub enum WakeOutcome {
    /// Transmit these results, this waiter's own.
    Deliver(Vec<SimilarityResult>),
    /// Re-block until the next broadcast.
    KeepWaiting,
    /// Give up this submission; the result may simply never come.
    Expire,
}

/// A `Blocked` waiter never counts more misses than the policy allows.
pub open spec fn state_wf(s: WaiterState, cfg: WaiterConfig) -> bool {
    s matches WaiterState::Blocked { misses } ==> misses < cfg.max_wakes
}

/// The state after one wakeup whose own-key claim returned `claimed`.
pub open spec fn wake_state(
    s: WaiterState,
    claimed: Option<Seq<ScoredView>>,
    cfg: WaiterConfig,
) -> WaiterState {
    match claimed {
        Some(_) => WaiterState::Delivered,
        None => {
            let misses = s->misses;
            if misses + 1 < cfg.max_wakes {
                WaiterState::Blocked { misses: (misses + 1) as u32 }
            } else {
                WaiterState::Expired
            }
        },
    }
}

/// Entering a submission: only an idle connection may submit.
pub fn on_submit(state: WaiterState) -> (s2: WaiterState)
    requires
        state is Idle,
    ensures
        s2 is Submitted,
{
    WaiterState::Submitted
}

/// After the append: the waiter blocks on the broadcast with no miss yet.
pub fn on_appended(state: WaiterState, cfg: WaiterConfig) -> (s2: WaiterState)
    requires
        state is Submitted,
        cfg.max_wakes > 0,
    ensures
        s2 == (WaiterState::Blocked { misses: 0u32 }),
        state_wf(s2, cfg),
{
    WaiterState::Blocked { misses: 0 }
}

/// One broadcast wakeup: the waiter has claimed its own key once and hands
/// the outcome here. A hit delivers exactly the claimed results; a miss
/// re-blocks, or expires once the policy's bound is reached — it never
/// delivers anything, least of all another submitter's data.
pub fn on_wake(state: WaiterState, claimed: Option<Vec<SimilarityResult>>, cfg: WaiterConfig) -> (r:
    (WaiterState, WakeOutcome))
    requires
        state matches WaiterState::Blocked { misses },
        state_wf(state, cfg),
    ensures
        r.0 == wake_state(
            state,
            match claimed {
                Some(v) => Some(scored_view(v@)),
                None => None,
            },
            cfg,
        ),
        state_wf(r.0, cfg),
        r.1 is Deliver <==> claimed is Some,
        claimed matches Some(v) ==> r.1 == WakeOutcome::Deliver(v),
        claimed is None ==> (r.0 is Blocked || r.0 is Expired),
{
    match claimed {
        Some(v) => (WaiterState::Delivered, WakeOutcome::Deliver(v)),
        None => {
            let misses = match state {
                WaiterState::Blocked { misses } => misses,
                _ => 0,
            };
            if misses + 1 < cfg.max_wakes {
                (WaiterState::Blocked { misses: misses + 1 }, WakeOutcome::KeepWaiting)
            } else {
                (WaiterState::Expired, WakeOutcome::Expire)
            }
        },
    }
}

/// Leaving a finished submission: delivered or expired, the connection is
/// idle again and may submit anew.
pub fn on_finished(state: WaiterState) -> (s2: WaiterState)
    requires
        state is Delivered || state is Expired,
    ensures
        s2 is Idle,
{
    WaiterState::Idle
}

/// Law: a waiter that blocks through two broadcasts in neither of which its
/// own key was claimable stays blocked or expires; neither wakeup delivers
/// anything, so it can never transmit another submitter's data.
pub proof fn lemma_two_missed_broadcasts(misses: u32, cfg: WaiterConfig)
    requires
        misses < cfg.max_wakes,
    ensures
        ({
            let s1 = wake_state(WaiterState::Blocked { misses }, None, cfg);
            &&& (s1 is Blocked || s1 is Expired)
            &&& state_wf(s1, cfg)
            &&& (s1 is Blocked ==> {
                let s2 = wake_state(s1, None, cfg);
                &&& (s2 is Blocked || s2 is Expired)
                &&& state_wf(s2, cfg)
            })
        }),
{
}

/// The acknowledgment sent back to a producer: how many events were accepted
/// into the buffer.
#[derive(Debug)]
pub struct Ack {
    pub status: String,
    pub received: usize,
}

/// Builds the acknowledgment for an accepted batch.
pub fn ack_for(received: usize) -> (r: Ack)
    ensures
        r.status@ == "success"@,
        r.received == received,
{
    Ack { status: String::from_str("success"), received }
}

/// Re-keys an inbound batch to the authenticated submitter: every event
/// keeps its identifier, text and display name, but carries the submitter
/// resolved by the credential collaborator, whatever the frame claimed.
pub fn rekey_tweets(payload: &TweetPayload, user_id: &str) -> (r: TweetPayload)
    ensures
        r@.len() == payload@.len(),
        forall|i: int|
            0 <= i < r@.len() ==> {
                &&& (#[trigger] r@[i]).user_id == user_id@
                &&& r@[i].id == payload@[i].id
                &&& r@[i].text == payload@[i].text
                &&& r@[i].username == payload@[i].username
            },
{
    let mut tweets: Vec<Tweet> = Vec::new();
    let mut i: usize = 0;
    while i < payload.tweets.len()
        invariant
            i <= payload.tweets@.len(),
            tweets@.len() == i as int,
            forall|j: int|
                0 <= j < i ==> {
                    &&& (#[trigger] tweets@[j]@).user_id == user_id@
                    &&& tweets@[j]@.id == payload@[j].id
                    &&& tweets@[j]@.text == payload@[j].text
                    &&& tweets@[j]@.username == payload@[j].username
                },
        decreases payload.tweets@.len() - i,
    {
        let t = &payload.tweets[i];
        tweets.push(
            Tweet {
                user_id: user_id.to_owned(),
                id: match &t.id {
                    Some(s) => Some(s.clone()),
                    None => None,
                },
                text: t.text.clone(),
                username: t.username.clone(),
            },
        );
        i += 1;
    }
    TweetPayload { tweets }
}

} // verus!
