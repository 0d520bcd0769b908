//! The batch buffer: the append-only collection of pending events that
//! concurrent producers write into and that the runner drains atomically.
//!
//! The surrounding process guards one `BatchBuffer` with a lock and holds it
//! only for the instant of one `append` or one `drain_snapshot`; the lock
//! serializes those calls, so each call here sees and states the whole effect
//! of one critical section.

use vstd::multiset::Multiset;
use vstd::prelude::*;

use crate::models::internal::{tweets_view, Tweet, TweetPayload, TweetView};

verus! {

/// Pending events between two drains, in insertion order.
#[derive(Debug)]
pub struct BatchBuffer {
    tweets: Vec<Tweet>,
}

impl View for BatchBuffer {
    type V = Seq<TweetView>;

    closed spec fn view(&self) -> Seq<TweetView> {
        tweets_view(self.tweets@)
    }
}

impl BatchBuffer {
    /// A buffer with no pending events.
    pub fn new() -> (r: BatchBuffer)
        ensures
            r@ == Seq::<TweetView>::empty(),
    {
        BatchBuffer { tweets: Vec::new() }
    }

    /// How many events are pending.
    pub fn len(&self) -> (n: usize)
        ensures
            n == self@.len(),
    {
        self.tweets.len()
    }

    /// Adds exactly the events of `payload`, in their order, after the events
    /// already pending: nothing is lost, nothing is duplicated.
    pub fn append(&mut self, payload: &TweetPayload)
        ensures
            final(self)@ == old(self)@ + payload@,
    {
        let ghost base = self.tweets@;
        let mut i: usize = 0;
        while i < payload.tweets.len()
            invariant
                i <= payload.tweets.len(),
                self.tweets@.len() == base.len() + i,
                forall|j: int| 0 <= j < base.len() ==> self.tweets@[j] == base[j],
                forall|j: int|
                    0 <= j < i ==> self.tweets@[base.len() + j] == payload.tweets@[j],
            decreases payload.tweets.len() - i,
        {
            let t = payload.tweets[i].clone();
            self.tweets.push(t);
            i += 1;
        }
        proof {
            assert(self.tweets@ =~= base + payload.tweets@);
            assert(tweets_view(base + payload.tweets@) =~= tweets_view(base) + tweets_view(
                payload.tweets@,
            ));
        }
    }

    /// Atomically removes and returns all pending events, leaving the buffer
    /// empty. On an empty buffer this returns an empty batch, not an error.
    pub fn drain_snapshot(&mut self) -> (snapshot: TweetPayload)
        ensures
            snapshot@ == old(self)@,
            final(self)@ == Seq::<TweetView>::empty(),
            (snapshot@, final(self)@) == drain_spec(old(self)@),
    {
        let mut taken: Vec<Tweet> = Vec::new();
        core::mem::swap(&mut self.tweets, &mut taken);
        proof {
            assert(tweets_view(Seq::<Tweet>::empty()) =~= Seq::<TweetView>::empty());
        }
        TweetPayload { tweets: taken }
    }
}

/// What one drain does: it returns everything pending and leaves nothing.
pub open spec fn drain_spec(pending: Seq<TweetView>) -> (Seq<TweetView>, Seq<TweetView>) {
    (pending, Seq::empty())
}

/// Law: a drain immediately after a drain returns an empty batch — the
/// first drain leaves nothing pending for the second to return.
pub proof fn lemma_drain_after_drain(pending: Seq<TweetView>)
    ensures
        drain_spec(drain_spec(pending).1).0 == Seq::<TweetView>::empty(),
{
}

/// The concatenation of every batch appended between two drains, in the order
/// the appends were serialized.
pub open spec fn appended_in_order(batches: Seq<Seq<TweetView>>) -> Seq<TweetView>
    decreases batches.len(),
{
    if batches.len() == 0 {
        Seq::empty()
    } else {
        appended_in_order(batches.drop_last()) + batches.last()
    }
}

/// The multiset union of the same batches, which forgets the interleaving.
pub open spec fn appended_multiset(batches: Seq<Seq<TweetView>>) -> Multiset<TweetView>
    decreases batches.len(),
{
    if batches.len() == 0 {
        Multiset::empty()
    } else {
        appended_multiset(batches.drop_last()).add(batches.last().to_multiset())
    }
}

/// Law: however a sequence of `append` calls was interleaved, the buffer then
/// holds their concatenation in that serialization order ([`BatchBuffer::append`]),
/// and one `drain_snapshot` returns exactly that content; as a multiset the
/// snapshot is the union of all appended batches, each event exactly once —
/// no loss and no duplication.
pub proof fn lemma_drained_snapshot_is_every_append(batches: Seq<Seq<TweetView>>)
    ensures
        appended_in_order(batches).to_multiset() == appended_multiset(batches),
    decreases batches.len(),
{
    if batches.len() == 0 {
        broadcast use vstd::seq_lib::group_to_multiset_ensures;
        broadcast use vstd::multiset::lemma_multiset_empty_len;

        assert(appended_in_order(batches).to_multiset() =~= Multiset::<TweetView>::empty());
    } else {
        lemma_drained_snapshot_is_every_append(batches.drop_last());
        vstd::seq_lib::lemma_multiset_commutative(
            appended_in_order(batches.drop_last()),
            batches.last(),
        );
        assert(appended_in_order(batches).to_multiset() =~= appended_multiset(batches));
    }
}

} // verus!
