//! The result store: a keyed holding area for computed results with claim and
//! eviction semantics.
//!
//! Its mathematical model is a map from submitter identifier to the ordered
//! results computed for that submitter. `publish` replaces the whole mapping,
//! `try_claim` atomically removes one submitter's entry, and `clear` empties
//! the store unconditionally. The surrounding process guards one `ResultStore`
//! with a lock held only for the instant of one call, and pairs `publish`
//! with one broadcast wakeup to all blocked waiters.

use vstd::prelude::*;

use crate::models::similarity_result::{scored_view, ScoredView, SimilarityResult};

verus! {

/// One live entry: a submitter and the results computed for it this cycle.
#[derive(Debug)]
pub struct StoreEntry {
    pub key: String,
    pub results: Vec<SimilarityResult>,
}

/// No two entries are for the same submitter.
pub open spec fn entry_keys_unique(s: Seq<StoreEntry>) -> bool {
    forall|i: int, j: int| 0 <= i < j < s.len() ==> s[i].key@ != s[j].key@
}

/// The mapping an entry sequence stands for.
pub open spec fn entries_map(s: Seq<StoreEntry>) -> Map<Seq<char>, Seq<ScoredView>>
    decreases s.len(),
{
    if s.len() == 0 {
        Map::empty()
    } else {
        entries_map(s.drop_last()).insert(s.last().key@, scored_view(s.last().results@))
    }
}

/// Whether some entry of `s` carries the key `k`.
pub open spec fn entries_have_key(s: Seq<StoreEntry>, k: Seq<char>) -> bool {
    exists|i: int| 0 <= i < s.len() && s[i].key@ == k
}

/// What one claim does to a published mapping: a present entry is returned
/// and removed, an absent key changes nothing.
pub open spec fn claim_spec(m: Map<Seq<char>, Seq<ScoredView>>, k: Seq<char>) -> (Option<
    Seq<ScoredView>,
>, Map<Seq<char>, Seq<ScoredView>>) {
    if m.contains_key(k) {
        (Some(m[k]), m.remove(k))
    } else {
        (None, m)
    }
}

/// Adding one scored result under a key: appended to the key's results if the
/// key is live, else the key becomes live with just this result.
pub open spec fn push_into(
    m: Map<Seq<char>, Seq<ScoredView>>,
    k: Seq<char>,
    v: ScoredView,
) -> Map<Seq<char>, Seq<ScoredView>> {
    if m.contains_key(k) {
        m.insert(k, m[k].push(v))
    } else {
        m.insert(k, seq![v])
    }
}

proof fn lemma_map_domain(s: Seq<StoreEntry>, k: Seq<char>)
    ensures
        entries_map(s).contains_key(k) <==> entries_have_key(s, k),
    decreases s.len(),
{
    if s.len() == 0 {
    } else {
        lemma_map_domain(s.drop_last(), k);
        if entries_have_key(s.drop_last(), k) {
            let i = choose|i: int| 0 <= i < s.drop_last().len() && s.drop_last()[i].key@ == k;
            assert(s[i].key@ == k);
        }
        if entries_have_key(s, k) && s.last().key@ != k {
            let i = choose|i: int| 0 <= i < s.len() && s[i].key@ == k;
            assert(s.drop_last()[i].key@ == k);
        }
    }
}

proof fn lemma_map_at(s: Seq<StoreEntry>, i: int)
    requires
        entry_keys_unique(s),
        0 <= i < s.len(),
    ensures
        entries_map(s).contains_key(s[i].key@),
        entries_map(s)[s[i].key@] == scored_view(s[i].results@),
    decreases s.len(),
{
    if i == s.len() - 1 {
    } else {
        assert(entry_keys_unique(s.drop_last()));
        assert(s.drop_last()[i] == s[i]);
        lemma_map_at(s.drop_last(), i);
        assert(s[i].key@ != s.last().key@);
    }
}

proof fn lemma_unique_remove(s: Seq<StoreEntry>, i: int)
    requires
        entry_keys_unique(s),
        0 <= i < s.len(),
    ensures
        entry_keys_unique(s.remove(i)),
{
    assert forall|p: int, q: int| 0 <= p < q < s.remove(i).len() implies s.remove(i)[p].key@ != s.remove(
        i,
    )[q].key@ by {
        let p0 = if p < i {
            p
        } else {
            p + 1
        };
        let q0 = if q < i {
            q
        } else {
            q + 1
        };
        assert(s.remove(i)[p] == s[p0]);
        assert(s.remove(i)[q] == s[q0]);
    }
}

proof fn lemma_map_remove(s: Seq<StoreEntry>, i: int)
    requires
        entry_keys_unique(s),
        0 <= i < s.len(),
    ensures
        entries_map(s.remove(i)) == entries_map(s).remove(s[i].key@),
    decreases s.len(),
{
    let k = s[i].key@;
    if i == s.len() - 1 {
        assert(s.remove(i) =~= s.drop_last());
        lemma_map_domain(s.drop_last(), k);
        assert(forall|j: int| 0 <= j < s.drop_last().len() ==> s.drop_last()[j] == s[j]);
        assert(!entries_have_key(s.drop_last(), k));
        assert(entries_map(s.drop_last()) =~= entries_map(s).remove(k));
    } else {
        let s1 = s.remove(i);
        assert(s1.last() == s.last());
        assert(s1.drop_last() =~= s.drop_last().remove(i));
        assert(entry_keys_unique(s.drop_last()));
        lemma_map_remove(s.drop_last(), i);
        assert(s.drop_last()[i] == s[i]);
        assert(k != s.last().key@);
        assert(entries_map(s.drop_last()).remove(k).insert(
            s.last().key@,
            scored_view(s.last().results@),
        ) =~= entries_map(s).remove(k));
    }
}

proof fn lemma_map_update(s: Seq<StoreEntry>, s2: Seq<StoreEntry>, i: int)
    requires
        entry_keys_unique(s),
        0 <= i < s.len(),
        s2.len() == s.len(),
        forall|j: int| 0 <= j < s.len() && j != i ==> s2[j] == s[j],
        s2[i].key@ == s[i].key@,
    ensures
        entries_map(s2) == entries_map(s).insert(s[i].key@, scored_view(s2[i].results@)),
    decreases s.len(),
{
    let k = s[i].key@;
    if i == s.len() - 1 {
        assert(s2.drop_last() =~= s.drop_last());
        assert(entries_map(s2) =~= entries_map(s).insert(k, scored_view(s2[i].results@)));
    } else {
        assert(s2.last() == s.last());
        assert(entry_keys_unique(s.drop_last()));
        assert(forall|j: int|
            0 <= j < s.drop_last().len() && j != i ==> s2.drop_last()[j] == s.drop_last()[j]);
        assert(s2.drop_last()[i] == s2[i]);
        assert(s.drop_last()[i] == s[i]);
        lemma_map_update(s.drop_last(), s2.drop_last(), i);
        assert(k != s.last().key@);
        assert(entries_map(s2) =~= entries_map(s).insert(k, scored_view(s2[i].results@)));
    }
}

/// Keyed holding area: submitter identifier to that submitter's ordered
/// results, at most one live entry per submitter.
#[derive(Debug)]
pub struct ResultStore {
    entries: Vec<StoreEntry>,
}

impl View for ResultStore {
    type V = Map<Seq<char>, Seq<ScoredView>>;

    closed spec fn view(&self) -> Map<Seq<char>, Seq<ScoredView>> {
        entries_map(self.entries@)
    }
}

impl ResultStore {
    /// At most one live entry per submitter.
    pub closed spec fn wf(&self) -> bool {
        entry_keys_unique(self.entries@)
    }

    /// An empty store.
    pub fn new() -> (r: ResultStore)
        ensures
            r.wf(),
            r@ == Map::<Seq<char>, Seq<ScoredView>>::empty(),
    {
        ResultStore { entries: Vec::new() }
    }

    fn find_index(&self, key: &String) -> (r: Option<usize>)
        ensures
            match r {
                Some(i) => i < self.entries@.len() && self.entries@[i as int].key@ == key@,
                None => !entries_have_key(self.entries@, key@),
            },
    {
        let mut i: usize = 0;
        while i < self.entries.len()
            invariant
                i <= self.entries@.len(),
                forall|j: int| 0 <= j < i ==> self.entries@[j].key@ != key@,
            decreases self.entries@.len() - i,
        {
            let e = &self.entries[i];
            if e.key == *key {
                return Some(i);
            }
            i += 1;
        }
        None
    }

    /// Whether the submitter currently has a live entry.
    pub fn contains(&self, key: &String) -> (r: bool)
        ensures
            r == self@.contains_key(key@),
    {
        proof {
            lemma_map_domain(self.entries@, key@);
        }
        match self.find_index(key) {
            Some(_) => true,
            None => false,
        }
    }

    /// Replaces (does not merge) the store's contents with `results`. The
    /// caller pairs this with a single broadcast wakeup to every blocked
    /// waiter, whether or not its key is present.
    pub fn publish(&mut self, results: ResultStore)
        requires
            results.wf(),
        ensures
            final(self).wf(),
            final(self)@ == results@,
    {
        self.entries = results.entries;
    }

    /// Atomically checks for and removes this submitter's entry: returns it
    /// if present, or signals "not yet available" if absent, leaving the
    /// store unchanged.
    pub fn try_claim(&mut self, submitter: &String) -> (r: Option<Vec<SimilarityResult>>)
        requires
            old(self).wf(),
        ensures
            final(self).wf(),
            match r {
                Some(v) => old(self)@.contains_key(submitter@) && scored_view(v@) == old(self)@[submitter@]
                    && final(self)@ == old(self)@.remove(submitter@),
                None => !old(self)@.contains_key(submitter@) && final(self)@ == old(self)@,
            },
            claim_spec(old(self)@, submitter@) == (
                match r {
                    Some(v) => Some(scored_view(v@)),
                    None => None::<Seq<ScoredView>>,
                },
                final(self)@,
            ),
    {
        proof {
            lemma_map_domain(self.entries@, submitter@);
        }
        match self.find_index(submitter) {
            Some(i) => {
                proof {
                    lemma_map_at(self.entries@, i as int);
                    lemma_map_remove(self.entries@, i as int);
                    lemma_unique_remove(self.entries@, i as int);
                }
                let e = self.entries.remove(i);
                Some(e.results)
            },
            None => None,
        }
    }

    /// Unconditionally empties the store, claimed or not. The runner invokes
    /// this a fixed delay after each `publish`, so delivery is best-effort: a
    /// slow waiter may find its entry already gone.
    pub fn clear(&mut self)
        ensures
            final(self).wf(),
            final(self)@ == Map::<Seq<char>, Seq<ScoredView>>::empty(),
    {
        self.entries.clear();
    }

    /// Adds one scored result for `key`, after any results the key already
    /// has this cycle; used by the runner while it folds a batch's matches
    /// into per-submitter result lists.
    pub fn push_result(&mut self, key: String, item: SimilarityResult)
        requires
            old(self).wf(),
        ensures
            final(self).wf(),
            final(self)@ == push_into(old(self)@, key@, item@),
    {
        let ghost s = self.entries@;
        proof {
            lemma_map_domain(s, key@);
        }
        match self.find_index(&key) {
            Some(i) => {
                proof {
                    lemma_map_at(s, i as int);
                }
                let mut e = self.entries.remove(i);
                e.results.push(item);
                self.entries.insert(i, e);
                proof {
                    let s2 = self.entries@;
                    assert(s2.len() == s.len());
                    assert(forall|j: int| 0 <= j < s.len() && j != i ==> s2[j] == s[j]);
                    lemma_map_update(s, s2, i as int);
                    assert(scored_view(s2[i as int].results@) =~= scored_view(
                        s[i as int].results@,
                    ).push(item@));
                    assert forall|p: int, q: int| 0 <= p < q < s2.len() implies s2[p].key@
                        != s2[q].key@ by {
                        assert(s2[p].key@ == s[p].key@ && s2[q].key@ == s[q].key@);
                    }
                }
            },
            None => {
                let mut results: Vec<SimilarityResult> = Vec::new();
                results.push(item);
                self.entries.push(StoreEntry { key, results });
                proof {
                    let s2 = self.entries@;
                    assert(s2.drop_last() =~= s);
                    assert(scored_view(s2.last().results@) =~= seq![item@]);
                    assert(entries_map(s2) == push_into(entries_map(s), s2.last().key@, item@));
                    assert forall|p: int, q: int| 0 <= p < q < s2.len() implies s2[p].key@
                        != s2[q].key@ by {
                        if q == s2.len() - 1 {
                            assert(s2[p] == s[p]);
                        }
                    }
                }
            },
        }
    }
}

/// Law: a published entry is claimable exactly once. After `publish(m)`, a
/// claim for a key of `m` returns that key's results and removes the entry,
/// and a second claim for the same key signals "absent" and changes nothing.
pub proof fn lemma_claim_exactly_once(m: Map<Seq<char>, Seq<ScoredView>>, k: Seq<char>)
    requires
        m.contains_key(k),
    ensures
        claim_spec(m, k).0 == Some(m[k]),
        claim_spec(m, k).1 == m.remove(k),
        claim_spec(claim_spec(m, k).1, k).0 is None,
        claim_spec(claim_spec(m, k).1, k).1 == m.remove(k),
{
}

/// Law: claims for two distinct keys are independent: each returns the same
/// entry, and the store ends in the same state, whichever order the two
/// claims are serialized in.
pub proof fn lemma_distinct_claims_commute(
    m: Map<Seq<char>, Seq<ScoredView>>,
    k1: Seq<char>,
    k2: Seq<char>,
)
    requires
        k1 != k2,
    ensures
        claim_spec(claim_spec(m, k2).1, k1).0 == claim_spec(m, k1).0,
        claim_spec(claim_spec(m, k1).1, k2).0 == claim_spec(m, k2).0,
        claim_spec(claim_spec(m, k1).1, k2).1 == claim_spec(claim_spec(m, k2).1, k1).1,
{
    if m.contains_key(k1) && m.contains_key(k2) {
        assert(m.remove(k1).remove(k2) =~= m.remove(k2).remove(k1));
    }
}

/// Law: `clear` forgets every entry, claimed or not: a claim for any key
/// afterwards signals "absent" and changes nothing.
pub proof fn lemma_claim_after_clear(k: Seq<char>)
    ensures
        claim_spec(Map::<Seq<char>, Seq<ScoredView>>::empty(), k).0 is None,
        claim_spec(Map::<Seq<char>, Seq<ScoredView>>::empty(), k).1 == Map::<Seq<char>, Seq<
            ScoredView,
        >>::empty(),
{
}

} // verus!
