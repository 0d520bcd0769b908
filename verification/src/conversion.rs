//! Conversions along the pipeline: stable point identifiers, the batch of
//! filtered similarity queries built from one embedding answer, and the fold
//! of ranked matches into per-submitter result lists.

use vstd::prelude::*;
use vstd::string::StringExecFns;

use crate::models::internal::{PointVector, QdrantReqeust, TweetPayload, TweetView, UserData};
use crate::models::middleware::{FilterType, KeyValue, Must, PointSearchVectors, SearchRequest};
use crate::models::response::EmbeddingResponse;
use crate::models::similarity_result::{Root, ResultItem, ScoredView, SimilarityResult};
use crate::store::{push_into, ResultStore};

verus! {

/// Name for the value `uuid::Uuid::new_v5` derives, under the OID namespace,
/// from a name string, in its hyphenated text form. It is a deterministic
/// function of the name alone.
pub uninterp spec fn uuid_v5_of(name: Seq<char>) -> Seq<char>;

/// Relies on `uuid::Uuid::new_v5`: a version-5 UUID is the SHA-1 digest of
/// namespace and name, so a function of its arguments alone, and its default
/// text form (`Display`, the hyphenated form) is 36 characters.
#[verifier::external_body]
fn uuid_v5_oid(name: &str) -> (r: String)
    ensures
        r@ == uuid_v5_of(name@),
        r@.len() == 36,
{
    uuid::Uuid::new_v5(&uuid::Uuid::NAMESPACE_OID, name.as_bytes()).to_string()
}

/// Stable identifier for an event that carries an external identifier:
/// derived from `submitter:external_id`.
pub fn unique_point_id(user_id: &str, tweet_id: &str) -> (r: String)
    ensures
        r@ == uuid_v5_of(user_id@ + ":"@ + tweet_id@),
        r@.len() == 36,
{
    let combined = user_id.to_owned().concat(":").concat(tweet_id);
    uuid_v5_oid(combined.as_str())
}

/// Stable identifier for an event without an external identifier: derived
/// from the submitter and the text itself.
pub fn unique_custom_id(user_id: &str, text: &str) -> (r: String)
    ensures
        r@ == uuid_v5_of(user_id@ + ":custom:"@ + text@),
        r@.len() == 36,
{
    let combined = user_id.to_owned().concat(":custom:").concat(text);
    uuid_v5_oid(combined.as_str())
}

/// Stable identifier for a submitter's own record.
pub fn unique_user_id(user_id: &str) -> (r: String)
    ensures
        r@ == uuid_v5_of(user_id@),
        r@.len() == 36,
{
    uuid_v5_oid(user_id)
}

fn copy_bits(v: &Vec<u32>) -> (r: Vec<u32>)
    ensures
        r@ == v@,
{
    let mut r: Vec<u32> = Vec::new();
    let mut i: usize = 0;
    while i < v.len()
        invariant
            i <= v@.len(),
            r@ == v@.subrange(0, i as int),
        decreases v@.len() - i,
    {
        r.push(v[i]);
        i += 1;
    }
    proof {
        assert(r@ =~= v@);
    }
    r
}

/// What each built similarity query must say: the event's embedding vector,
/// one single-match limit, the payload requested, and exactly one filter
/// condition pinning matches to the event's own submitter.
pub open spec fn query_for(q: PointSearchVectors, t: TweetView, embedding: Seq<u32>) -> bool {
    &&& q.query@ == embedding
    &&& q.with_payload == true
    &&& q.limit == 1u8
    &&& q.filter.must@.len() == 1
    &&& q.filter.must@[0].key@ == "user_id"@
    &&& q.filter.must@[0].match_value.value@ == t.user_id
}

/// Builds the batched similarity request for one drained batch: events and
/// vectors are paired in order, each query filtered to its own event's
/// submitter with a best-match-only limit.
pub fn into_compatible(payload: &TweetPayload, response: &EmbeddingResponse) -> (r: SearchRequest)
    ensures
        r.searches@.len() == vstd::math::min(
            payload.tweets@.len() as int,
            response.data@.len() as int,
        ),
        forall|i: int|
            0 <= i < r.searches@.len() ==> query_for(
                #[trigger] r.searches@[i],
                payload@[i],
                response.data@[i].embedding@,
            ),
{
    let n = if payload.tweets.len() < response.data.len() {
        payload.tweets.len()
    } else {
        response.data.len()
    };
    let mut searches: Vec<PointSearchVectors> = Vec::new();
    let mut i: usize = 0;
    while i < n
        invariant
            i <= n,
            n <= payload.tweets@.len(),
            n <= response.data@.len(),
            searches@.len() == i as int,
            forall|j: int|
                0 <= j < i ==> query_for(
                    #[trigger] searches@[j],
                    payload@[j],
                    response.data@[j].embedding@,
                ),
        decreases n - i,
    {
        let tweet = &payload.tweets[i];
        let embedding = &response.data[i];
        let q = PointSearchVectors {
            query: copy_bits(&embedding.embedding),
            filter: FilterType {
                must: vec![
                    Must {
                        key: String::from_str("user_id"),
                        match_value: KeyValue { value: tweet.user_id.clone() },
                    },
                ],
            },
            with_payload: true,
            limit: 1,
        };
        searches.push(q);
        i += 1;
    }
    SearchRequest { searches }
}

/// What each point saved on the synchronous path must hold: the event's
/// embedding vector, a stable identifier derived from the external identifier
/// when the event has one and from its text otherwise, and a payload keyed to
/// the authenticated user.
pub open spec fn point_for(
    p: PointVector,
    t: TweetView,
    embedding: Seq<u32>,
    auth_user: Seq<char>,
) -> bool {
    &&& p.vector@ == embedding
    &&& p.id matches Some(pid) && pid@ == (match t.id {
        Some(tid) => uuid_v5_of(auth_user + ":"@ + tid),
        None => uuid_v5_of(t.user_id + ":custom:"@ + t.text),
    })
    &&& p.payload.user_id@ == auth_user
    &&& p.payload.text@ == t.text
}

/// Builds the upsert request of the synchronous save path: one point per
/// event, paired in order with its vector, under the authenticated user.
/// A vector count different from the event count is rejected outright —
/// exactly then nothing is built.
pub fn build_save_points(
    payload: &TweetPayload,
    response: &EmbeddingResponse,
    auth_user_id: &str,
) -> (r: Option<QdrantReqeust>)
    ensures
        r is Some <==> response.data@.len() == payload@.len(),
        r matches Some(req) ==> {
            &&& req.points@.len() == payload@.len()
            &&& forall|i: int|
                0 <= i < req.points@.len() ==> point_for(
                    #[trigger] req.points@[i],
                    payload@[i],
                    response.data@[i].embedding@,
                    auth_user_id@,
                )
        },
{
    if response.data.len() != payload.tweets.len() {
        return None;
    }
    let mut points: Vec<PointVector> = Vec::new();
    let mut i: usize = 0;
    while i < payload.tweets.len()
        invariant
            i <= payload.tweets@.len(),
            response.data@.len() == payload.tweets@.len(),
            points@.len() == i as int,
            forall|j: int|
                0 <= j < i ==> point_for(
                    #[trigger] points@[j],
                    payload@[j],
                    response.data@[j].embedding@,
                    auth_user_id@,
                ),
        decreases payload.tweets@.len() - i,
    {
        let tweet = &payload.tweets[i];
        let embedding = &response.data[i];
        let final_id = match &tweet.id {
            Some(tid) => unique_point_id(auth_user_id, tid.as_str()),
            None => unique_custom_id(tweet.user_id.as_str(), tweet.text.as_str()),
        };
        let p = PointVector {
            id: Some(final_id),
            vector: copy_bits(&embedding.embedding),
            payload: UserData { user_id: auth_user_id.to_owned(), text: tweet.text.clone() },
        };
        points.push(p);
        i += 1;
    }
    Some(QdrantReqeust { points })
}

/// The best-match score of each ranked list, `None` where a query matched
/// nothing.
pub open spec fn first_scores(items: Seq<ResultItem>) -> Seq<Option<u32>> {
    items.map_values(
        |it: ResultItem|
            if it.points@.len() > 0 {
                Some(it.points@[0].score)
            } else {
                None
            },
    )
}

/// The scored result delivered for one event: the event's external identifier
/// (or the fixed placeholder where it has none), its text, and the best
/// match's score.
pub open spec fn result_of(t: TweetView, score: u32) -> ScoredView {
    ScoredView {
        id: match t.id {
            Some(s) => s,
            None => "Default_ID_Value"@,
        },
        text: t.text,
        score,
    }
}

/// The per-submitter mapping after folding the first `n` event/match pairs,
/// in event order: an event with a best match appends its scored result to
/// its submitter's list; an event without one contributes nothing.
pub open spec fn score_map_prefix(
    tweets: Seq<TweetView>,
    firsts: Seq<Option<u32>>,
    n: int,
) -> Map<Seq<char>, Seq<ScoredView>>
    decreases n,
{
    if n <= 0 {
        Map::empty()
    } else {
        let m = score_map_prefix(tweets, firsts, n - 1);
        match firsts[n - 1] {
            Some(sc) => push_into(m, tweets[n - 1].user_id, result_of(tweets[n - 1], sc)),
            None => m,
        }
    }
}

/// The complete per-submitter mapping for one cycle, pairing events with
/// ranked lists in order as far as both go.
pub open spec fn score_map(tweets: Seq<TweetView>, firsts: Seq<Option<u32>>) -> Map<
    Seq<char>,
    Seq<ScoredView>,
> {
    score_map_prefix(tweets, firsts, vstd::math::min(tweets.len() as int, firsts.len() as int))
}

/// Zips the ranked matches of one cycle with the batch's events and folds
/// them into per-submitter result lists, preserving each submitter's event
/// order.
pub fn hashmap_score_user(payload: &Root, user_payload: &TweetPayload) -> (r: ResultStore)
    ensures
        r.wf(),
        r@ == score_map(user_payload@, first_scores(payload.result@)),
{
    let n = if payload.result.len() < user_payload.tweets.len() {
        payload.result.len()
    } else {
        user_payload.tweets.len()
    };
    let mut store = ResultStore::new();
    let mut i: usize = 0;
    while i < n
        invariant
            i <= n,
            n <= payload.result@.len(),
            n <= user_payload.tweets@.len(),
            n == vstd::math::min(user_payload@.len() as int, first_scores(payload.result@).len() as int),
            store.wf(),
            store@ == score_map_prefix(user_payload@, first_scores(payload.result@), i as int),
        decreases n - i,
    {
        let item = &payload.result[i];
        let tweet = &user_payload.tweets[i];
        if item.points.len() > 0 {
            let first_score = item.points[0].score;
            let id = match &tweet.id {
                Some(t) => t.clone(),
                None => String::from_str("Default_ID_Value"),
            };
            let scored = SimilarityResult { id, text: tweet.text.clone(), score: first_score };
            proof {
                assert(scored@ == result_of(user_payload@[i as int], first_score));
                assert(first_scores(payload.result@)[i as int] == Some(first_score));
            }
            store.push_result(tweet.user_id.clone(), scored);
        } else {
            proof {
                assert(first_scores(payload.result@)[i as int] is None);
            }
        }
        i += 1;
    }
    store
}

} // verus!
