use tweet_pipeline::buffer::BatchBuffer;
use tweet_pipeline::conversion::{
    build_save_points, hashmap_score_user, into_compatible, unique_custom_id, unique_point_id,
    unique_user_id,
};
use tweet_pipeline::models::internal::{Tweet, TweetPayload};
use tweet_pipeline::models::response::{EmbeddingData, EmbeddingResponse, Tokens};
use tweet_pipeline::models::similarity_result::{Payload, Point, ResultItem, Root};
use tweet_pipeline::runner::{complete_cycle, plan_tick, prepare_queries, texts_of, CycleError, TickAction};
use tweet_pipeline::store::ResultStore;

fn tweet(user: &str, text: &str) -> Tweet {
    Tweet {
        user_id: user.to_string(),
        id: None,
        text: text.to_string(),
        username: format!("{}-name", user),
    }
}

fn embedding_response(vectors: Vec<Vec<u32>>) -> EmbeddingResponse {
    EmbeddingResponse {
        object: "list".to_string(),
        data: vectors
            .into_iter()
            .enumerate()
            .map(|(i, v)| EmbeddingData {
                object: "embedding".to_string(),
                embedding: v,
                index: i as u32,
            })
            .collect(),
        model: "test-model".to_string(),
        usage: Tokens { prompt_tokens: 2, total_tokens: 2 },
    }
}

fn match_list(scores: Vec<Option<f32>>) -> Root {
    Root {
        result: scores
            .into_iter()
            .map(|s| ResultItem {
                points: match s {
                    Some(score) => vec![Point {
                        id: "p".to_string(),
                        version: 1,
                        score: score.to_bits(),
                        payload: Payload { user_id: "u".to_string(), text: "t".to_string() },
                    }],
                    None => Vec::new(),
                },
            })
            .collect(),
        status: "ok".to_string(),
    }
}

#[test]
fn appends_then_drain_returns_everything_once() {
    let mut buffer = BatchBuffer::new();
    buffer.append(&TweetPayload { tweets: vec![tweet("a", "hi")] });
    buffer.append(&TweetPayload { tweets: vec![tweet("b", "yo"), tweet("a", "again")] });
    assert_eq!(buffer.len(), 3);
    let snapshot = buffer.drain_snapshot();
    let texts: Vec<String> = snapshot.tweets.iter().map(|t| t.text.clone()).collect();
    assert_eq!(texts, vec!["hi".to_string(), "yo".to_string(), "again".to_string()]);
    assert_eq!(buffer.len(), 0);
}

#[test]
fn drain_after_drain_is_empty() {
    let mut buffer = BatchBuffer::new();
    buffer.append(&TweetPayload { tweets: vec![tweet("a", "hi")] });
    let first = buffer.drain_snapshot();
    assert_eq!(first.tweets.len(), 1);
    let second = buffer.drain_snapshot();
    assert_eq!(second.tweets.len(), 0);
}

#[test]
fn full_cycle_delivers_per_submitter_results() {
    // Producer appends events for "a" and "b" before a tick; the embedding
    // collaborator answers [v1, v2]; similarity scores them 0.9 and 0.2.
    let mut buffer = BatchBuffer::new();
    buffer.append(&TweetPayload { tweets: vec![tweet("a", "hi")] });
    buffer.append(&TweetPayload { tweets: vec![tweet("b", "yo")] });
    let snapshot = buffer.drain_snapshot();
    assert!(matches!(plan_tick(&snapshot), TickAction::Process));

    let texts = texts_of(&snapshot);
    assert_eq!(texts, vec!["hi".to_string(), "yo".to_string()]);

    let response = embedding_response(vec![vec![1, 2], vec![3, 4]]);
    let request = prepare_queries(&snapshot, Some(&response)).expect("lengths match");
    assert_eq!(request.searches.len(), 2);

    let root = match_list(vec![Some(0.9), Some(0.2)]);
    let mut store = ResultStore::new();
    complete_cycle(&mut store, &snapshot, Some(&root)).expect("search succeeded");

    let for_a = store.try_claim(&"a".to_string()).expect("entry for a");
    assert_eq!(for_a.len(), 1);
    assert_eq!(for_a[0].text, "hi");
    assert_eq!(for_a[0].score, 0.9f32.to_bits());
    assert_eq!(for_a[0].id, "Default_ID_Value");

    let for_b = store.try_claim(&"b".to_string()).expect("entry for b");
    assert_eq!(for_b.len(), 1);
    assert_eq!(for_b[0].text, "yo");
    assert_eq!(for_b[0].score, 0.2f32.to_bits());
}

#[test]
fn empty_snapshot_backs_off() {
    let mut buffer = BatchBuffer::new();
    let snapshot = buffer.drain_snapshot();
    assert!(matches!(plan_tick(&snapshot), TickAction::Backoff));
}

#[test]
fn short_vector_list_aborts_cycle_without_publish() {
    // The embedding collaborator answers fewer vectors than events: the
    // cycle aborts and the store is left exactly as it was.
    let batch = TweetPayload { tweets: vec![tweet("a", "hi"), tweet("b", "yo")] };
    let response = embedding_response(vec![vec![1, 2]]);
    let r = prepare_queries(&batch, Some(&response));
    assert_eq!(r.unwrap_err(), CycleError::LengthMismatch);

    let mut store = ResultStore::new();
    let mut seeded = ResultStore::new();
    seeded.push_result(
        "old".to_string(),
        tweet_pipeline::models::similarity_result::SimilarityResult {
            id: "i".to_string(),
            text: "t".to_string(),
            score: 1,
        },
    );
    store.publish(seeded);

    // The similarity collaborator failing likewise changes nothing.
    let failed = complete_cycle(&mut store, &batch, None);
    assert_eq!(failed.unwrap_err(), CycleError::SearchFailed);
    let still_there = store.try_claim(&"old".to_string());
    assert!(still_there.is_some());
}

#[test]
fn embedding_failure_aborts_cycle() {
    let batch = TweetPayload { tweets: vec![tweet("a", "hi")] };
    let r = prepare_queries(&batch, None);
    assert_eq!(r.unwrap_err(), CycleError::EmbeddingFailed);
}

#[test]
fn queries_filter_to_each_events_submitter() {
    let batch = TweetPayload { tweets: vec![tweet("a", "hi"), tweet("b", "yo")] };
    let response = embedding_response(vec![vec![7], vec![9]]);
    let request = into_compatible(&batch, &response);
    assert_eq!(request.searches.len(), 2);
    for (i, expected_user) in ["a", "b"].iter().enumerate() {
        let q = &request.searches[i];
        assert_eq!(q.limit, 1);
        assert!(q.with_payload);
        assert_eq!(q.filter.must.len(), 1);
        assert_eq!(q.filter.must[0].key, "user_id");
        assert_eq!(q.filter.must[0].match_value.value, *expected_user);
    }
    assert_eq!(request.searches[0].query, vec![7]);
    assert_eq!(request.searches[1].query, vec![9]);
}

#[test]
fn events_without_match_produce_no_result() {
    let batch = TweetPayload { tweets: vec![tweet("a", "hi"), tweet("b", "yo")] };
    let root = match_list(vec![None, Some(0.5)]);
    let mut mapping = hashmap_score_user(&root, &batch);
    assert!(mapping.try_claim(&"a".to_string()).is_none());
    let for_b = mapping.try_claim(&"b".to_string()).expect("b matched");
    assert_eq!(for_b[0].score, 0.5f32.to_bits());
}

#[test]
fn same_submitter_keeps_event_order() {
    let batch = TweetPayload { tweets: vec![tweet("a", "first"), tweet("a", "second")] };
    let root = match_list(vec![Some(0.4), Some(0.6)]);
    let mut mapping = hashmap_score_user(&root, &batch);
    let for_a = mapping.try_claim(&"a".to_string()).expect("two results");
    assert_eq!(for_a.len(), 2);
    assert_eq!(for_a[0].text, "first");
    assert_eq!(for_a[1].text, "second");
}

#[test]
fn event_with_external_id_keeps_it_in_results() {
    let mut t = tweet("a", "hi");
    t.id = Some("ext-1".to_string());
    let batch = TweetPayload { tweets: vec![t] };
    let root = match_list(vec![Some(0.3)]);
    let mut mapping = hashmap_score_user(&root, &batch);
    let for_a = mapping.try_claim(&"a".to_string()).expect("matched");
    assert_eq!(for_a[0].id, "ext-1");
}

#[test]
fn unique_ids_are_the_namespaced_uuids() {
    // The identifiers must be exactly the version-5 UUIDs of the combined
    // names, so handing the input back unchanged would fail here.
    let expected_point =
        uuid::Uuid::new_v5(&uuid::Uuid::NAMESPACE_OID, "alice:42".as_bytes()).to_string();
    assert_eq!(unique_point_id("alice", "42"), expected_point);

    let expected_custom =
        uuid::Uuid::new_v5(&uuid::Uuid::NAMESPACE_OID, "alice:custom:hello".as_bytes()).to_string();
    assert_eq!(unique_custom_id("alice", "hello"), expected_custom);

    let expected_user = uuid::Uuid::new_v5(&uuid::Uuid::NAMESPACE_OID, "alice".as_bytes()).to_string();
    assert_eq!(unique_user_id("alice"), expected_user);
    assert_eq!(unique_user_id("alice").len(), 36);
    assert_ne!(unique_user_id("alice"), "alice");
}

#[test]
fn save_points_pair_events_with_vectors() {
    let mut with_id = tweet("claimed", "hi");
    with_id.id = Some("42".to_string());
    let without_id = tweet("claimed", "yo");
    let batch = TweetPayload { tweets: vec![with_id, without_id] };
    let response = embedding_response(vec![vec![1], vec![2]]);
    let req = build_save_points(&batch, &response, "alice").expect("lengths match");
    assert_eq!(req.points.len(), 2);

    // With an external identifier: derived from the authenticated user.
    let expected0 =
        uuid::Uuid::new_v5(&uuid::Uuid::NAMESPACE_OID, "alice:42".as_bytes()).to_string();
    assert_eq!(req.points[0].id.as_deref(), Some(expected0.as_str()));
    // Without one: derived from the event's own claimed submitter and text.
    let expected1 =
        uuid::Uuid::new_v5(&uuid::Uuid::NAMESPACE_OID, "claimed:custom:yo".as_bytes()).to_string();
    assert_eq!(req.points[1].id.as_deref(), Some(expected1.as_str()));

    // The stored payload is keyed to the authenticated user regardless.
    assert_eq!(req.points[0].payload.user_id, "alice");
    assert_eq!(req.points[1].payload.user_id, "alice");
    assert_eq!(req.points[0].vector, vec![1]);
    assert_eq!(req.points[1].vector, vec![2]);
}

#[test]
fn save_points_reject_length_mismatch() {
    let batch = TweetPayload { tweets: vec![tweet("a", "hi"), tweet("b", "yo")] };
    let response = embedding_response(vec![vec![1]]);
    assert!(build_save_points(&batch, &response, "alice").is_none());
}
