use tweet_pipeline::models::internal::TweetPayload;
use tweet_pipeline::models::similarity_result::SimilarityResult;
use tweet_pipeline::store::ResultStore;
use tweet_pipeline::waiter::{
    ack_for, on_appended, on_finished, on_submit, on_wake, rekey_tweets, WaiterConfig,
    WaiterState, WakeOutcome,
};

fn scored(text: &str, score: f32) -> SimilarityResult {
    SimilarityResult { id: "i".to_string(), text: text.to_string(), score: score.to_bits() }
}

#[test]
fn published_entry_claimed_exactly_once() {
    let mut published = ResultStore::new();
    published.push_result("k".to_string(), scored("hello", 0.7));
    let mut store = ResultStore::new();
    store.publish(published);

    let first = store.try_claim(&"k".to_string()).expect("present after publish");
    assert_eq!(first.len(), 1);
    assert_eq!(first[0].text, "hello");
    assert!(store.try_claim(&"k".to_string()).is_none());
}

#[test]
fn publish_replaces_rather_than_merges() {
    let mut old = ResultStore::new();
    old.push_result("stale".to_string(), scored("old", 0.1));
    let mut store = ResultStore::new();
    store.publish(old);

    let mut fresh = ResultStore::new();
    fresh.push_result("new".to_string(), scored("new", 0.2));
    store.publish(fresh);

    assert!(store.try_claim(&"stale".to_string()).is_none());
    assert!(store.try_claim(&"new".to_string()).is_some());
}

#[test]
fn clear_forgets_all_entries() {
    let mut store = ResultStore::new();
    store.push_result("a".to_string(), scored("x", 0.1));
    store.push_result("b".to_string(), scored("y", 0.2));
    store.clear();
    assert!(store.try_claim(&"a".to_string()).is_none());
    assert!(store.try_claim(&"b".to_string()).is_none());
}

#[test]
fn claims_for_distinct_keys_are_independent() {
    let mut store = ResultStore::new();
    store.push_result("a".to_string(), scored("x", 0.1));
    store.push_result("b".to_string(), scored("y", 0.2));
    assert!(store.contains(&"a".to_string()));
    assert!(store.contains(&"b".to_string()));
    assert!(store.try_claim(&"b".to_string()).is_some());
    // Claiming one key leaves the other's entry untouched.
    assert!(store.contains(&"a".to_string()));
    assert!(store.try_claim(&"a".to_string()).is_some());
}

#[test]
fn waiter_misses_two_broadcasts_then_expires() {
    // A waiter for "c" blocks through two broadcasts in which no "c" entry
    // was published: it stays blocked, then expires, and never delivers.
    let cfg = WaiterConfig { max_wakes: 2 };
    let state = on_submit(WaiterState::Idle);
    let state = on_appended(state, cfg);

    let mut store = ResultStore::new();
    let mut published = ResultStore::new();
    published.push_result("a".to_string(), scored("x", 0.9));
    store.publish(published);

    let claimed = store.try_claim(&"c".to_string());
    assert!(claimed.is_none());
    let (state, outcome) = on_wake(state, claimed, cfg);
    assert!(matches!(outcome, WakeOutcome::KeepWaiting));
    assert!(matches!(state, WaiterState::Blocked { misses: 1 }));

    let mut published2 = ResultStore::new();
    published2.push_result("b".to_string(), scored("y", 0.8));
    store.publish(published2);

    let claimed2 = store.try_claim(&"c".to_string());
    assert!(claimed2.is_none());
    let (state, outcome2) = on_wake(state, claimed2, cfg);
    assert!(matches!(outcome2, WakeOutcome::Expire));
    assert!(matches!(state, WaiterState::Expired));

    let state = on_finished(state);
    assert!(matches!(state, WaiterState::Idle));
}

#[test]
fn waiter_delivers_own_results_on_hit() {
    let cfg = WaiterConfig { max_wakes: 5 };
    let state = on_appended(on_submit(WaiterState::Idle), cfg);

    let mut store = ResultStore::new();
    let mut published = ResultStore::new();
    published.push_result("me".to_string(), scored("mine", 0.6));
    store.publish(published);

    let claimed = store.try_claim(&"me".to_string());
    let (state, outcome) = on_wake(state, claimed, cfg);
    assert!(matches!(state, WaiterState::Delivered));
    match outcome {
        WakeOutcome::Deliver(v) => {
            assert_eq!(v.len(), 1);
            assert_eq!(v[0].text, "mine");
        }
        _ => panic!("a hit must deliver"),
    }
}

#[test]
fn ack_reports_received_count() {
    let ack = ack_for(3);
    assert_eq!(ack.status, "success");
    assert_eq!(ack.received, 3);
}

#[test]
fn rekey_overrides_claimed_submitter() {
    let payload = TweetPayload {
        tweets: vec![tweet_pipeline::models::internal::Tweet {
            user_id: "spoofed".to_string(),
            id: Some("7".to_string()),
            text: "hi".to_string(),
            username: "display".to_string(),
        }],
    };
    let rekeyed = rekey_tweets(&payload, "verified");
    assert_eq!(rekeyed.tweets.len(), 1);
    assert_eq!(rekeyed.tweets[0].user_id, "verified");
    assert_eq!(rekeyed.tweets[0].id.as_deref(), Some("7"));
    assert_eq!(rekeyed.tweets[0].text, "hi");
    assert_eq!(rekeyed.tweets[0].username, "display");
}
