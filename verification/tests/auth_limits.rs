use tweet_pipeline::auth::extractor::strip_bearer;
use tweet_pipeline::auth::jwt::{build_key_entries, Jwk, JwksError, KeyCache, JWKS_TTL_SECS};
use tweet_pipeline::auth::verify::{token_from_query, ws_token};
use tweet_pipeline::entitlements::{
    can_save_decision, choose_entitlement, entitlement_point_for, new_free_entitlement,
};
use tweet_pipeline::models::limits::{EntitlementPoint, EntitlementRequest};

#[test]
fn bearer_header_yields_token() {
    assert_eq!(strip_bearer(b"Bearer abc.def"), Some(b"abc.def".to_vec()));
    assert_eq!(strip_bearer(b"Basic abc"), None);
    assert_eq!(strip_bearer(b"Bearer"), None);
    assert_eq!(strip_bearer(b"Bearer "), Some(Vec::new()));
}

#[test]
fn token_parameter_is_found_among_others() {
    assert_eq!(token_from_query(b"token=abc"), Some(b"abc".to_vec()));
    assert_eq!(token_from_query(b"a=1&token=abc&b=2"), Some(b"abc".to_vec()));
    assert_eq!(token_from_query(b"a=1&b=2"), None);
    assert_eq!(token_from_query(b""), None);
    // The first token parameter wins.
    assert_eq!(token_from_query(b"token=first&token=second"), Some(b"first".to_vec()));
    // A parameter merely containing the letters is not a token parameter.
    assert_eq!(token_from_query(b"xtoken=abc"), None);
}

#[test]
fn ws_token_percent_decodes() {
    // Decoding must really happen: an unchanged pass-through would keep the
    // percent escape.
    assert_eq!(ws_token(b"token=a%20b"), Some(b"a b".to_vec()));
    assert_eq!(ws_token(b"other=1"), None);
}

#[test]
fn key_cache_serves_installed_kids() {
    let cache = KeyCache::new();
    assert!(matches!(
        cache.get_decoding_key(&"k1".to_string()),
        Err(JwksError::NotInitialized)
    ));
    assert!(cache.needs_refresh(0, JWKS_TTL_SECS));

    let jwks = vec![
        Jwk { kid: "k1".to_string(), n: "AQAB".to_string(), e: "AQAB".to_string() },
        Jwk { kid: "k2".to_string(), n: "AQAB".to_string(), e: "AQAB".to_string() },
    ];
    let entries = build_key_entries(&jwks).expect("components decode");
    assert_eq!(entries.len(), 2);

    let mut cache = cache;
    cache.install(entries);
    assert!(cache.get_decoding_key(&"k1".to_string()).is_ok());
    assert!(cache.get_decoding_key(&"k2".to_string()).is_ok());
    assert!(matches!(
        cache.get_decoding_key(&"k9".to_string()),
        Err(JwksError::UnknownKid)
    ));

    assert!(!cache.needs_refresh(JWKS_TTL_SECS - 1, JWKS_TTL_SECS));
    assert!(cache.needs_refresh(JWKS_TTL_SECS, JWKS_TTL_SECS));
}

#[test]
fn bad_key_components_fail_wholesale() {
    let jwks = vec![Jwk {
        kid: "k1".to_string(),
        n: "!!! not base64 !!!".to_string(),
        e: "AQAB".to_string(),
    }];
    assert!(matches!(build_key_entries(&jwks), Err(JwksError::BadKey)));
}

#[test]
fn free_entitlement_has_documented_defaults() {
    let e = new_free_entitlement("alice".to_string(), "2024-01-31".to_string());
    assert_eq!(e.user_id, "alice");
    assert_eq!(e.plan, "Free");
    assert_eq!(e.max_tweets, 0);
    assert_eq!(e.max_searches_per_day, 20);
    assert_eq!(e.tweet_count, 0);
    assert_eq!(e.searches_used_today, 0);
    assert_eq!(e.last_reset_date, "2024-01-31");
    assert!(e.valid_until.is_none());
}

#[test]
fn entitlement_point_uses_user_derived_id() {
    let e = new_free_entitlement("alice".to_string(), "2024-01-31".to_string());
    let p = entitlement_point_for(e);
    let expected =
        uuid::Uuid::new_v5(&uuid::Uuid::NAMESPACE_OID, "alice".as_bytes()).to_string();
    assert_eq!(p.id, expected);
    assert_eq!(p.vector, Some(vec![0u32]));
    assert_eq!(p.payload.user_id, "alice");
}

#[test]
fn lookup_answer_chooses_first_record() {
    let e = new_free_entitlement("alice".to_string(), "2024-01-31".to_string());
    let p = EntitlementPoint { id: "x".to_string(), vector: None, payload: e };
    let found = EntitlementRequest { points: vec![p], next_page_offset: None };
    let chosen = choose_entitlement(&found).expect("one record");
    assert_eq!(chosen.user_id, "alice");

    let none = EntitlementRequest { points: Vec::new(), next_page_offset: None };
    assert!(choose_entitlement(&none).is_none());
}

#[test]
fn save_allowed_only_below_cap() {
    assert!(!can_save_decision(0, 0));
    assert!(can_save_decision(5, 4));
    assert!(!can_save_decision(5, 5));
    assert!(!can_save_decision(5, 6));
}
