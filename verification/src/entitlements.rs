//! Quota bookkeeping decisions: the default entitlement a new user gets, how
//! a looked-up entitlement is chosen, and whether a save is still allowed.
//!
//! The quota records live in the vector store; the surrounding process does
//! the lookups and upserts and hands the plain outcomes here.

use vstd::prelude::*;
use vstd::string::StringExecFns;

use crate::conversion::{unique_user_id, uuid_v5_of};
use crate::models::limits::{EntitlementPoint, EntitlementRequest, UserEntitlement};

verus! {

/// The entitlement every new user starts with: the free plan with no saved
/// tweets allowed, twenty searches a day, fresh counters, and no expiry.
pub open spec fn free_entitlement_wf(r: UserEntitlement, user_id: Seq<char>) -> bool {
    &&& r.user_id@ == user_id
    &&& r.plan@ == "Free"@
    &&& r.max_tweets == 0u32
    &&& r.max_searches_per_day == 20u32
    &&& r.tweet_count == 0u32
    &&& r.searches_used_today == 0u32
    &&& r.valid_until is None
}

/// Builds the default entitlement record for `user_id`, dated `today`.
pub fn new_free_entitlement(user_id: String, today: String) -> (r: UserEntitlement)
    ensures
        free_entitlement_wf(r, user_id@),
        r.last_reset_date@ == today@,
{
    UserEntitlement {
        user_id,
        plan: String::from_str("Free"),
        max_tweets: 0,
        max_searches_per_day: 20,
        tweet_count: 0,
        searches_used_today: 0,
        last_reset_date: today,
        valid_until: None,
    }
}

/// Relies on `chrono::Local::now`: the current local calendar date in
/// `YYYY-MM-DD` form. The result depends on the wall clock and the machine's
/// time zone, so nothing is promised of it.
#[verifier::external_body]
fn today_string() -> String {
    chrono::Local::now().date_naive().format("%F").to_string()
}

/// Builds the default entitlement record for `user_id`, dated today; the
/// reset date comes from the wall clock, so only the rest is pinned down.
pub fn create_free_entitlement(user_id: String) -> (r: UserEntitlement)
    ensures
        free_entitlement_wf(r, user_id@),
{
    let today = today_string();
    new_free_entitlement(user_id, today)
}

/// Wraps an entitlement as the point its user's record is stored under: the
/// identifier derived from the user alone, and a one-component placeholder
/// vector.
pub fn entitlement_point_for(user: UserEntitlement) -> (r: EntitlementPoint)
    ensures
        r.id@ == uuid_v5_of(user.user_id@),
        r.vector matches Some(v) && v@ == seq![0u32],
        r.payload == user,
{
    let id = unique_user_id(user.user_id.as_str());
    let mut bits: Vec<u32> = Vec::new();
    bits.push(0);
    proof {
        assert(bits@ =~= seq![0u32]);
    }
    EntitlementPoint { id, vector: Some(bits), payload: user }
}

/// Chooses the entitlement out of a lookup answer: the first found record if
/// the lookup found any, else nothing — the caller then creates the default.
pub fn choose_entitlement(found: &EntitlementRequest) -> (r: Option<UserEntitlement>)
    ensures
        match r {
            Some(u) => found.points@.len() > 0 && u == found.points@[0].payload,
            None => found.points@.len() == 0,
        },
{
    if found.points.len() > 0 {
        Some(found.points[0].payload.clone())
    } else {
        None
    }
}

/// Whether a user below `max_tweets` may save another batch: saving is
/// allowed exactly while the stored point count is below the cap.
pub fn can_save_decision(max_tweets: u32, existing_points: usize) -> (r: bool)
    requires
        existing_points <= u32::MAX,
    ensures
        r <==> existing_points < max_tweets,
{
    !(max_tweets as usize <= existing_points)
}

} // verus!
