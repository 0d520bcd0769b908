//! Per-user entitlement records kept by the quota collaborator.

use vstd::prelude::*;

verus! {

/// What one user may do: plan, caps, and current usage counters.
#[derive(Debug)]
pub struct UserEntitlement {
    pub user_id: String,
    pub plan: String,
    pub max_tweets: u32,
    pub max_searches_per_day: u32,
    pub tweet_count: u32,
    pub searches_used_today: u32,
    pub last_reset_date: String,
    pub valid_until: Option<String>,
}

impl Clone for UserEntitlement {
    fn clone(&self) -> (res: Self)
        ensures
            res == *self,
    {
        UserEntitlement {
            user_id: self.user_id.clone(),
            plan: self.plan.clone(),
            max_tweets: self.max_tweets,
            max_searches_per_day: self.max_searches_per_day,
            tweet_count: self.tweet_count,
            searches_used_today: self.searches_used_today,
            last_reset_date: self.last_reset_date.clone(),
            valid_until: match &self.valid_until {
                Some(s) => Some(s.clone()),
                None => None,
            },
        }
    }
}

/// An entitlement as stored in the vector store: a stable identifier, a
/// placeholder vector (raw 32-bit encodings), and the record itself.
#[derive(Debug)]
pub struct EntitlementPoint {
    pub id: String,
    pub vector: Option<Vec<u32>>,
    pub payload: UserEntitlement,
}

/// A batch of entitlement points, as sent to or scrolled from the store.
#[derive(Debug)]
pub struct EntitlementRequest {
    pub points: Vec<EntitlementPoint>,
    pub next_page_offset: Option<u64>,
}

/// Answer of the store's scroll endpoint for entitlement records.
#[derive(Debug)]
pub struct EntitlementRootSearch {
    pub result: EntitlementRequest,
    pub status: String,
}

} // verus!
