//! Runtime models: the inbound event (`Tweet`), the batch payload that
//! producers hand in, and the point shapes sent to the vector store.
//!
//! Vector components are carried as opaque raw 32-bit encodings (`u32`): the
//! pipeline routes them between collaborators and never inspects them, so the
//! library holds them as plain values.

use vstd::prelude::*;

verus! {

/// Mathematical view of one event: every text field as a sequence of
/// characters.
pub ghost struct TweetView {
    pub user_id: Seq<char>,
    pub id: Option<Seq<char>>,
    pub text: Seq<char>,
    pub username: Seq<char>,
}

/// One inbound text event with its submitter and optional external
/// identifier.
#[derive(Debug)]
pub struct Tweet {
    pub user_id: String,
    pub id: Option<String>,
    pub text: String,
    pub username: String,
}

impl View for Tweet {
    type V = TweetView;

    open spec fn view(&self) -> TweetView {
        TweetView {
            user_id: self.user_id@,
            id: match self.id {
                Some(s) => Some(s@),
                None => None,
            },
            text: self.text@,
            username: self.username@,
        }
    }
}

impl Clone for Tweet {
    fn clone(&self) -> (res: Self)
        ensures
            res == *self,
    {
        Tweet {
            user_id: self.user_id.clone(),
            id: match &self.id {
                Some(s) => Some(s.clone()),
                None => None,
            },
            text: self.text.clone(),
            username: self.username.clone(),
        }
    }
}

/// The view of a vector of events, element by element.
pub open spec fn tweets_view(tweets: Seq<Tweet>) -> Seq<TweetView> {
    tweets.map_values(|t: Tweet| t@)
}

/// An ordered batch of events, as accepted by producers and drained by the
/// runner.
#[derive(Debug)]
pub struct TweetPayload {
    pub tweets: Vec<Tweet>,
}

impl View for TweetPayload {
    type V = Seq<TweetView>;

    open spec fn view(&self) -> Seq<TweetView> {
        tweets_view(self.tweets@)
    }
}

impl Clone for TweetPayload {
    fn clone(&self) -> (res: Self)
        ensures
            res@ == self@,
    {
        let mut tweets: Vec<Tweet> = Vec::new();
        let mut i: usize = 0;
        while i < self.tweets.len()
            invariant
                i <= self.tweets.len(),
                tweets@.len() == i as int,
                forall|j: int| 0 <= j < i ==> tweets@[j] == self.tweets@[j],
            decreases self.tweets.len() - i,
        {
            tweets.push(self.tweets[i].clone());
            i += 1;
        }
        let res = TweetPayload { tweets };
        proof {
            assert(res.tweets@ =~= self.tweets@);
        }
        res
    }
}

/// The payload stored beside each vector in the vector store.
#[derive(Debug)]
pub struct UserData {
    pub user_id: String,
    pub text: String,
}

/// One point to be upserted: an optional stable identifier, the embedding
/// vector (raw 32-bit encodings), and the stored payload.
#[derive(Debug)]
pub struct PointVector {
    pub id: Option<String>,
    pub vector: Vec<u32>,
    pub payload: UserData,
}

/// A batch of points for one upsert call to the vector store.
#[derive(Debug)]
pub struct QdrantReqeust {
    pub points: Vec<PointVector>,
}

} // verus!
