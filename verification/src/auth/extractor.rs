//! The authenticated request identity, and the bearer-token shape of the
//! authorization header.

use vstd::prelude::*;

verus! {

/// The authenticated user of a plain HTTP request, as resolved by the
/// credential collaborator.
#[derive(Debug)]
pub struct AuthUser {
    pub user_id: String,
}

impl Clone for AuthUser {
    fn clone(&self) -> (res: Self)
        ensures
            res == *self,
    {
        AuthUser { user_id: self.user_id.clone() }
    }
}

/// The bytes `"Bearer "` that an authorization header must start with.
pub open spec fn bearer_prefix() -> Seq<u8> {
    seq![66u8, 101u8, 97u8, 114u8, 101u8, 114u8, 32u8]
}

/// The token carried by an authorization header: what follows `"Bearer "`,
/// or nothing if the header is not of that shape.
pub open spec fn bearer_of(h: Seq<u8>) -> Option<Seq<u8>> {
    if h.len() >= 7 && h.take(7) == bearer_prefix() {
        Some(h.skip(7))
    } else {
        None
    }
}

/// Extracts the bearer token from an authorization header's bytes.
pub fn strip_bearer(h: &[u8]) -> (r: Option<Vec<u8>>)
    ensures
        match r {
            Some(t) => bearer_of(h@) == Some(t@),
            None => bearer_of(h@) is None,
        },
{
    if h.len() >= 7 && h[0] == 66 && h[1] == 101 && h[2] == 97 && h[3] == 114 && h[4] == 101
        && h[5] == 114 && h[6] == 32 {
        proof {
            assert(h@.take(7) =~= bearer_prefix());
        }
        let mut t: Vec<u8> = Vec::new();
        let mut i: usize = 7;
        while i < h.len()
            invariant
                7 <= i <= h@.len(),
                t@ == h@.subrange(7, i as int),
            decreases h@.len() - i,
        {
            t.push(h[i]);
            i += 1;
        }
        proof {
            assert(t@ =~= h@.skip(7));
        }
        Some(t)
    } else {
        proof {
            if h@.len() >= 7 && h@.take(7) == bearer_prefix() {
                assert(h@[0] == h@.take(7)[0] && h@[1] == h@.take(7)[1] && h@[2] == h@.take(7)[2]
                    && h@[3] == h@.take(7)[3] && h@[4] == h@.take(7)[4] && h@[5] == h@.take(7)[5]
                    && h@[6] == h@.take(7)[6]);
            }
        }
        None
    }
}

} // verus!
