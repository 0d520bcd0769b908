//! The signing-key cache: an explicitly owned, explicitly initialized cache
//! object, passed by reference to whatever verifies tokens — never a bare
//! global. The surrounding process initializes it at startup and refreshes
//! it periodically; reads in between are plain lookups.

use vstd::prelude::*;

verus! {

/// How long a fetched key set stays fresh, in seconds.
pub const JWKS_TTL_SECS: u64 = 600;

/// One published signing key: its identifier and its RSA components, both
/// base64 text.
#[derive(Debug)]
pub struct Jwk {
    pub kid: String,
    pub n: String,
    pub e: String,
}

/// Why a key could not be served or built.
#[derive(Debug, Clone, Copy, PartialEq, Eq, Structural)]
pub enum JwksError {
    /// The cache was never filled.
    NotInitialized,
    /// No cached key carries the requested identifier.
    UnknownKid,
    /// A fetched key's components could not be turned into a decoding key.
    BadKey,
}

#[verifier::external_type_specification]
#[verifier::external_body]
pub struct ExDecodingKey(jsonwebtoken::DecodingKey);

/// Relies on `jsonwebtoken::DecodingKey`'s derived `Clone`: a clone is the
/// same key.
pub assume_specification[ <jsonwebtoken::DecodingKey as Clone>::clone ](
    k: &jsonwebtoken::DecodingKey,
) -> (r: jsonwebtoken::DecodingKey)
    ensures
        r == *k,
;

/// Relies on `jsonwebtoken::DecodingKey::from_rsa_components`: builds an RSA
/// decoding key from base64 modulus and exponent, failing on undecodable
/// components. Which inputs fail is the collaborator's concern, so nothing
/// is promised of the outcome.
#[verifier::external_body]
fn rsa_key_from_components(n: &str, e: &str) -> Option<jsonwebtoken::DecodingKey> {
    match jsonwebtoken::DecodingKey::from_rsa_components(n, e) {
        Ok(k) => Some(k),
        Err(_) => None,
    }
}

/// The view of one cache entry: the key identifier as text, the key itself
/// opaque.
pub open spec fn entry_view(p: (String, jsonwebtoken::DecodingKey)) -> (
    Seq<char>,
    jsonwebtoken::DecodingKey,
) {
    (p.0@, p.1)
}

/// The owned signing-key cache: the fetched key set, or nothing yet.
pub struct KeyCache {
    entries: Vec<(String, jsonwebtoken::DecodingKey)>,
    fetched: bool,
}

impl KeyCache {
    /// Whether the cache was ever filled.
    pub closed spec fn fetched(&self) -> bool {
        self.fetched
    }

    /// The cached identifier/key pairs, in fetched order.
    pub closed spec fn kid_keys(&self) -> Seq<(Seq<char>, jsonwebtoken::DecodingKey)> {
        self.entries@.map_values(|p: (String, jsonwebtoken::DecodingKey)| entry_view(p))
    }

    /// Whether some cached key carries this identifier.
    pub open spec fn has_kid(&self, kid: Seq<char>) -> bool {
        exists|i: int| 0 <= i < self.kid_keys().len() && self.kid_keys()[i].0 == kid
    }

    /// An uninitialized cache.
    pub fn new() -> (r: KeyCache)
        ensures
            !r.fetched(),
            r.kid_keys() == Seq::<(Seq<char>, jsonwebtoken::DecodingKey)>::empty(),
    {
        let r = KeyCache { entries: Vec::new(), fetched: false };
        proof {
            assert(r.kid_keys() =~= Seq::<(Seq<char>, jsonwebtoken::DecodingKey)>::empty());
        }
        r
    }

    /// Whether a refresh is due: the cache was never filled, or the fetched
    /// set has outlived its freshness.
    pub fn needs_refresh(&self, elapsed_secs: u64, ttl_secs: u64) -> (r: bool)
        ensures
            r <==> (!self.fetched() || elapsed_secs >= ttl_secs),
    {
        !self.fetched || elapsed_secs >= ttl_secs
    }

    /// Replaces the whole cached key set with a freshly fetched one.
    pub fn install(&mut self, keys: Vec<(String, jsonwebtoken::DecodingKey)>)
        ensures
            final(self).fetched(),
            final(self).kid_keys() == keys@.map_values(
                |p: (String, jsonwebtoken::DecodingKey)| entry_view(p),
            ),
    {
        self.entries = keys;
        self.fetched = true;
    }

    /// Serves the cached key for `kid`: the first entry carrying that
    /// identifier. Fails with `NotInitialized` before the first install, and
    /// with `UnknownKid` exactly when no entry carries it.
    pub fn get_decoding_key(&self, kid: &String) -> (r: Result<
        jsonwebtoken::DecodingKey,
        JwksError,
    >)
        ensures
            r is Ok <==> (self.fetched() && self.has_kid(kid@)),
            match r {
                Ok(key) => exists|i: int|
                    0 <= i < self.kid_keys().len() && #[trigger] self.kid_keys()[i] == (kid@, key),
                Err(e) => if !self.fetched() {
                    e is NotInitialized
                } else {
                    e is UnknownKid
                },
            },
    {
        if !self.fetched {
            return Err(JwksError::NotInitialized);
        }
        let mut i: usize = 0;
        while i < self.entries.len()
            invariant
                self.fetched(),
                i <= self.entries@.len(),
                forall|j: int| 0 <= j < i ==> self.kid_keys()[j].0 != kid@,
            decreases self.entries@.len() - i,
        {
            let e = &self.entries[i];
            if e.0 == *kid {
                let key = e.1.clone();
                proof {
                    assert(self.kid_keys()[i as int] == (kid@, key));
                    assert(self.has_kid(kid@)) by {
                        assert(self.kid_keys()[i as int].0 == kid@);
                    }
                }
                return Ok(key);
            }
            i += 1;
        }
        Err(JwksError::UnknownKid)
    }
}

/// Turns a fetched key list into cache entries, one per published key in
/// order, failing wholesale if any key's components cannot be decoded —
/// a partially usable key set is never installed.
pub fn build_key_entries(jwks: &Vec<Jwk>) -> (r: Result<
    Vec<(String, jsonwebtoken::DecodingKey)>,
    JwksError,
>)
    ensures
        match r {
            Ok(v) => v@.len() == jwks@.len() && forall|i: int|
                0 <= i < v@.len() ==> (#[trigger] v@[i]).0@ == jwks@[i].kid@,
            Err(e) => e is BadKey,
        },
{
    let mut out: Vec<(String, jsonwebtoken::DecodingKey)> = Vec::new();
    let mut i: usize = 0;
    while i < jwks.len()
        invariant
            i <= jwks@.len(),
            out@.len() == i as int,
            forall|j: int| 0 <= j < i ==> (#[trigger] out@[j]).0@ == jwks@[j].kid@,
        decreases jwks@.len() - i,
    {
        let jwk = &jwks[i];
        match rsa_key_from_components(jwk.n.as_str(), jwk.e.as_str()) {
            Some(key) => {
                out.push((jwk.kid.clone(), key));
            },
            None => {
                return Err(JwksError::BadKey);
            },
        }
        i += 1;
    }
    Ok(out)
}

} // verus!
