//! Extraction of the connection token from a request's query string: the
//! first `token=` parameter, percent-decoded. Verifying the token itself is
//! the credential collaborator's concern.

use vstd::prelude::*;
use vstd::slice::slice_subrange;

verus! {

/// The bytes `"token="` that the sought parameter starts with.
pub open spec fn token_prefix() -> Seq<u8> {
    seq![116u8, 111u8, 107u8, 101u8, 110u8, 61u8]
}

/// The index of the first `&` in a query string, or its length if none.
pub open spec fn first_amp(q: Seq<u8>) -> nat
    decreases q.len(),
{
    if q.len() == 0 {
        0
    } else if q[0] == 38u8 {
        0
    } else {
        1 + first_amp(q.drop_first())
    }
}

/// Whether one `&`-separated parameter is a `token=` parameter.
pub open spec fn has_token_prefix(seg: Seq<u8>) -> bool {
    seg.len() >= 6 && seg.take(6) == token_prefix()
}

/// The value of the first `token=` parameter among the `&`-separated
/// parameters of a query string, still percent-encoded.
pub open spec fn find_token(q: Seq<u8>) -> Option<Seq<u8>>
    decreases q.len(),
{
    let k = first_amp(q);
    let seg = q.take(k as int);
    if has_token_prefix(seg) {
        Some(seg.skip(6))
    } else if k >= q.len() {
        None
    } else {
        find_token(q.skip(k as int + 1))
    }
}

proof fn lemma_first_amp_eq(q: Seq<u8>, k: int)
    requires
        0 <= k <= q.len(),
        forall|j: int| 0 <= j < k ==> q[j] != 38u8,
        k < q.len() ==> q[k] == 38u8,
    ensures
        first_amp(q) == k,
    decreases q.len(),
{
    if q.len() == 0 {
    } else if q[0] == 38u8 {
        assert(k == 0);
    } else {
        assert(k >= 1);
        assert(forall|j: int| 0 <= j < k - 1 ==> q.drop_first()[j] == q[j + 1]);
        lemma_first_amp_eq(q.drop_first(), k - 1);
    }
}

/// Name for what `urlencoding::decode_binary` computes: percent-decoding is
/// a function of the input bytes alone.
pub uninterp spec fn url_decoded(b: Seq<u8>) -> Seq<u8>;

/// Relies on `urlencoding::decode_binary`: percent-decodes a byte string,
/// a deterministic function of its input alone.
#[verifier::external_body]
fn percent_decode(b: &[u8]) -> (r: Vec<u8>)
    ensures
        r@ == url_decoded(b@),
{
    urlencoding::decode_binary(b).into_owned()
}

/// Finds the first `token=` parameter of a query string, returning its
/// still-encoded value, or nothing if no parameter is one.
pub fn token_from_query(q: &[u8]) -> (r: Option<Vec<u8>>)
    ensures
        match r {
            Some(t) => find_token(q@) == Some(t@),
            None => find_token(q@) is None,
        },
    decreases q@.len(),
{
    let mut k: usize = 0;
    while k < q.len() && q[k] != 38
        invariant
            k <= q@.len(),
            forall|j: int| 0 <= j < k ==> q@[j] != 38u8,
        decreases q@.len() - k,
    {
        k += 1;
    }
    proof {
        lemma_first_amp_eq(q@, k as int);
    }
    let ghost seg = q@.take(k as int);
    if k >= 6 && q[0] == 116 && q[1] == 111 && q[2] == 107 && q[3] == 101 && q[4] == 110 && q[5]
        == 61 {
        proof {
            assert(seg.take(6) =~= token_prefix());
        }
        let mut t: Vec<u8> = Vec::new();
        let mut i: usize = 6;
        while i < k
            invariant
                6 <= i <= k,
                k <= q@.len(),
                t@ == q@.subrange(6, i as int),
            decreases k - i,
        {
            t.push(q[i]);
            i += 1;
        }
        proof {
            assert(t@ =~= seg.skip(6));
        }
        Some(t)
    } else {
        proof {
            if has_token_prefix(seg) {
                assert(seg.len() == k);
                assert(seg.take(6) == token_prefix());
                assert(seg.take(6)[0] == 116u8 && seg.take(6)[1] == 111u8 && seg.take(6)[2]
                    == 107u8 && seg.take(6)[3] == 101u8 && seg.take(6)[4] == 110u8 && seg.take(
                    6,
                )[5] == 61u8);
                assert(q@[0] == 116u8 && q@[1] == 111u8 && q@[2] == 107u8 && q@[3] == 101u8 && q@[4]
                    == 110u8 && q@[5] == 61u8);
                assert(false);
            }
        }
        if k >= q.len() {
            None
        } else {
            let rest = slice_subrange(q, k + 1, q.len());
            token_from_query(rest)
        }
    }
}

/// Extracts the connection token from a query string: the first `token=`
/// parameter, percent-decoded; nothing if the query string carries none.
pub fn ws_token(query: &[u8]) -> (r: Option<Vec<u8>>)
    ensures
        match find_token(query@) {
            Some(t) => r matches Some(d) && d@ == url_decoded(t),
            None => r is None,
        },
{
    match token_from_query(query) {
        Some(t) => Some(percent_decode(t.as_slice())),
        None => None,
    }
}

} // verus!
