use vstd::prelude::*;
use vstd::utf8::{encode_utf8, is_ascii_chars, is_ascii_chars_encode_utf8};
use crate::canonical::canonical_request_bytes;
use crate::digest::sha256_of;
use crate::hexenc::{hex_of, lemma_hex_of_props};
use crate::request::{request_matches, Access, Action, SignedRequest};

verus! {

/// Determinism: two outputs that the builder's contract admits for the same
/// inputs agree on every field; in particular the Authorization values are
/// identical.
pub proof fn lemma_build_request_deterministic(
    r1: SignedRequest,
    r2: SignedRequest,
    payload: Seq<u8>,
    timestamp: u64,
    access: Access,
    action: Action,
)
    requires
        request_matches(r1, payload, timestamp, access, action),
        request_matches(r2, payload, timestamp, access, action),
    ensures
        r1.method@ == r2.method@,
        r1.uri@ == r2.uri@,
        r1.body@ == r2.body@,
        r1.headers@.len() == r2.headers@.len(),
        forall|i: int|
            0 <= i < r1.headers@.len() ==> r1.headers@[i].0@ == r2.headers@[i].0@
                && r1.headers@[i].1@ == r2.headers@[i].1@,
        r1.headers@[0].1@ == r2.headers@[0].1@,
{
}

/// The request line is not configurable: every canonical request opens with
/// the method line `POST`, the URI line `/` and an empty query-string line.
pub proof fn lemma_canonical_request_fixed_lines(
    host: Seq<u8>,
    action_lower: Seq<u8>,
    payload: Seq<u8>,
)
    ensures
        canonical_request_bytes(host, action_lower, payload).len() >= 8,
        canonical_request_bytes(host, action_lower, payload).subrange(0, 8) == encode_utf8(
            "POST\n/\n\n"@,
        ),
{
    reveal_strlit("POST\n/\n\n");
    assert(is_ascii_chars("POST\n/\n\n"@));
    is_ascii_chars_encode_utf8("POST\n/\n\n"@);
    assert(canonical_request_bytes(host, action_lower, payload).subrange(0, 8) =~= encode_utf8(
        "POST\n/\n\n"@,
    ));
}

/// The hashed-payload line is correct by construction: the canonical request
/// ends with the lowercase hex SHA-256 of the exact body bytes.
pub proof fn lemma_canonical_request_hashed_payload(
    host: Seq<u8>,
    action_lower: Seq<u8>,
    payload: Seq<u8>,
)
    requires
        sha256_of(payload).len() == 32,
    ensures
        canonical_request_bytes(host, action_lower, payload).len() >= 64,
        ({
            let cr = canonical_request_bytes(host, action_lower, payload);
            cr.subrange(cr.len() - 64, cr.len() as int) == hex_of(sha256_of(payload))
        }),
{
    lemma_hex_of_props(sha256_of(payload));
    let cr = canonical_request_bytes(host, action_lower, payload);
    assert(cr.subrange(cr.len() - 64, cr.len() as int) =~= hex_of(sha256_of(payload)));
}

/// Header completeness: a request meeting the builder's contract carries
/// exactly six headers, and their names are pairwise distinct, so no header
/// is duplicated.
pub proof fn lemma_header_names_distinct(
    r: SignedRequest,
    payload: Seq<u8>,
    timestamp: u64,
    access: Access,
    action: Action,
)
    requires
        request_matches(r, payload, timestamp, access, action),
    ensures
        r.headers@.len() == 6,
        forall|i: int, j: int|
            0 <= i < j < 6 ==> r.headers@[i].0@ != r.headers@[j].0@,
{
    reveal_strlit("Authorization");
    reveal_strlit("Content-Type");
    reveal_strlit("Host");
    reveal_strlit("X-TC-Action");
    reveal_strlit("X-TC-Timestamp");
    reveal_strlit("X-TC-Version");
    assert("Authorization"@.len() == 13);
    assert("Content-Type"@.len() == 12);
    assert("Host"@.len() == 4);
    assert("X-TC-Action"@.len() == 11);
    assert("X-TC-Timestamp"@.len() == 14);
    assert("X-TC-Version"@.len() == 12);
    assert("Content-Type"@[0] != "X-TC-Version"@[0]);
}

} // verus!
