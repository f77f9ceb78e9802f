use vstd::prelude::*;
use vstd::string::{StrSliceExecFns, StringSliceAdditionalSpecFns};
use vstd::utf8::encode_utf8;
use crate::bytes::{ascii_chars_of, extend_bytes};
use crate::digest::{hmac_sha256, hmac_sha256_of, sha256, sha256_of};
use crate::hexenc::{hex_of, hex_bytes, HexBuf};
use crate::timefmt::{dec_chars, format_u64};

verus! {

/// The credential scope `<date>/<service>/tc3_request`.
pub open spec fn credential_scope_bytes(date: Seq<u8>, service: Seq<u8>) -> Seq<u8> {
    date + encode_utf8("/"@) + service + encode_utf8("/tc3_request"@)
}

/// The string to sign: algorithm, decimal timestamp, credential scope and the
/// lowercase hex SHA-256 of the canonical request, newline-joined.
pub open spec fn string_to_sign_bytes(ts: u64, scope: Seq<u8>, creq: Seq<u8>) -> Seq<u8> {
    encode_utf8("TC3-HMAC-SHA256\n"@) + encode_utf8(dec_chars(ts as nat)) + encode_utf8("\n"@)
        + scope + encode_utf8("\n"@) + hex_of(sha256_of(creq))
}

/// The day-and-service-scoped signing key: a chained HMAC over the date, the
/// service identifier and the fixed suffix, starting from `TC3` + secret key.
pub open spec fn signing_key_bytes(secret_key: Seq<u8>, date: Seq<u8>, service: Seq<u8>) -> Seq<
    u8,
> {
    hmac_sha256_of(
        hmac_sha256_of(hmac_sha256_of(encode_utf8("TC3"@) + secret_key, date), service),
        encode_utf8("tc3_request"@),
    )
}

/// The final signature: lowercase hex of the HMAC of the string to sign under
/// the derived signing key.
pub open spec fn signature_hex_bytes(
    secret_key: Seq<u8>,
    date: Seq<u8>,
    service: Seq<u8>,
    sts: Seq<u8>,
) -> Seq<u8> {
    hex_of(hmac_sha256_of(signing_key_bytes(secret_key, date, service), sts))
}

/// Builds the credential scope for the given date and service identifier.
pub fn credential_scope(date: &str, service: &str) -> (r: Vec<u8>)
    ensures
        r@ == credential_scope_bytes(encode_utf8(date@), encode_utf8(service@)),
{
    let mut out = date.as_bytes_vec();
    extend_bytes(&mut out, ("/").as_bytes());
    extend_bytes(&mut out, service.as_bytes());
    extend_bytes(&mut out, ("/tc3_request").as_bytes());
    proof {
        assert(out@ =~= credential_scope_bytes(encode_utf8(date@), encode_utf8(service@)));
    }
    out
}

/// Builds the string to sign from the timestamp, its date, the service
/// identifier and the canonical request.
pub fn string_to_sign(timestamp: u64, date: &str, service: &str, creq: &[u8]) -> (r: Vec<u8>)
    ensures
        r@ == string_to_sign_bytes(
            timestamp,
            credential_scope_bytes(encode_utf8(date@), encode_utf8(service@)),
            creq@,
        ),
{
    let mut out = ("TC3-HMAC-SHA256\n").as_bytes_vec();
    let ts_str = format_u64(timestamp);
    extend_bytes(&mut out, ts_str.as_str().as_bytes());
    extend_bytes(&mut out, ("\n").as_bytes());
    let scope = credential_scope(date, service);
    extend_bytes(&mut out, scope.as_slice());
    extend_bytes(&mut out, ("\n").as_bytes());
    let digest = sha256(creq);
    let hx = hex_bytes(digest.as_slice());
    extend_bytes(&mut out, hx.as_slice());
    proof {
        assert(out@ =~= string_to_sign_bytes(
            timestamp,
            credential_scope_bytes(encode_utf8(date@), encode_utf8(service@)),
            creq@,
        ));
    }
    out
}

/// Derives the signing key for the secret key, date and service, signs the
/// given string to sign with it, and returns the lowercase hex signature.
pub fn derive_signature(secret_key: &str, date: &str, service: &str, sts: &[u8]) -> (r: String)
    ensures
        r@ == ascii_chars_of(
            signature_hex_bytes(
                encode_utf8(secret_key@),
                encode_utf8(date@),
                encode_utf8(service@),
                sts@,
            ),
        ),
        r@.len() == 64,
{
    let mut key = ("TC3").as_bytes_vec();
    extend_bytes(&mut key, secret_key.as_bytes());
    proof {
        assert(key@ =~= encode_utf8("TC3"@) + encode_utf8(secret_key@));
    }
    let k_date = hmac_sha256(key.as_slice(), date.as_bytes());
    let k_service = hmac_sha256(k_date.as_slice(), service.as_bytes());
    let k_signing = hmac_sha256(k_service.as_slice(), ("tc3_request").as_bytes());
    let tag = hmac_sha256(k_signing.as_slice(), sts);
    let mut scratch = HexBuf::new();
    let hx = scratch.hex(tag.as_slice());
    hx.to_owned()
}

} // verus!
