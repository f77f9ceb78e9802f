use vstd::prelude::*;
use sha2::Digest;
use hmac::Mac;

verus! {

/// The SHA-256 digest of the given bytes; a function of the bytes alone.
pub uninterp spec fn sha256_of(data: Seq<u8>) -> Seq<u8>;

/// The HMAC-SHA256 tag for the given key and message; a function of both alone.
pub uninterp spec fn hmac_sha256_of(key: Seq<u8>, data: Seq<u8>) -> Seq<u8>;

/// Relies on sha2::Sha256 (update, finalize): the digest is 32 bytes and
/// depends on the input bytes alone.
#[verifier::external_body]
pub(crate) fn sha256(data: &[u8]) -> (r: Vec<u8>)
    ensures
        r@ == sha256_of(data@),
        r@.len() == 32,
{
    let mut ctx = sha2::Sha256::new();
    ctx.update(data);
    ctx.finalize().to_vec()
}

/// Relies on hmac::Hmac<Sha256> (new_from_slice, update, finalize): a key of
/// any length is accepted (new_from_slice never fails for HMAC), and the
/// 32-byte tag depends on key and message alone.
#[verifier::external_body]
pub(crate) fn hmac_sha256(key: &[u8], data: &[u8]) -> (r: Vec<u8>)
    ensures
        r@ == hmac_sha256_of(key@, data@),
        r@.len() == 32,
{
    let mut ctx = <hmac::Hmac<sha2::Sha256> as Mac>::new_from_slice(key).unwrap();
    ctx.update(data);
    ctx.finalize().into_bytes().to_vec()
}

} // verus!
