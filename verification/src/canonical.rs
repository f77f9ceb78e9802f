use vstd::prelude::*;
use vstd::string::{StrSliceExecFns, StringSliceAdditionalSpecFns};
use vstd::utf8::encode_utf8;
use crate::bytes::extend_bytes;
use crate::digest::{sha256, sha256_of};
use crate::hexenc::{hex_bytes, hex_of};

verus! {

/// ASCII lowercasing of one byte: A-Z map to a-z, everything else stays.
pub open spec fn lower_byte(b: u8) -> u8 {
    if 0x41 <= b && b <= 0x5a {
        (b + 0x20) as u8
    } else {
        b
    }
}

/// ASCII lowercasing, byte by byte; bytes of multi-byte UTF-8 sequences are
/// all at least 0x80 and therefore untouched.
pub open spec fn ascii_lower(b: Seq<u8>) -> Seq<u8> {
    Seq::new(b.len(), |i: int| lower_byte(b[i]))
}

/// Lowercases the ASCII letters of `v`.
fn lower_bytes(v: &[u8]) -> (r: Vec<u8>)
    ensures
        r@ == ascii_lower(v@),
{
    let mut out: Vec<u8> = Vec::new();
    let mut i: usize = 0;
    while i < v.len()
        invariant
            i <= v@.len(),
            out@.len() == i,
            forall|j: int| 0 <= j < i ==> out@[j] == lower_byte(v@[j]),
        decreases v@.len() - i,
    {
        let b = v[i];
        if 0x41 <= b && b <= 0x5a {
            out.push(b + 0x20);
        } else {
            out.push(b);
        }
        i = i + 1;
    }
    proof {
        assert(out@ =~= ascii_lower(v@));
    }
    out
}

/// The canonical request: method, URI, query string, canonical headers,
/// signed-header list and hashed payload, newline-joined. The POST-JSON style
/// fixes the method to POST, the URI to `/`, the query string to empty and
/// the content type to `application/json; charset=utf-8`.
pub open spec fn canonical_request_bytes(
    host: Seq<u8>,
    action_lower: Seq<u8>,
    payload: Seq<u8>,
) -> Seq<u8> {
    encode_utf8("POST\n/\n\n"@) + encode_utf8("content-type:application/json; charset=utf-8\nhost:"@)
        + host + encode_utf8("\nx-tc-action:"@) + action_lower + encode_utf8(
        "\n\ncontent-type;host;x-tc-action\n"@,
    ) + hex_of(sha256_of(payload))
}

/// Builds the canonical request for the given host, action name (in its
/// original case; it is lowercased here) and body bytes.
pub fn canonical_request(host: &str, action: &str, payload: &[u8]) -> (r: Vec<u8>)
    ensures
        r@ == canonical_request_bytes(
            encode_utf8(host@),
            ascii_lower(encode_utf8(action@)),
            payload@,
        ),
{
    let mut out = ("POST\n/\n\n").as_bytes_vec();
    extend_bytes(&mut out, ("content-type:application/json; charset=utf-8\nhost:").as_bytes());
    extend_bytes(&mut out, host.as_bytes());
    extend_bytes(&mut out, ("\nx-tc-action:").as_bytes());
    let low = lower_bytes(action.as_bytes());
    extend_bytes(&mut out, low.as_slice());
    extend_bytes(&mut out, ("\n\ncontent-type;host;x-tc-action\n").as_bytes());
    let digest = sha256(payload);
    let hx = hex_bytes(digest.as_slice());
    extend_bytes(&mut out, hx.as_slice());
    proof {
        assert(out@ =~= canonical_request_bytes(
            encode_utf8(host@),
            ascii_lower(encode_utf8(action@)),
            payload@,
        ));
    }
    out
}

} // verus!
