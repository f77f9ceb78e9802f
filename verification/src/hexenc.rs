use vstd::prelude::*;
use crate::bytes::{all_ascii, ascii_chars_of};

verus! {

/// The ASCII code of the lowercase hex digit for a value below sixteen.
pub open spec fn hex_digit(n: u8) -> u8
    recommends
        n < 16,
{
    if n < 10 {
        (0x30 + n) as u8
    } else {
        (0x57 + n) as u8
    }
}

/// Lowercase hex encoding: two digits per byte, high nibble first.
pub open spec fn hex_of(b: Seq<u8>) -> Seq<u8>
    decreases b.len(),
{
    if b.len() == 0 {
        Seq::empty()
    } else {
        hex_of(b.drop_last()) + seq![hex_digit(b.last() / 16), hex_digit(b.last() % 16)]
    }
}

/// A hex encoding is twice as long as its input and consists of ASCII bytes.
pub proof fn lemma_hex_of_props(b: Seq<u8>)
    ensures
        hex_of(b).len() == 2 * b.len(),
        all_ascii(hex_of(b)),
    decreases b.len(),
{
    if b.len() > 0 {
        lemma_hex_of_props(b.drop_last());
    }
}

fn hex_digit_byte(n: u8) -> (r: u8)
    requires
        n < 16,
    ensures
        r == hex_digit(n),
{
    if n < 10 {
        0x30 + n
    } else {
        0x57 + n
    }
}

/// Appends the lowercase hex encoding of `data` to `out`.
fn push_hex(out: &mut Vec<u8>, data: &[u8])
    ensures
        final(out)@ == old(out)@ + hex_of(data@),
{
    let mut i: usize = 0;
    while i < data.len()
        invariant
            i <= data@.len(),
            out@ =~= old(out)@ + hex_of(data@.subrange(0, i as int)),
        decreases data@.len() - i,
    {
        let b = data[i];
        out.push(hex_digit_byte(b / 16));
        out.push(hex_digit_byte(b % 16));
        proof {
            let pre = data@.subrange(0, i + 1);
            assert(pre.drop_last() =~= data@.subrange(0, i as int));
            assert(pre.last() == b);
            assert(out@ =~= old(out)@ + hex_of(pre));
        }
        i = i + 1;
    }
    proof {
        assert(data@.subrange(0, data@.len() as int) =~= data@);
    }
}

/// The lowercase hex encoding of `data`, as bytes.
pub fn hex_bytes(data: &[u8]) -> (r: Vec<u8>)
    ensures
        r@ == hex_of(data@),
{
    let mut out: Vec<u8> = Vec::new();
    push_hex(&mut out, data);
    proof {
        assert(Seq::<u8>::empty() + hex_of(data@) =~= hex_of(data@));
    }
    out
}

/// Relies on core::str::from_utf8: ASCII bytes are valid UTF-8 and decode to
/// the characters with those code points, one character per byte.
#[verifier::external_body]
fn str_of_ascii<'a>(b: &'a [u8]) -> (r: &'a str)
    requires
        all_ascii(b@),
    ensures
        r@ == ascii_chars_of(b@),
{
    core::str::from_utf8(b).unwrap()
}

/// A scratch buffer sized for the hex encoding of one SHA-256 digest, so that
/// repeated encodings in one signing pass reuse a single allocation. Each call
/// to `hex` overwrites the buffer: the returned view borrows the buffer and
/// must be consumed or copied before the next call, which the borrow enforces.
pub struct HexBuf {
    buf: Vec<u8>,
}

impl HexBuf {
    /// A fresh buffer with room for one 64-character encoding.
    pub fn new() -> (r: HexBuf) {
        HexBuf { buf: Vec::with_capacity(64) }
    }

    /// Overwrites the buffer with the lowercase hex encoding of a 32-byte
    /// digest and returns it; the previous encoding is invalidated.
    pub fn hex<'a>(&'a mut self, data: &[u8]) -> (r: &'a str)
        requires
            data@.len() == 32,
        ensures
            r@ == ascii_chars_of(hex_of(data@)),
            r@.len() == 64,
    {
        self.buf.clear();
        push_hex(&mut self.buf, data);
        proof {
            lemma_hex_of_props(data@);
            assert(Seq::<u8>::empty() + hex_of(data@) =~= hex_of(data@));
        }
        str_of_ascii(self.buf.as_slice())
    }
}

} // verus!
