use vstd::prelude::*;

verus! {

/// The decimal digit character for a value below ten.
pub open spec fn dec_digit(d: nat) -> char
    recommends
        d < 10,
{
    ((0x30 + d) as u8) as char
}

/// The decimal digits of `n`, most significant first, without sign or padding.
pub open spec fn dec_chars(n: nat) -> Seq<char>
    decreases n,
{
    if n < 10 {
        seq![dec_digit(n)]
    } else {
        dec_chars(n / 10).push(dec_digit(n % 10))
    }
}

/// The latest timestamp that still maps to a calendar date: the last second
/// of the last day of year 262142, the furthest date chrono represents.
pub const TS_MAX: u64 = 8210266876799;

/// The `YYYY-MM-DD` UTC date for the timestamp; a function of it alone.
pub uninterp spec fn date_chars_of(ts: u64) -> Seq<char>;

/// Relies on itoa::Buffer::format: it writes exactly the decimal digits of
/// the value.
#[verifier::external_body]
pub(crate) fn format_u64(n: u64) -> (r: String)
    ensures
        r@ == dec_chars(n as nat),
{
    let mut buf = itoa::Buffer::new();
    buf.format(n).to_string()
}

/// Relies on chrono::DateTime::from_timestamp and its `%Y-%m-%d` formatting:
/// a timestamp up to TS_MAX maps to its UTC calendar date; a larger one has
/// no calendar representation and yields nothing.
#[verifier::external_body]
pub(crate) fn timestamp_to_date(ts: u64) -> (r: Option<String>)
    ensures
        r is Some <==> ts <= TS_MAX,
        r matches Some(s) ==> s@ == date_chars_of(ts),
{
    match i64::try_from(ts) {
        Ok(secs) => chrono::DateTime::from_timestamp(secs, 0).map(
            |dt| dt.format("%Y-%m-%d").to_string(),
        ),
        Err(_) => None,
    }
}

} // verus!
