//! Percent-encoding of query parameters.

use vstd::prelude::*;

verus! {

/// Bytes that percent-encoding leaves as they are: ASCII alphanumerics
/// and `-`, `.`, `_`, `~`.
pub open spec fn is_unreserved(b: u8) -> bool {
    (48 <= b <= 57) || (65 <= b <= 90) || (97 <= b <= 122) || b == 45 || b == 46 || b == 95 || b
        == 126
}

/// The uppercase hex digit for a value below sixteen.
pub open spec fn hex_upper(d: u8) -> u8 {
    if d < 10 {
        (48 + d) as u8
    } else {
        (55 + d) as u8
    }
}

/// One byte percent-encoded: kept when unreserved, else `%` and two
/// uppercase hex digits.
pub open spec fn pe_byte(b: u8) -> Seq<u8> {
    if is_unreserved(b) {
        seq![b]
    } else {
        seq![37u8, hex_upper(b / 16), hex_upper(b % 16)]
    }
}

/// A byte string percent-encoded byte for byte.
pub open spec fn percent_encoded(s: Seq<u8>) -> Seq<u8>
    decreases s.len(),
{
    if s.len() == 0 {
        Seq::empty()
    } else {
        pe_byte(s[0]) + percent_encoded(s.drop_first())
    }
}

/// Relies on urlencoding::encode_binary: every byte except ASCII
/// alphanumerics and `-`, `.`, `_`, `~` becomes `%` and two uppercase
/// hex digits; the rest pass through unchanged.
#[verifier::external_body]
pub fn percent_encode(data: &Vec<u8>) -> (r: Vec<u8>)
    ensures
        r@ == percent_encoded(data@),
{
    urlencoding::encode_binary(data.as_slice()).into_owned().into_bytes()
}

} // verus!
