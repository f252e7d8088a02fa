//! Percent-encoding of credentials and other values placed into a URL query.

use vstd::prelude::*;
use vstd::utf8::encode_utf8;

verus! {

/// The byte needs no escaping in a URL: ASCII alphanumerics and `-`, `.`,
/// `_`, `~`.
pub open spec fn is_url_unreserved(b: u8) -> bool {
    ||| 48 <= b <= 57  // '0' ..= '9'
    ||| 65 <= b <= 90  // 'A' ..= 'Z'
    ||| 97 <= b <= 122  // 'a' ..= 'z'
    ||| b == 45  // '-'
    ||| b == 46  // '.'
    ||| b == 95  // '_'
    ||| b == 126  // '~'
}

/// The upper-case hexadecimal digit for `d`.
pub open spec fn hex_digit(d: u8) -> char {
    if d < 10 {
        ((48 + d) as u8) as char
    } else {
        ((55 + d) as u8) as char  // 'A' is 65 == 55 + 10
    }
}

/// One byte percent-encoded: itself when unreserved, else `%` and two
/// upper-case hexadecimal digits.
pub open spec fn percent_encoded_byte(b: u8) -> Seq<char> {
    if is_url_unreserved(b) {
        seq![b as char]
    } else {
        seq!['%', hex_digit(b / 16), hex_digit(b % 16)]
    }
}

/// A byte sequence percent-encoded, byte for byte.
pub open spec fn percent_encoded_bytes(bs: Seq<u8>) -> Seq<char>
    decreases bs.len(),
{
    if bs.len() == 0 {
        Seq::empty()
    } else {
        percent_encoded_byte(bs[0]) + percent_encoded_bytes(bs.drop_first())
    }
}

/// A string percent-encoded: every byte of its UTF-8 form, escaped as above.
pub open spec fn percent_encoding_of(s: Seq<char>) -> Seq<char> {
    percent_encoded_bytes(encode_utf8(s))
}

/// Relies on urlencoding::encode: percent-encodes every byte of the UTF-8
/// form of `s` except ASCII alphanumerics and `-`, `.`, `_`, `~`, writing
/// `%` and two upper-case hexadecimal digits for each escaped byte.
#[verifier::external_body]
pub(crate) fn percent_encode(s: &str) -> (r: String)
    ensures
        r@ == percent_encoding_of(s@),
{
    urlencoding::encode(s).into_owned()
}

} // verus!
