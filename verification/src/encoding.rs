//! Byte-level encodings: percent-encoding of query values (by `urlencoding`),
//! UTF-8 decoding of response bodies, and the byte rule for HTTP header values.

use vstd::prelude::*;
use vstd::utf8::{decode_utf8, encode_utf8, valid_utf8};

verus! {

/// The bytes that percent-encoding leaves alone: ASCII letters and digits, `-`, `.`, `_`, `~`.
pub open spec fn is_unreserved_byte(b: u8) -> bool {
    (48 <= b && b <= 57) || (65 <= b && b <= 90) || (97 <= b && b <= 122) || b == 45 || b == 46
        || b == 95 || b == 126
}

/// The upper-case hexadecimal digit for `d < 16`.
pub open spec fn hex_upper(d: u8) -> char {
    if d < 10 {
        ((48 + d) as u8) as char
    } else {
        ((55 + d) as u8) as char
    }
}

/// One byte, percent-encoded.
pub open spec fn percent_encode_byte(b: u8) -> Seq<char> {
    if is_unreserved_byte(b) {
        seq![b as char]
    } else {
        seq!['%', hex_upper(b / 16), hex_upper(b % 16)]
    }
}

/// A byte sequence, percent-encoded byte by byte.
pub open spec fn percent_encode(bytes: Seq<u8>) -> Seq<char>
    decreases bytes.len(),
{
    if bytes.len() == 0 {
        Seq::<char>::empty()
    } else {
        percent_encode(bytes.drop_last()) + percent_encode_byte(bytes.last())
    }
}

/// The percent-encoding of the UTF-8 bytes of `s`.
pub open spec fn url_encoded(s: Seq<char>) -> Seq<char> {
    percent_encode(encode_utf8(s))
}

/// Calls `urlencoding::encode`, which writes every byte of the UTF-8 encoding
/// of `value` that is an ASCII letter or digit or one of `-`, `.`, `_`, `~` as
/// itself, and every other byte as `%` and two upper-case hexadecimal digits.
/// The contract claims exactly that of it.
#[verifier::external_body]
pub(crate) fn url_encode(value: &str) -> (res: String)
    ensures
        res@ == url_encoded(value@),
{
    urlencoding::encode(value).into_owned()
}

/// The text of the error that `String::from_utf8` gives for bytes that are not
/// UTF-8 (its `Display`, which names where the fault lies); it depends on the
/// bytes alone.
pub uninterp spec fn utf8_error_text(bytes: Seq<u8>) -> Seq<char>;

/// Calls `String::from_utf8`, which succeeds exactly on valid UTF-8 and then
/// holds the decoded characters. On failure the contract claims that the bytes
/// were not valid UTF-8 and that the error text is `utf8_error_text` of them;
/// what that text says is not stated.
#[verifier::external_body]
pub(crate) fn decode_utf8_bytes(bytes: Vec<u8>) -> (res: Result<String, String>)
    ensures
        match res {
            Ok(s) => valid_utf8(bytes@) && s@ == decode_utf8(bytes@),
            Err(m) => !valid_utf8(bytes@) && m@ == utf8_error_text(bytes@),
        },
{
    String::from_utf8(bytes).map_err(|e| e.to_string())
}

/// A byte that an HTTP header value may hold: visible ASCII, space, tab, or any byte above 127.
pub open spec fn is_header_value_byte(b: u8) -> bool {
    (b >= 32 && b != 127) || b == 9
}

/// Every UTF-8 byte of `s` may stand in an HTTP header value.
pub open spec fn is_valid_header_value(s: Seq<char>) -> bool {
    forall|i: int| 0 <= i < encode_utf8(s).len() ==> is_header_value_byte(#[trigger] encode_utf8(s)[i])
}

/// The text of `http::header::InvalidHeaderValue`.
pub open spec fn invalid_header_value_message() -> Seq<char> {
    "failed to parse header value"@
}

/// Calls `HeaderValue::from_str` (of `http`, through `wstd::http`), which
/// accepts a string exactly when every byte is a tab or at least 32 and not
/// 127, and whose error displays as "failed to parse header value". The
/// contract claims that; the built value itself is dropped.
#[verifier::external_body]
pub(crate) fn check_header_value(value: &str) -> (res: Result<(), String>)
    ensures
        match res {
            Ok(()) => is_valid_header_value(value@),
            Err(m) => !is_valid_header_value(value@) && m@ == invalid_header_value_message(),
        },
{
    wstd::http::HeaderValue::from_str(value).map(|_| ()).map_err(|e| e.to_string())
}


/// A character that percent-encoding may write: an unreserved ASCII character or `%`.
pub open spec fn is_url_safe_char(c: char) -> bool {
    ('0' <= c && c <= '9') || ('A' <= c && c <= 'Z') || ('a' <= c && c <= 'z') || c == '-' || c
        == '.' || c == '_' || c == '~' || c == '%'
}

proof fn lemma_percent_encode_safe(bytes: Seq<u8>)
    ensures
        forall|i: int|
            0 <= i < percent_encode(bytes).len() ==> is_url_safe_char(
                #[trigger] percent_encode(bytes)[i],
            ),
    decreases bytes.len(),
{
    if bytes.len() > 0 {
        lemma_percent_encode_safe(bytes.drop_last());
        let prev = percent_encode(bytes.drop_last());
        let last = percent_encode_byte(bytes.last());
        let b = bytes.last();
        assert(forall|i: int| 0 <= i < last.len() ==> is_url_safe_char(#[trigger] last[i])) by {
            if !is_unreserved_byte(b) {
                assert(b / 16 < 16 && b % 16 < 16);
            }
        }
        assert forall|i: int| 0 <= i < percent_encode(bytes).len() implies is_url_safe_char(
            #[trigger] percent_encode(bytes)[i],
        ) by {
            if i < prev.len() {
                assert(percent_encode(bytes)[i] == prev[i]);
            } else {
                assert(percent_encode(bytes)[i] == last[i - prev.len()]);
            }
        }
    }
}

/// Percent-encoding writes only unreserved ASCII characters and `%`, so an
/// encoded value holds no `&`, `=`, `?`, `#`, space or quote that could break
/// the query string it stands in.
pub proof fn lemma_url_encoded_is_url_safe(s: Seq<char>)
    ensures
        forall|i: int|
            0 <= i < url_encoded(s).len() ==> is_url_safe_char(#[trigger] url_encoded(s)[i]),
{
    lemma_percent_encode_safe(encode_utf8(s));
}

} // verus!
