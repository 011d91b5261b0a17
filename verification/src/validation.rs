//! Validation of identifiers, request bodies and API keys.

use vstd::prelude::*;
use crate::errors::HttpError;
use crate::text::{
    is_whitespace, lemma_trim_empty_iff_all_whitespace, occurs_at, chars_equal, chars_of, contains_exec, contains_seq, decimal, lemma_trimmed_occurrence,
    push_decimal, trim, trim_exec, CharPattern,
};

verus! {

/// `char::is_ascii_hexdigit`.
pub open spec fn is_hex_digit(c: char) -> bool {
    ('0' <= c && c <= '9') || ('a' <= c && c <= 'f') || ('A' <= c && c <= 'F')
}

/// Executable `char::is_ascii_hexdigit`.
pub fn char_is_hex_digit(c: char) -> (res: bool)
    ensures
        res == is_hex_digit(c),
{
    ('0' <= c && c <= '9') || ('a' <= c && c <= 'f') || ('A' <= c && c <= 'F')
}

/// Every character of `s` is a hexadecimal digit.
pub open spec fn all_hex_digits(s: Seq<char>) -> bool {
    forall|i: int| 0 <= i < s.len() ==> is_hex_digit(#[trigger] s[i])
}

/// The number of bytes in the UTF-8 encoding of `s` (`str::len`).
pub open spec fn byte_len(s: Seq<char>) -> nat {
    vstd::utf8::encode_utf8(s).len()
}

/// The error for an identifier whose length in bytes is not 24.
pub open spec fn identifier_length_message(field_name: Seq<char>, len: nat) -> Seq<char> {
    "Invalid "@ + field_name + ": must be 24 characters, got "@ + decimal(len)
}

/// The error for an identifier of 24 bytes that holds a non-hexadecimal character.
pub open spec fn identifier_charset_message(field_name: Seq<char>) -> Seq<char> {
    "Invalid "@ + field_name + ": must contain only hexadecimal characters"@
}

/// The identifier is 24 bytes of hexadecimal digits.
pub open spec fn is_valid_identifier(identifier: Seq<char>) -> bool {
    byte_len(identifier) == 24 && all_hex_digits(identifier)
}

/// The error for an identifier that is not valid.
pub open spec fn identifier_error_message(identifier: Seq<char>, field_name: Seq<char>) -> Seq<
    char,
> {
    if byte_len(identifier) != 24 {
        identifier_length_message(field_name, byte_len(identifier))
    } else {
        identifier_charset_message(field_name)
    }
}

/// Checks that an identifier is 24 hexadecimal characters; the error names the field.
pub fn validate_hexadecimal_identifier_format(identifier: &str, field_name: &str) -> (res: Result<
    (),
    String,
>)
    ensures
        res is Ok <==> is_valid_identifier(identifier@),
        res matches Err(m) ==> m@ == identifier_error_message(identifier@, field_name@),
        byte_len(identifier@) != 24 ==> (res matches Err(m) && m@ == identifier_length_message(
            field_name@,
            byte_len(identifier@),
        )),
        byte_len(identifier@) == 24 && !all_hex_digits(identifier@) ==> (res matches Err(m)
            && m@ == identifier_charset_message(field_name@)),
{
    let len = identifier.as_bytes().len();
    if len != 24 {
        let mut message = String::from_str("Invalid ");
        message.append(field_name);
        message.append(": must be 24 characters, got ");
        push_decimal(&mut message, len);
        return Err(message);
    }
    let chars = chars_of(identifier);
    let mut i: usize = 0;
    while i < chars.len()
        invariant
            i <= chars.len(),
            chars@ == identifier@,
            byte_len(identifier@) == 24,
            forall|j: int| 0 <= j < i ==> is_hex_digit(#[trigger] chars@[j]),
        decreases chars.len() - i,
    {
        if !char_is_hex_digit(chars[i]) {
            let mut message = String::from_str("Invalid ");
            message.append(field_name);
            message.append(": must contain only hexadecimal characters");
            return Err(message);
        }
        i = i + 1;
    }
    Ok(())
}

/// An identifier that passes validation is 24 ASCII characters long.
pub proof fn lemma_valid_identifier_has_24_chars(identifier: Seq<char>)
    requires
        byte_len(identifier) == 24,
        all_hex_digits(identifier),
    ensures
        identifier.len() == 24,
        vstd::utf8::is_ascii_chars(identifier),
{
    assert(vstd::utf8::is_ascii_chars(identifier)) by {
        assert forall|i: int| 0 <= i < identifier.len() implies '\0' <= #[trigger] identifier[i]
            <= '\u{7f}' by {
            assert(is_hex_digit(identifier[i]));
        }
    }
    vstd::utf8::is_ascii_chars_encode_utf8(identifier);
}

/// `str::trim(s).is_empty() || str::trim(s) == "{}"`.
pub open spec fn is_blank_object(s: Seq<char>) -> bool {
    trim(s).len() == 0 || trim(s) == "{}"@
}

/// Whether the JSON text is blank or the empty object `{}`, surrounding whitespace aside.
pub fn is_empty_json_object(json: &str) -> (res: bool)
    ensures
        res == is_blank_object(json@),
{
    let trimmed = trim_exec(&chars_of(json));
    trimmed.len() == 0 || chars_equal(&trimmed, &chars_of("{}"))
}

/// The error for a join-call body that is blank or `{}`.
pub open spec fn empty_body_message() -> Seq<char> {
    "Request body cannot be empty"@
}

/// The error for a join-call body without a `meeting_url` field.
pub open spec fn missing_meeting_url_message() -> Seq<char> {
    "Request body must contain meeting_url field"@
}

/// The quoted key that a join-call body must hold.
pub open spec fn meeting_url_key() -> Seq<char> {
    "\"meeting_url\""@
}

/// Checks that a join-call request body is not empty and mentions `"meeting_url"`.
pub fn validate_join_call_request_body(body: &str) -> (res: Result<(), String>)
    ensures
        res is Ok <==> !is_blank_object(body@) && contains_seq(trim(body@), meeting_url_key()),
        res is Ok <==> !(trim(body@).len() == 0 || trim(body@) == "{}"@) && contains_seq(
            trim(body@),
            "\"meeting_url\""@,
        ),
        is_blank_object(body@) ==> (res matches Err(m) && m@ == empty_body_message()),
        !is_blank_object(body@) && !contains_seq(trim(body@), meeting_url_key()) ==> (res matches Err(
            m,
        ) && m@ == missing_meeting_url_message()),
{
    let trimmed = trim_exec(&chars_of(body));
    if trimmed.len() == 0 || chars_equal(&trimmed, &chars_of("{}")) {
        return Err(String::from_str("Request body cannot be empty"));
    }
    if !contains_exec(&trimmed, &chars_of("\"meeting_url\"")) {
        return Err(String::from_str("Request body must contain meeting_url field"));
    }
    Ok(())
}

/// A text that holds `pat` followed by more holds `pat`.
proof fn lemma_contains_prefix_of_pattern(s: Seq<char>, pat: Seq<char>, more: Seq<char>)
    requires
        contains_seq(s, pat + more),
    ensures
        contains_seq(s, pat),
{
    let i = choose|i: int| occurs_at(s, pat + more, i);
    assert(s.subrange(i, i + pat.len()) =~= (pat + more).subrange(0, pat.len() as int));
    assert((pat + more).subrange(0, pat.len() as int) =~= pat);
    assert(occurs_at(s, pat, i));
}

/// Whatever follows the quoted key, with or without space, a body that is not
/// blank or `{}` and names `"meeting_url"` as a key (`"meeting_url":` or
/// `"meeting_url" :`) is accepted; the check asks for the 13 characters
/// `"meeting_url"` and nothing more.
pub proof fn lemma_quoted_meeting_url_key_is_enough(body: Seq<char>, rest: Seq<char>)
    requires
        !(trim(body).len() == 0 || trim(body) == "{}"@),
        contains_seq(trim(body), "\"meeting_url\""@ + rest),
    ensures
        !is_blank_object(body) && contains_seq(trim(body), meeting_url_key()),
        meeting_url_key().len() == 13,
        meeting_url_key() == "\"meeting_url\""@,
{
    reveal_strlit("\"meeting_url\"");
    lemma_contains_prefix_of_pattern(trim(body), "\"meeting_url\""@, rest);
}

/// A join-call body that passes validation holds the `"meeting_url"` key.
pub proof fn lemma_accepted_body_has_meeting_url(body: Seq<char>)
    requires
        !is_blank_object(body),
        contains_seq(trim(body), meeting_url_key()),
    ensures
        contains_seq(body, meeting_url_key()),
{
    lemma_trimmed_occurrence(body, CharPattern::Whitespace, meeting_url_key());
}

/// The error for a blank API key.
pub open spec fn empty_api_key_message() -> Seq<char> {
    "API key cannot be empty"@
}

/// Checks that the API key holds something besides whitespace.
pub fn validate_api_key_is_not_empty(api_key: &str) -> (res: Result<(), HttpError>)
    ensures
        res is Ok <==> trim(api_key@).len() != 0,
        trim(api_key@).len() == 0 ==> (res matches Err(HttpError::Unauthorized(m)) && m@
            == empty_api_key_message()),
{
    let trimmed = trim_exec(&chars_of(api_key));
    if trimmed.len() == 0 {
        Err(HttpError::Unauthorized(String::from_str("API key cannot be empty")))
    } else {
        Ok(())
    }
}

/// The hexadecimal digits are exactly the code points of `0`-`9`, `a`-`f` and `A`-`F`.
pub proof fn lemma_hex_digit_code_points(c: char)
    ensures
        is_hex_digit(c) <==> (48 <= (c as u32) <= 57 || 97 <= (c as u32) <= 102 || 65 <= (
        c as u32) <= 70),
{
}

/// An API key is refused as empty exactly when every character of it is
/// whitespace (including the empty key).
pub proof fn lemma_api_key_blank_iff_all_whitespace(api_key: Seq<char>)
    ensures
        trim(api_key).len() == 0 <==> forall|i: int|
            0 <= i < api_key.len() ==> is_whitespace(api_key[i]),
{
    lemma_trim_empty_iff_all_whitespace(api_key);
}

} // verus!
