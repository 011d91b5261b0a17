//! Authenticated requests as plain values, and the reading of responses.
//!
//! Sending is left to the host; what is decided before a request leaves and
//! after its response arrives is decided here.

use vstd::prelude::*;
use vstd::utf8::{decode_utf8, valid_utf8};
use crate::encoding::{
    check_header_value, decode_utf8_bytes, invalid_header_value_message, is_valid_header_value,
    utf8_error_text,
};
use crate::errors::{is_status_error, map_status_code_to_http_error, HttpError};
use crate::text::trim;
use crate::validation::{empty_api_key_message, validate_api_key_is_not_empty};

verus! {

/// The HTTP method of a request.
#[derive(Debug, Clone, Copy, PartialEq, Eq)]
pub enum HttpMethod {
    Get,
    Post,
}

/// A request ready to be sent: method, URL, headers (name, value) in order, and body.
#[derive(Debug)]
pub struct OutgoingRequest {
    pub method: HttpMethod,
    pub url: String,
    pub headers: Vec<(String, String)>,
    pub body: Option<String>,
}

/// The (name, value) texts of a header list.
pub open spec fn header_views(headers: Seq<(String, String)>) -> Seq<(Seq<char>, Seq<char>)> {
    headers.map_values(|h: (String, String)| (h.0@, h.1@))
}

/// The headers of an authenticated GET request.
pub open spec fn get_headers(api_key: Seq<char>) -> Seq<(Seq<char>, Seq<char>)> {
    seq![("X-API-Key"@, api_key), ("Accept"@, "application/json"@)]
}

/// The headers of an authenticated POST request with a JSON body.
pub open spec fn post_headers(api_key: Seq<char>) -> Seq<(Seq<char>, Seq<char>)> {
    seq![
        ("X-API-Key"@, api_key),
        ("Content-Type"@, "application/json"@),
        ("Accept"@, "application/json"@),
    ]
}

/// `r` is the authenticated GET request for `url`.
pub open spec fn is_get_request(r: OutgoingRequest, url: Seq<char>, api_key: Seq<char>) -> bool {
    &&& r.method == HttpMethod::Get
    &&& r.url@ == url
    &&& header_views(r.headers@) == get_headers(api_key)
    &&& r.body is None
}

/// `r` is the authenticated POST request for `url` with the given JSON body.
pub open spec fn is_post_request(
    r: OutgoingRequest,
    url: Seq<char>,
    api_key: Seq<char>,
    body: Seq<char>,
) -> bool {
    &&& r.method == HttpMethod::Post
    &&& r.url@ == url
    &&& header_views(r.headers@) == post_headers(api_key)
    &&& r.body matches Some(b) && b@ == body
}

/// The error for an API key that cannot stand in a header.
pub open spec fn invalid_api_key_message() -> Seq<char> {
    "Invalid API key: "@ + invalid_header_value_message()
}

/// A header of the given name and value.
fn header(name: &str, value: &str) -> (res: (String, String))
    ensures
        res.0@ == name@,
        res.1@ == value@,
{
    (String::from_str(name), String::from_str(value))
}

/// The error for a key that cannot stand in a header, or nothing.
fn check_api_key_header(api_key: &str) -> (res: Result<(), String>)
    ensures
        match res {
            Ok(()) => is_valid_header_value(api_key@),
            Err(m) => !is_valid_header_value(api_key@) && m@ == invalid_api_key_message(),
        },
{
    match check_header_value(api_key) {
        Ok(()) => Ok(()),
        Err(e) => {
            let mut message = String::from_str("Invalid API key: ");
            message.append(e.as_str());
            Err(message)
        },
    }
}

/// The error text of parsing `url` as an `http::Uri`, or `None` when it parses.
pub uninterp spec fn uri_parse_error(url: Seq<char>) -> Option<Seq<char>>;

/// Calls `http::Uri::try_from` (through `wstd::http::Uri`), the parse that the
/// request builder applies to the URL. The contract claims that the result is
/// `uri_parse_error` of the URL: `None` when the URL parses, else the error's
/// `Display` text. What makes a URL parse is not stated.
#[verifier::external_body]
pub(crate) fn check_uri(url: &str) -> (res: Option<String>)
    ensures
        match res {
            Some(m) => uri_parse_error(url@) == Some(m@),
            None => uri_parse_error(url@) is None,
        },
{
    wstd::http::Uri::try_from(url).err().map(|e| e.to_string())
}

/// The start of the error for a URL that does not parse.
pub open spec fn build_failure_prefix() -> Seq<char> {
    "Failed to build request: "@
}

/// Why a request with this key and URL cannot be built, if it cannot: the key
/// cannot stand in a header, or else the URL does not parse.
pub open spec fn request_build_error(api_key: Seq<char>, url: Seq<char>) -> Option<Seq<char>> {
    if !is_valid_header_value(api_key) {
        Some(invalid_api_key_message())
    } else {
        match uri_parse_error(url) {
            Some(e) => Some(build_failure_prefix() + e),
            None => None,
        }
    }
}

/// The GET request for `url` given the outcome of parsing the URL.
pub fn assemble_get_request(api_key: &str, url: String, uri_error: Option<String>) -> (res: Result<
    OutgoingRequest,
    String,
>)
    ensures
        match uri_error {
            Some(e) => res matches Err(m) && m@ == build_failure_prefix() + e@,
            None => res matches Ok(r) && is_get_request(r, url@, api_key@),
        },
{
    if let Some(e) = uri_error {
        let mut message = String::from_str("Failed to build request: ");
        message.append(e.as_str());
        return Err(message);
    }
    let mut headers: Vec<(String, String)> = Vec::new();
    headers.push(header("X-API-Key", api_key));
    headers.push(header("Accept", "application/json"));
    assert(header_views(headers@) =~= get_headers(api_key@));
    Ok(OutgoingRequest { method: HttpMethod::Get, url, headers, body: None })
}

/// The POST request for `url` with a JSON body, given the outcome of parsing the URL.
pub fn assemble_post_request(api_key: &str, url: String, body: String, uri_error: Option<String>) -> (res: Result<
    OutgoingRequest,
    String,
>)
    ensures
        match uri_error {
            Some(e) => res matches Err(m) && m@ == build_failure_prefix() + e@,
            None => res matches Ok(r) && is_post_request(r, url@, api_key@, body@),
        },
{
    if let Some(e) = uri_error {
        let mut message = String::from_str("Failed to build request: ");
        message.append(e.as_str());
        return Err(message);
    }
    let mut headers: Vec<(String, String)> = Vec::new();
    headers.push(header("X-API-Key", api_key));
    headers.push(header("Content-Type", "application/json"));
    headers.push(header("Accept", "application/json"));
    assert(header_views(headers@) =~= post_headers(api_key@));
    Ok(OutgoingRequest { method: HttpMethod::Post, url, headers, body: Some(body) })
}

/// An authenticated GET request for `url`; fails when the key cannot stand in a
/// header, or else when the URL does not parse.
pub fn build_authenticated_get_request(api_key: &str, url: String) -> (res: Result<
    OutgoingRequest,
    String,
>)
    ensures
        match res {
            Ok(r) => request_build_error(api_key@, url@) is None && is_get_request(r, url@, api_key@),
            Err(m) => request_build_error(api_key@, url@) == Some(m@),
        },
{
    check_api_key_header(api_key)?;
    let uri_error = check_uri(url.as_str());
    assemble_get_request(api_key, url, uri_error)
}

/// An authenticated POST request for `url` with a JSON body; fails when the key
/// cannot stand in a header, or else when the URL does not parse.
pub fn build_authenticated_post_request(api_key: &str, url: String, body: String) -> (res: Result<
    OutgoingRequest,
    String,
>)
    ensures
        match res {
            Ok(r) => request_build_error(api_key@, url@) is None && is_post_request(
                r,
                url@,
                api_key@,
                body@,
            ),
            Err(m) => request_build_error(api_key@, url@) == Some(m@),
        },
{
    check_api_key_header(api_key)?;
    let uri_error = check_uri(url.as_str());
    assemble_post_request(api_key, url, body, uri_error)
}

/// Why a request for `url` with this key is refused, if it is: the key is
/// blank, or the request cannot be built.
pub open spec fn request_refusal(api_key: Seq<char>, url: Seq<char>) -> Option<Seq<char>> {
    if trim(api_key).len() == 0 {
        Some(empty_api_key_message())
    } else {
        request_build_error(api_key, url)
    }
}

/// `error` is how a request that may not be sent is refused: unauthorized when
/// the key is blank, unknown otherwise, with the refusal's message.
pub open spec fn is_request_refusal(error: HttpError, api_key: Seq<char>, url: Seq<char>) -> bool {
    &&& (if trim(api_key).len() == 0 {
        error is Unauthorized
    } else {
        error is Unknown
    })
    &&& request_refusal(api_key, url) == Some(error.inner()@)
}

/// The authenticated GET request for `url`, once the key is checked.
pub fn prepare_authenticated_get_request(api_key: &str, url: String) -> (res: Result<
    OutgoingRequest,
    HttpError,
>)
    ensures
        match res {
            Ok(r) => request_refusal(api_key@, url@) is None && is_get_request(r, url@, api_key@),
            Err(e) => is_request_refusal(e, api_key@, url@),
        },
{
    validate_api_key_is_not_empty(api_key)?;
    match build_authenticated_get_request(api_key, url) {
        Ok(r) => Ok(r),
        Err(m) => Err(HttpError::Unknown(m)),
    }
}

/// The authenticated POST request for `url` with a JSON body, once the key is checked.
pub fn prepare_authenticated_post_request(api_key: &str, url: String, body: String) -> (res:
    Result<OutgoingRequest, HttpError>)
    ensures
        match res {
            Ok(r) => request_refusal(api_key@, url@) is None && is_post_request(
                r,
                url@,
                api_key@,
                body@,
            ),
            Err(e) => is_request_refusal(e, api_key@, url@),
        },
{
    validate_api_key_is_not_empty(api_key)?;
    match build_authenticated_post_request(api_key, url, body) {
        Ok(r) => Ok(r),
        Err(m) => Err(HttpError::Unknown(m)),
    }
}

/// The start of the error for a body that is not UTF-8.
pub open spec fn invalid_utf8_prefix() -> Seq<char> {
    "Response body is not valid UTF-8: "@
}

/// `http::StatusCode::is_success`: the status is in 200..300.
pub open spec fn is_success_status(status: u16) -> bool {
    200 <= status && status < 300
}

/// Reads a response given the outcome of decoding its body: the text, when the
/// status is a success; the decoding error, or else the status's error.
pub fn response_from_decoded_body(status: u16, decoded: Result<String, String>) -> (res: Result<
    String,
    HttpError,
>)
    ensures
        match decoded {
            Err(e) => res matches Err(HttpError::Unknown(m)) && m@ == invalid_utf8_prefix() + e@,
            Ok(text) => if is_success_status(status) {
                res == Ok::<String, HttpError>(text)
            } else {
                res matches Err(e) && is_status_error(e, status, text@)
            },
        },
        decoded is Ok && 200 <= status && status < 300 ==> res == Ok::<String, HttpError>(
            decoded->Ok_0,
        ),
        decoded is Ok && !(200 <= status && status < 300) ==> res is Err,
{
    let body_string = match decoded {
        Ok(s) => s,
        Err(e) => {
            let mut message = String::from_str("Response body is not valid UTF-8: ");
            message.append(e.as_str());
            return Err(HttpError::Unknown(message));
        },
    };
    if 200 <= status && status < 300 {
        Ok(body_string)
    } else {
        Err(map_status_code_to_http_error(status, body_string))
    }
}

/// Reads a response: its body, when it is UTF-8 and the status is a success;
/// otherwise the matching error.
pub fn read_response_body_with_status_check(status: u16, body: Vec<u8>) -> (res: Result<
    String,
    HttpError,
>)
    ensures
        !valid_utf8(body@) ==> (res matches Err(HttpError::Unknown(m)) && m@
            == invalid_utf8_prefix() + utf8_error_text(body@)),
        valid_utf8(body@) && is_success_status(status) ==> (res matches Ok(s) && s@
            == decode_utf8(body@)),
        valid_utf8(body@) && !is_success_status(status) ==> (res matches Err(e)
            && is_status_error(e, status, decode_utf8(body@))),
        valid_utf8(body@) && 200 <= status && status < 300 ==> (res matches Ok(s) && s@
            == decode_utf8(body@)),
        valid_utf8(body@) && !(200 <= status && status < 300) ==> res is Err,
{
    response_from_decoded_body(status, decode_utf8_bytes(body))
}

/// Every status from 200 to 299 is a success, and no other.
pub proof fn lemma_success_statuses_are_2xx(status: u16)
    ensures
        is_success_status(status) <==> 200 <= status && status <= 299,
        is_success_status(200) && is_success_status(201) && is_success_status(202)
            && is_success_status(204) && is_success_status(299),
        !is_success_status(199) && !is_success_status(300) && !is_success_status(404),
{
}

} // verus!
