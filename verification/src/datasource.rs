//! The data-source flavour of the component: the same API, with every failure
//! reported in the reply itself as a JSON object `{"error": "..."}`, and with
//! array values in the query parameters passed on like any other value.

use vstd::prelude::*;
use vstd::utf8::{decode_utf8, valid_utf8};
use crate::encoding::{decode_utf8_bytes, utf8_error_text};
use crate::endpoints::{
    api_base_url, build_call_by_id_endpoint_url, build_call_media_endpoint_url,
    build_call_snippets_endpoint_url, build_calls_endpoint_url, build_ping_endpoint_url,
};
use crate::query::{
    tag_ids_key, field_parts, field_query_pair, field_query_pair_exec, fields_query_pairs, object_body,
    object_query_pairs, object_query_pairs_exec, query_string, tag_id_pairs,
};
use crate::requests::{
    build_authenticated_get_request, invalid_utf8_prefix, is_get_request, is_success_status,
    request_refusal, OutgoingRequest,
};
use crate::text::{
    first_index_of, first_occurrence, lacks_char, lemma_first_index_of_found,
    lemma_first_occurrence_found, lemma_lacks_char_split, lemma_lacks_char_split_once,
    lemma_lacks_char_subrange, lemma_lacks_char_trimmed, split_once, strip_start, CharPattern,
    chars_of, decimal, escape_quotes, join, join_exec, push_decimal, push_escaped_quotes, split,
    string_views, trim, trim_exec,
};
use crate::validation::{
    empty_api_key_message, identifier_error_message, is_blank_object, is_empty_json_object,
    is_valid_identifier, validate_hexadecimal_identifier_format,
};

verus! {

/// `{"error": "<message with quotes escaped>"}`.
pub open spec fn error_json(message: Seq<char>) -> Seq<char> {
    "{\"error\": \""@ + escape_quotes(message) + "\"}"@
}

/// Formats an error message as the JSON reply `{"error": "..."}`, escaping its quotes.
pub fn format_error_as_json(error_message: &str) -> (res: String)
    ensures
        res@ == error_json(error_message@),
{
    let mut reply = String::from_str("{\"error\": \"");
    push_escaped_quotes(&mut reply, &chars_of(error_message));
    reply.append("\"}");
    reply
}

/// Checks that a call identifier is 24 hexadecimal characters.
pub fn validate_call_id_format(call_id: &str) -> (res: Result<(), String>)
    ensures
        res is Ok <==> is_valid_identifier(call_id@),
        res matches Err(m) ==> m@ == identifier_error_message(call_id@, "call_id"@),
{
    validate_hexadecimal_identifier_format(call_id, "call_id")
}

/// Extracts the query pair of one `"key": value` field; `None` for a field
/// without a colon or whose value is empty or `null`.
pub fn extract_query_pair_from_json_field(field: &str) -> (res: Option<String>)
    ensures
        match res {
            Some(p) => field_query_pair(field@, false) == Some(p@),
            None => field_query_pair(field@, false) is None,
        },
{
    field_query_pair_exec(&chars_of(field), false)
}

/// The `key=value` query pairs of the object's fields, in order.
pub fn parse_json_params_to_query_pairs(json_params: &str) -> (res: Vec<String>)
    ensures
        string_views(res@) == object_query_pairs(json_params@, false),
{
    object_query_pairs_exec(json_params, false)
}

/// The query string of the call listing: empty for a blank or empty object or
/// when no pair results, else `?` and the pairs joined by `&`.
pub open spec fn calls_query_string(json: Seq<char>) -> Seq<char> {
    if is_blank_object(json) || object_query_pairs(json, false).len() == 0 {
        Seq::<char>::empty()
    } else {
        "?"@ + join(object_query_pairs(json, false), "&"@)
    }
}

/// Builds the query string of the call listing from JSON parameters; it never fails.
pub fn build_query_string_for_calls(json_params: &str) -> (res: Result<String, String>)
    ensures
        res matches Ok(q) && q@ == calls_query_string(json_params@),
{
    if is_empty_json_object(json_params) {
        return Ok(String::new());
    }
    let params = parse_json_params_to_query_pairs(json_params);
    if params.len() == 0 {
        Ok(String::new())
    } else {
        let mut query = String::from_str("?");
        let joined = join_exec(&params, "&");
        query.append(joined.as_str());
        Ok(query)
    }
}

/// Checks that the API key holds something besides whitespace.
pub fn validate_api_key_is_not_empty(api_key: &str) -> (res: Result<(), String>)
    ensures
        res is Ok <==> trim(api_key@).len() != 0,
        res matches Err(m) ==> m@ == empty_api_key_message(),
{
    let trimmed = trim_exec(&chars_of(api_key));
    if trimmed.len() == 0 {
        Err(String::from_str("API key cannot be empty"))
    } else {
        Ok(())
    }
}

/// The error for a response whose status is not a success.
pub open spec fn failed_status_message(status: u16) -> Seq<char> {
    "API request failed with status "@ + decimal(status as nat)
}

/// Checks that the response status is a success (200 to 299).
pub fn check_response_status_is_successful(status: u16) -> (res: Result<(), String>)
    ensures
        res is Ok <==> is_success_status(status),
        res is Ok <==> 200 <= status && status < 300,
        res matches Err(m) ==> m@ == failed_status_message(status),
{
    if 200 <= status && status < 300 {
        Ok(())
    } else {
        let mut message = String::from_str("API request failed with status ");
        push_decimal(&mut message, status as usize);
        Err(message)
    }
}

/// The body text given the outcome of decoding it: the text, or the decoding
/// error behind its prefix.
pub fn body_text_from_decoded(decoded: Result<String, String>) -> (res: Result<String, String>)
    ensures
        match decoded {
            Ok(s) => res == Ok::<String, String>(s),
            Err(e) => res matches Err(m) && m@ == invalid_utf8_prefix() + e@,
        },
{
    match decoded {
        Ok(s) => Ok(s),
        Err(e) => {
            let mut message = String::from_str("Response body is not valid UTF-8: ");
            message.append(e.as_str());
            Err(message)
        },
    }
}

/// The body of a response as text; fails when it is not UTF-8.
pub fn read_response_body_as_string(body: Vec<u8>) -> (res: Result<String, String>)
    ensures
        res is Ok <==> valid_utf8(body@),
        res matches Ok(s) ==> s@ == decode_utf8(body@),
        res matches Err(m) ==> m@ == invalid_utf8_prefix() + utf8_error_text(body@),
{
    body_text_from_decoded(decode_utf8_bytes(body))
}

/// The reply of an operation from the outcome of its request: the body, or the
/// error formatted as JSON.
pub fn reply_from_outcome(outcome: Result<String, String>) -> (res: String)
    ensures
        match outcome {
            Ok(body) => res == body,
            Err(m) => res@ == error_json(m@),
        },
{
    match outcome {
        Ok(response) => response,
        Err(e) => format_error_as_json(e.as_str()),
    }
}

/// The authenticated GET request for `url`, once the key is checked.
pub fn prepare_authenticated_get_request(api_key: &str, url: String) -> (res: Result<
    OutgoingRequest,
    String,
>)
    ensures
        match res {
            Ok(r) => request_refusal(api_key@, url@) is None && is_get_request(r, url@, api_key@),
            Err(m) => request_refusal(api_key@, url@) == Some(m@),
        },
{
    validate_api_key_is_not_empty(api_key)?;
    build_authenticated_get_request(api_key, url)
}

/// The outcome of a plain GET operation: the request, or the JSON reply for its refusal.
pub open spec fn get_outcome(res: Result<OutgoingRequest, String>, api_key: Seq<char>, url: Seq<
    char,
>) -> bool {
    match res {
        Ok(r) => request_refusal(api_key, url) is None && is_get_request(r, url, api_key),
        Err(reply) => request_refusal(api_key, url) matches Some(m) && reply@ == error_json(m),
    }
}

/// The outcome of an operation on one call: the request once the identifier
/// and the key are accepted, else the JSON reply for the first fault.
pub open spec fn call_outcome(res: Result<OutgoingRequest, String>, api_key: Seq<char>, call_id: Seq<
    char,
>, url: Seq<char>) -> bool {
    if is_valid_identifier(call_id) {
        get_outcome(res, api_key, url)
    } else {
        res matches Err(reply) && reply@ == error_json(
            identifier_error_message(call_id, "call_id"@),
        )
    }
}

/// The data-source component.
pub struct Datasource;

impl Datasource {
    /// The GET of `url`, or the JSON reply for a refused key.
    fn prepare_get(api_key: &str, url: String) -> (res: Result<OutgoingRequest, String>)
        ensures
            get_outcome(res, api_key@, url@),
    {
        match prepare_authenticated_get_request(api_key, url) {
            Ok(r) => Ok(r),
            Err(e) => Err(format_error_as_json(e.as_str())),
        }
    }

    /// The GET of `url` for a call whose identifier was checked.
    fn prepare_call_request(api_key: &str, call_id: &str, url: String) -> (res: Result<
        OutgoingRequest,
        String,
    >)
        ensures
            call_outcome(res, api_key@, call_id@, url@),
    {
        match validate_call_id_format(call_id) {
            Ok(()) => Self::prepare_get(api_key, url),
            Err(e) => Err(format_error_as_json(e.as_str())),
        }
    }

    /// `test_ping`: GET `/test/ping`.
    pub fn prepare_test_ping(api_key: &str) -> (res: Result<OutgoingRequest, String>)
        ensures
            get_outcome(res, api_key@, api_base_url() + "/test/ping"@),
    {
        Self::prepare_get(api_key, build_ping_endpoint_url())
    }

    /// `get_calls`: GET `/calls/` with the query string of the parameters.
    pub fn prepare_get_calls(api_key: &str, query_params: &str) -> (res: Result<
        OutgoingRequest,
        String,
    >)
        ensures
            get_outcome(res, api_key@, api_base_url() + "/calls/"@ + calls_query_string(query_params@)),
    {
        match build_query_string_for_calls(query_params) {
            Ok(query_string) => Self::prepare_get(api_key, build_calls_endpoint_url(query_string)),
            Err(e) => {
                let mut message = String::from_str("Invalid query parameters: ");
                message.append(e.as_str());
                Err(format_error_as_json(message.as_str()))
            },
        }
    }

    /// `get_call_by_id`: GET `/calls/{call_id}`.
    pub fn prepare_get_call_by_id(api_key: &str, call_id: &str) -> (res: Result<
        OutgoingRequest,
        String,
    >)
        ensures
            call_outcome(res, api_key@, call_id@, api_base_url() + "/calls/"@ + call_id@),
    {
        Self::prepare_call_request(api_key, call_id, build_call_by_id_endpoint_url(call_id))
    }

    /// `get_call_media_by_id`: GET `/calls/{call_id}/media`.
    pub fn prepare_get_call_media_by_id(api_key: &str, call_id: &str) -> (res: Result<
        OutgoingRequest,
        String,
    >)
        ensures
            call_outcome(
                res,
                api_key@,
                call_id@,
                api_base_url() + "/calls/"@ + call_id@ + "/media"@,
            ),
    {
        Self::prepare_call_request(api_key, call_id, build_call_media_endpoint_url(call_id))
    }

    /// `get_call_snippets_by_id`: GET `/calls/{call_id}/snippets`.
    pub fn prepare_get_call_snippets_by_id(api_key: &str, call_id: &str) -> (res: Result<
        OutgoingRequest,
        String,
    >)
        ensures
            call_outcome(
                res,
                api_key@,
                call_id@,
                api_base_url() + "/calls/"@ + call_id@ + "/snippets"@,
            ),
    {
        Self::prepare_call_request(api_key, call_id, build_call_snippets_endpoint_url(call_id))
    }
}

/// No field of the fields has a value that starts with `[`.
pub open spec fn has_no_array_values(fields: Seq<Seq<char>>) -> bool {
    forall|i: int|
        0 <= i < fields.len() ==> !(#[trigger] field_parts(fields[i]) matches Some((k, v)) && v.len()
            > 0 && v[0] == '[')
}

proof fn lemma_fields_query_pairs_without_arrays(fields: Seq<Seq<char>>)
    requires
        has_no_array_values(fields),
    ensures
        fields_query_pairs(fields, true) == fields_query_pairs(fields, false),
    decreases fields.len(),
{
    if fields.len() > 0 {
        assert(has_no_array_values(fields.drop_last())) by {
            assert forall|i: int| 0 <= i < fields.drop_last().len() implies !(#[trigger] field_parts(
                fields.drop_last()[i],
            ) matches Some((k, v)) && v.len() > 0 && v[0] == '[') by {
                assert(fields.drop_last()[i] == fields[i]);
            }
        }
        lemma_fields_query_pairs_without_arrays(fields.drop_last());
        assert(field_parts(fields[fields.len() - 1]) == field_parts(fields.last()));
    }
}

/// Where no parameter value is an array and no `tag_ids` array is given, the
/// call listing of the data-source component asks for the same query string
/// as that of the current component.
pub proof fn lemma_query_strings_agree_without_arrays(json: Seq<char>)
    requires
        has_no_array_values(split(object_body(json), ',')),
        tag_id_pairs(json).len() == 0,
    ensures
        calls_query_string(json) == query_string(json),
{
    lemma_fields_query_pairs_without_arrays(split(object_body(json), ','));
    assert(object_query_pairs(json, true) == object_query_pairs(json, false));
    assert(object_query_pairs(json, true) + tag_id_pairs(json) =~= object_query_pairs(json, false));
}

/// Parameters without `[` hold no array value in any field.
proof fn lemma_no_bracket_no_array_values(json: Seq<char>)
    requires
        lacks_char(json, '['),
    ensures
        has_no_array_values(split(object_body(json), ',')),
{
    let t = trim(json);
    lemma_lacks_char_trimmed(json, CharPattern::Whitespace, '[');
    lemma_lacks_char_trimmed(t, CharPattern::Exactly('{'), '[');
    lemma_lacks_char_trimmed(strip_start(t, CharPattern::Exactly('{')), CharPattern::Exactly('}'), '[');
    let fields = split(object_body(json), ',');
    lemma_lacks_char_split(object_body(json), ',', '[');
    assert forall|i: int| 0 <= i < fields.len() implies !(#[trigger] field_parts(fields[i]) matches Some((
        k,
        v,
    )) && v.len() > 0 && v[0] == '[') by {
        let f = fields[i];
        assert(lacks_char(f, '['));
        lemma_lacks_char_split_once(f, ':', '[');
        if let Some((a, b)) = split_once(f, ':') {
            lemma_lacks_char_trimmed(b, CharPattern::Whitespace, '[');
            lemma_lacks_char_trimmed(trim(b), CharPattern::Exactly('"'), '[');
        }
    }
}

/// Parameters without `[` give no `tag_ids` pair.
proof fn lemma_no_bracket_no_tag_pairs(json: Seq<char>)
    requires
        lacks_char(json, '['),
    ensures
        tag_id_pairs(json).len() == 0,
{
    lemma_first_occurrence_found(json, tag_ids_key());
    if let Some(k) = first_occurrence(json, tag_ids_key()) {
        let start = k + tag_ids_key().len();
        let after_key = json.skip(start);
        lemma_lacks_char_subrange(json, '[', start, json.len() as int);
        assert(after_key =~= json.subrange(start, json.len() as int));
        lemma_first_index_of_found(after_key, '[');
        assert(first_index_of(after_key, '[') is None);
    }
}

/// Without a `[` in the parameters, the current component's query builder and
/// the data-source component's call-listing builder give the same query string.
pub proof fn lemma_query_builders_agree_without_brackets(json: Seq<char>)
    requires
        lacks_char(json, '['),
    ensures
        calls_query_string(json) == query_string(json),
{
    lemma_no_bracket_no_array_values(json);
    lemma_no_bracket_no_tag_pairs(json);
    lemma_query_strings_agree_without_arrays(json);
}

} // verus!
