use glyphic::component::Glyphic;
use glyphic::datasource::{
    self, check_response_status_is_successful, format_error_as_json, read_response_body_as_string,
    reply_from_outcome, Datasource,
};
use glyphic::errors::{
    map_http_error_to_auth_error, map_http_error_to_join_call_error, map_http_error_to_query_error,
    map_http_error_to_resource_error, map_status_code_to_http_error, AuthError, HttpError,
    JoinCallError, QueryError, ResourceError,
};
use glyphic::endpoints::{
    build_call_by_id_endpoint_url, build_call_media_endpoint_url, build_call_snippets_endpoint_url,
    build_calls_endpoint_url, build_ping_endpoint_url,
};
use glyphic::query::{
    build_query_string_from_json_parameters, extract_query_pair_from_json_field,
    extract_tag_ids_from_json_parameters, parse_json_params_to_query_pairs,
};
use glyphic::datasource::body_text_from_decoded;
use glyphic::requests::{
    assemble_get_request, assemble_post_request, response_from_decoded_body,
    build_authenticated_get_request, build_authenticated_post_request,
    read_response_body_with_status_check, HttpMethod,
};
use glyphic::validation::{
    is_empty_json_object, validate_api_key_is_not_empty, validate_hexadecimal_identifier_format,
    validate_join_call_request_body,
};

const VALID_ID: &str = "5eb7cf5a86d9755df3a6c593";

fn header_pairs(headers: &[(String, String)]) -> Vec<(&str, &str)> {
    headers.iter().map(|(n, v)| (n.as_str(), v.as_str())).collect()
}

#[test]
fn identifier_errors_are_exact() {
    assert_eq!(
        validate_hexadecimal_identifier_format("", "call_id").unwrap_err(),
        "Invalid call_id: must be 24 characters, got 0"
    );
    assert_eq!(
        validate_hexadecimal_identifier_format("5eb7cf5a86d9755df3a6c59z", "version_id")
            .unwrap_err(),
        "Invalid version_id: must contain only hexadecimal characters"
    );
    assert!(validate_hexadecimal_identifier_format("ABCDEF0123456789abcdef01", "x").is_ok());
}

#[test]
fn identifier_length_counts_bytes() {
    // Twelve two-byte characters make 24 bytes but are not hexadecimal digits.
    let twelve = "é".repeat(12);
    assert_eq!(
        validate_hexadecimal_identifier_format(&twelve, "call_id").unwrap_err(),
        "Invalid call_id: must contain only hexadecimal characters"
    );
    assert_eq!(
        validate_hexadecimal_identifier_format("ééé", "call_id").unwrap_err(),
        "Invalid call_id: must be 24 characters, got 6"
    );
}

#[test]
fn blank_objects_are_empty() {
    assert!(is_empty_json_object(""));
    assert!(is_empty_json_object(" \n{}\t"));
    assert!(!is_empty_json_object("{ }"));
    assert!(!is_empty_json_object("{\"a\": 1}"));
}

#[test]
fn join_call_body_is_trimmed_before_checks() {
    assert_eq!(
        validate_join_call_request_body("   {}  ").unwrap_err(),
        "Request body cannot be empty"
    );
    assert_eq!(
        validate_join_call_request_body("{\"meeting_url2\": 1}").unwrap_err(),
        "Request body must contain meeting_url field"
    );
    assert!(validate_join_call_request_body(" {\"meeting_url\": \"x\"} ").is_ok());
}

#[test]
fn api_key_of_unicode_whitespace_is_refused() {
    let result = validate_api_key_is_not_empty("\u{3000}\u{a0}\t");
    assert!(matches!(result, Err(HttpError::Unauthorized(m)) if m == "API key cannot be empty"));
    assert!(validate_api_key_is_not_empty(" k ").is_ok());
}

#[test]
fn query_pair_is_percent_encoded() {
    assert_eq!(
        build_query_string_from_json_parameters("{\"participant_email\": \"user@example.com\"}")
            .unwrap(),
        "?participant_email=user%40example.com"
    );
    assert_eq!(
        extract_query_pair_from_json_field(" \"q\" : \"café au lait\" ").unwrap(),
        "q=caf%C3%A9%20au%20lait"
    );
    assert_eq!(
        extract_query_pair_from_json_field("\"t\": \"a-b_c.d~e\"").unwrap(),
        "t=a-b_c.d~e"
    );
}

#[test]
fn query_pairs_skip_empty_null_arrays_and_fields_without_colon() {
    assert!(extract_query_pair_from_json_field("\"a\": \"\"").is_none());
    assert!(extract_query_pair_from_json_field("\"a\": null").is_none());
    assert!(extract_query_pair_from_json_field("\"a\": [1").is_none());
    assert!(extract_query_pair_from_json_field("\"a\"").is_none());
    assert_eq!(
        parse_json_params_to_query_pairs("{\"a\": \"1\", \"b\", \"c\": 3, \"d\": null}"),
        vec!["a=1".to_string(), "c=3".to_string()]
    );
    assert!(parse_json_params_to_query_pairs("  {}} ").is_empty());
}

#[test]
fn value_split_at_first_colon_only() {
    assert_eq!(
        extract_query_pair_from_json_field("\"after\": \"10:30\"").unwrap(),
        "after=10%3A30"
    );
}

#[test]
fn tag_ids_are_unquoted_and_empty_ones_dropped() {
    assert_eq!(
        extract_tag_ids_from_json_parameters("{\"tag_ids\": [\" a \",  \"\" , \"b c\"]}"),
        vec!["tag_ids=%20a%20".to_string(), "tag_ids=b%20c".to_string()]
    );
    assert!(extract_tag_ids_from_json_parameters("{\"tag_ids\": \"x\"}").is_empty());
    assert!(extract_tag_ids_from_json_parameters("{\"tag_ids\": [\"x\"").is_empty());
}

#[test]
fn query_string_joins_scalar_pairs_then_tag_pairs() {
    assert_eq!(
        build_query_string_from_json_parameters(
            "{\"limit\": \"20\", \"tag_ids\": [\"abc\", \"def\"], \"direction\": \"next\"}"
        )
        .unwrap(),
        "?limit=20&direction=next&tag_ids=abc&tag_ids=def"
    );
    assert_eq!(build_query_string_from_json_parameters("{\"a\": null}").unwrap(), "");
}

#[test]
fn datasource_query_keeps_array_values() {
    assert_eq!(
        datasource::build_query_string_for_calls("{\"limit\": \"20\", \"tags\": [\"a\"]}").unwrap(),
        "?limit=20&tags=%5B%22a%22%5D"
    );
    assert_eq!(
        build_query_string_from_json_parameters("{\"limit\": \"20\", \"tags\": [\"a\"]}").unwrap(),
        "?limit=20"
    );
    assert_eq!(
        datasource::extract_query_pair_from_json_field("\"a\": [1").unwrap(),
        "a=%5B1"
    );
    assert_eq!(
        datasource::parse_json_params_to_query_pairs("{\"x\": \"y\", \"z\": null}"),
        vec!["x=y".to_string()]
    );
}

#[test]
fn unknown_status_message_names_the_status() {
    let error = map_status_code_to_http_error(502, "Bad gateway".to_string());
    assert!(matches!(error, HttpError::Unknown(m) if m == "HTTP 502: Bad gateway"));
    let error = map_status_code_to_http_error(0, String::new());
    assert!(matches!(error, HttpError::Unknown(m) if m == "HTTP 0: "));
}

#[test]
fn every_mapping_keeps_the_message() {
    let kinds: Vec<fn(String) -> HttpError> = vec![
        HttpError::Unauthorized,
        HttpError::NotFound,
        HttpError::Validation,
        HttpError::Conflict,
        HttpError::TooManyRequests,
        HttpError::InternalError,
        HttpError::Unknown,
    ];
    for kind in kinds {
        let auth = match map_http_error_to_auth_error(kind("m".to_string())) {
            AuthError::Unauthorized(m) | AuthError::TooManyRequests(m) | AuthError::Unknown(m) => m,
        };
        let query = match map_http_error_to_query_error(kind("m".to_string())) {
            QueryError::Unauthorized(m)
            | QueryError::Validation(m)
            | QueryError::TooManyRequests(m)
            | QueryError::Unknown(m) => m,
        };
        let resource = match map_http_error_to_resource_error(kind("m".to_string())) {
            ResourceError::Unauthorized(m)
            | ResourceError::NotFound(m)
            | ResourceError::Validation(m)
            | ResourceError::TooManyRequests(m)
            | ResourceError::Unknown(m) => m,
        };
        let join = match map_http_error_to_join_call_error(kind("m".to_string())) {
            JoinCallError::Unauthorized(m)
            | JoinCallError::Conflict(m)
            | JoinCallError::Validation(m)
            | JoinCallError::TooManyRequests(m)
            | JoinCallError::InternalError(m)
            | JoinCallError::Unknown(m) => m,
        };
        assert_eq!((auth.as_str(), query.as_str(), resource.as_str(), join.as_str()), ("m", "m", "m", "m"));
    }
    assert!(matches!(
        map_http_error_to_resource_error(HttpError::Conflict("c".to_string())),
        ResourceError::Unknown(m) if m == "c"
    ));
    assert!(matches!(
        map_http_error_to_query_error(HttpError::NotFound("n".to_string())),
        QueryError::Unknown(m) if m == "n"
    ));
}

#[test]
fn response_reading() {
    assert_eq!(read_response_body_with_status_check(200, b"ok".to_vec()).unwrap(), "ok");
    assert_eq!(read_response_body_with_status_check(299, "é".as_bytes().to_vec()).unwrap(), "é");
    assert!(matches!(
        read_response_body_with_status_check(404, b"nf".to_vec()),
        Err(HttpError::NotFound(m)) if m == "nf"
    ));
    assert!(matches!(
        read_response_body_with_status_check(302, b"x".to_vec()),
        Err(HttpError::Unknown(m)) if m == "HTTP 302: x"
    ));
    assert!(matches!(
        read_response_body_with_status_check(200, vec![0xff, 0x41]),
        Err(HttpError::Unknown(m)) if m.starts_with("Response body is not valid UTF-8: ")
    ));
}

#[test]
fn requests_carry_key_and_json_headers() {
    let request = build_authenticated_get_request("k-1", "https://x/y".to_string()).unwrap();
    assert_eq!(request.method, HttpMethod::Get);
    assert_eq!(request.url, "https://x/y");
    assert_eq!(header_pairs(&request.headers), vec![("X-API-Key", "k-1"), ("Accept", "application/json")]);
    assert!(request.body.is_none());

    let request =
        build_authenticated_post_request("k-2", "https://x/z".to_string(), "{}".to_string())
            .unwrap();
    assert_eq!(request.method, HttpMethod::Post);
    assert_eq!(
        header_pairs(&request.headers),
        vec![("X-API-Key", "k-2"), ("Content-Type", "application/json"), ("Accept", "application/json")]
    );
    assert_eq!(request.body.as_deref(), Some("{}"));
}

#[test]
fn key_that_cannot_be_a_header_is_refused() {
    assert_eq!(
        build_authenticated_get_request("bad\nkey", "u".to_string()).unwrap_err(),
        "Invalid API key: failed to parse header value"
    );
    assert!(build_authenticated_get_request("tab\tand é", "u".to_string()).is_ok());
    assert!(matches!(
        Glyphic::prepare_test_ping("a\u{7f}b"),
        Err(AuthError::Unknown(m)) if m == "Invalid API key: failed to parse header value"
    ));
}

#[test]
fn component_validates_identifier_before_key() {
    assert!(matches!(
        Glyphic::prepare_get_call_by_id("", "short"),
        Err(ResourceError::Validation(m)) if m == "Invalid call_id: must be 24 characters, got 5"
    ));
    assert!(matches!(
        Glyphic::prepare_get_call_media_by_id("  ", VALID_ID),
        Err(ResourceError::Unauthorized(m)) if m == "API key cannot be empty"
    ));
    let request = Glyphic::prepare_get_call_snippets_by_id("key", VALID_ID).unwrap();
    assert_eq!(request.url, format!("https://api.glyphic.ai/v1/calls/{}/snippets", VALID_ID));
    assert_eq!(request.method, HttpMethod::Get);
}

#[test]
fn component_playbook_version_checks_both_identifiers() {
    assert!(matches!(
        Glyphic::prepare_get_playbook_version_by_id("key", "nope", "also nope"),
        Err(ResourceError::Validation(m)) if m.contains("playbook_id")
    ));
    assert!(matches!(
        Glyphic::prepare_get_playbook_version_by_id("key", VALID_ID, "zz"),
        Err(ResourceError::Validation(m)) if m == "Invalid version_id: must be 24 characters, got 2"
    ));
    let request =
        Glyphic::prepare_get_playbook_version_by_id("key", VALID_ID, "aabbccdd11223344eeff5566")
            .unwrap();
    assert_eq!(
        request.url,
        format!("https://api.glyphic.ai/v1/playbooks/{}/versions/aabbccdd11223344eeff5566", VALID_ID)
    );
    let request = Glyphic::prepare_list_playbook_versions("key", VALID_ID).unwrap();
    assert!(request.url.ends_with("/versions"));
    let request = Glyphic::prepare_get_playbook_by_id("key", VALID_ID).unwrap();
    assert!(request.url.ends_with(VALID_ID));
}

#[test]
fn component_listings_carry_query_strings() {
    let request = Glyphic::prepare_get_calls("key", "{\"limit\": \"5\"}").unwrap();
    assert_eq!(request.url, "https://api.glyphic.ai/v1/calls/?limit=5");
    let request = Glyphic::prepare_list_playbooks("key", "{}").unwrap();
    assert_eq!(request.url, "https://api.glyphic.ai/v1/playbooks/");
    assert!(matches!(
        Glyphic::prepare_list_playbooks("", "{}"),
        Err(QueryError::Unauthorized(_))
    ));
    let request = Glyphic::prepare_list_call_tags("key").unwrap();
    assert_eq!(request.url, "https://api.glyphic.ai/v1/call_tags/");
    let request = Glyphic::prepare_test_ping("key").unwrap();
    assert_eq!(request.url, "https://api.glyphic.ai/v1/test/ping");
}

#[test]
fn component_join_call_posts_the_body() {
    assert!(matches!(
        Glyphic::prepare_join_call("key", "{}".to_string()),
        Err(JoinCallError::Validation(m)) if m == "Request body cannot be empty"
    ));
    assert!(matches!(
        Glyphic::prepare_join_call("", "{\"meeting_url\": \"u\"}".to_string()),
        Err(JoinCallError::Unauthorized(_))
    ));
    let request = Glyphic::prepare_join_call("key", "{\"meeting_url\": \"u\"}".to_string()).unwrap();
    assert_eq!(request.method, HttpMethod::Post);
    assert_eq!(request.url, "https://api.glyphic.ai/v1/call_bots");
    assert_eq!(request.body.as_deref(), Some("{\"meeting_url\": \"u\"}"));
}

#[test]
fn endpoints_of_calls() {
    assert_eq!(build_ping_endpoint_url(), "https://api.glyphic.ai/v1/test/ping");
    assert_eq!(build_calls_endpoint_url("?a=1".to_string()), "https://api.glyphic.ai/v1/calls/?a=1");
    assert_eq!(build_call_by_id_endpoint_url("c"), "https://api.glyphic.ai/v1/calls/c");
    assert_eq!(build_call_media_endpoint_url("c"), "https://api.glyphic.ai/v1/calls/c/media");
    assert_eq!(build_call_snippets_endpoint_url("c"), "https://api.glyphic.ai/v1/calls/c/snippets");
}

#[test]
fn error_json_escapes_quotes() {
    assert_eq!(format_error_as_json("plain"), "{\"error\": \"plain\"}");
    assert_eq!(format_error_as_json("say \"hi\""), "{\"error\": \"say \\\"hi\\\"\"}");
}

#[test]
fn datasource_status_and_body() {
    assert!(check_response_status_is_successful(204).is_ok());
    assert_eq!(
        check_response_status_is_successful(401).unwrap_err(),
        "API request failed with status 401"
    );
    assert_eq!(
        check_response_status_is_successful(199).unwrap_err(),
        "API request failed with status 199"
    );
    assert_eq!(read_response_body_as_string(b"{}".to_vec()).unwrap(), "{}");
    assert!(read_response_body_as_string(vec![0xc3]).unwrap_err().starts_with("Response body is not valid UTF-8: "));
    assert_eq!(reply_from_outcome(Ok("body".to_string())), "body");
    assert_eq!(reply_from_outcome(Err("bad".to_string())), "{\"error\": \"bad\"}");
}

#[test]
fn datasource_operations_reply_with_json_errors() {
    assert_eq!(
        Datasource::prepare_get_call_by_id("key", "xyz").unwrap_err(),
        "{\"error\": \"Invalid call_id: must be 24 characters, got 3\"}"
    );
    assert_eq!(
        Datasource::prepare_test_ping(" ").unwrap_err(),
        "{\"error\": \"API key cannot be empty\"}"
    );
    assert_eq!(
        datasource::validate_api_key_is_not_empty("").unwrap_err(),
        "API key cannot be empty"
    );
    let request = Datasource::prepare_get_calls("key", "{\"limit\": \"20\"}").unwrap();
    assert_eq!(request.url, "https://api.glyphic.ai/v1/calls/?limit=20");
    let request = Datasource::prepare_get_call_media_by_id("key", VALID_ID).unwrap();
    assert!(request.url.ends_with("/media"));
    let request = Datasource::prepare_get_call_snippets_by_id("key", VALID_ID).unwrap();
    assert!(request.url.ends_with("/snippets"));
    assert!(datasource::prepare_authenticated_get_request("key", "u".to_string()).is_ok());
}

#[test]
fn encoded_values_cannot_break_the_query() {
    let pair = extract_query_pair_from_json_field("\"k\": \"a&b=c?d#e f'é\"").unwrap();
    let value = &pair["k=".len()..];
    assert_eq!(value, "a%26b%3Dc%3Fd%23e%20f%27%C3%A9");
    assert!(value
        .chars()
        .all(|c| c.is_ascii_alphanumeric() || "-._~%".contains(c)));
}

#[test]
fn both_components_agree_without_array_values() {
    for params in [
        "{\"limit\": \"20\", \"direction\": \"next\"}",
        "{}",
        "{\"cursor\": null}",
        "  {\"participant_email\": \"user@example.com\"}  ",
    ] {
        assert_eq!(
            datasource::build_query_string_for_calls(params).unwrap(),
            build_query_string_from_json_parameters(params).unwrap()
        );
    }
}

#[test]
fn url_that_does_not_parse_is_refused() {
    assert_eq!(
        build_authenticated_get_request("key", "https://x/a b".to_string()).unwrap_err(),
        "Failed to build request: invalid uri character"
    );
    assert_eq!(
        build_authenticated_post_request("bad\nkey", "https://x/a b".to_string(), "{}".to_string())
            .unwrap_err(),
        "Invalid API key: failed to parse header value"
    );
    assert!(matches!(
        Glyphic::prepare_get_calls("key", "{\"a b\": \"1\"}"),
        Err(QueryError::Unknown(m)) if m == "Failed to build request: invalid uri character"
    ));
    assert!(matches!(
        Glyphic::prepare_get_calls(" ", "{\"a b\": \"1\"}"),
        Err(QueryError::Unauthorized(m)) if m == "API key cannot be empty"
    ));
    assert_eq!(
        Datasource::prepare_get_calls("key", "{\"a b\": \"1\"}").unwrap_err(),
        "{\"error\": \"Failed to build request: invalid uri character\"}"
    );
}

#[test]
fn assembling_requests_after_the_uri_check() {
    let request = assemble_get_request("k", "https://x/y".to_string(), None).unwrap();
    assert_eq!(request.url, "https://x/y");
    assert_eq!(header_pairs(&request.headers), vec![("X-API-Key", "k"), ("Accept", "application/json")]);
    assert_eq!(
        assemble_get_request("k", "u".to_string(), Some("bad uri".to_string())).unwrap_err(),
        "Failed to build request: bad uri"
    );
    let request =
        assemble_post_request("k", "https://x/z".to_string(), "b".to_string(), None).unwrap();
    assert_eq!(request.body.as_deref(), Some("b"));
    assert_eq!(
        assemble_post_request("k", "u".to_string(), "b".to_string(), Some("oops".to_string()))
            .unwrap_err(),
        "Failed to build request: oops"
    );
}

#[test]
fn reading_after_decoding() {
    assert_eq!(response_from_decoded_body(201, Ok("t".to_string())).unwrap(), "t");
    assert!(matches!(
        response_from_decoded_body(429, Ok("slow".to_string())),
        Err(HttpError::TooManyRequests(m)) if m == "slow"
    ));
    assert!(matches!(
        response_from_decoded_body(200, Err("why".to_string())),
        Err(HttpError::Unknown(m)) if m == "Response body is not valid UTF-8: why"
    ));
    assert_eq!(body_text_from_decoded(Ok("t".to_string())).unwrap(), "t");
    assert_eq!(
        body_text_from_decoded(Err("why".to_string())).unwrap_err(),
        "Response body is not valid UTF-8: why"
    );
}

#[test]
fn invalid_utf8_message_is_whole() {
    assert!(matches!(
        read_response_body_with_status_check(200, vec![0xff, 0x41]),
        Err(HttpError::Unknown(m))
            if m == "Response body is not valid UTF-8: invalid utf-8 sequence of 1 bytes from index 0"
    ));
    assert_eq!(
        read_response_body_as_string(vec![0x41, 0xc3]).unwrap_err(),
        "Response body is not valid UTF-8: incomplete utf-8 byte sequence from index 1"
    );
}

#[test]
fn builders_agree_without_brackets() {
    for params in ["{\"limit\": \"20\", \"direction\": \"next\"}", "{\"q\": \"a:b\", \"x\": null}", ""] {
        assert_eq!(
            datasource::build_query_string_for_calls(params).unwrap(),
            build_query_string_from_json_parameters(params).unwrap()
        );
    }
}
