use glyphic::errors::{
    map_http_error_to_auth_error, map_http_error_to_join_call_error, map_http_error_to_query_error,
    map_http_error_to_resource_error, map_status_code_to_http_error, AuthError, HttpError,
    JoinCallError, QueryError, ResourceError,
};
use glyphic::endpoints::{
    build_call_bots_endpoint_url, build_call_tags_endpoint_url, build_playbook_by_id_endpoint_url,
    build_playbook_version_by_id_endpoint_url, build_playbook_versions_endpoint_url,
    build_playbooks_endpoint_url,
};
use glyphic::query::{build_query_string_from_json_parameters, extract_tag_ids_from_json_parameters};
use glyphic::validation::{
    validate_api_key_is_not_empty, validate_hexadecimal_identifier_format,
    validate_join_call_request_body,
};

// AAA Pattern: Arrange-Act-Assert

// Hexadecimal identifier validation tests

#[test]
fn test_validate_hexadecimal_identifier_valid() {
    // Arrange
    let valid_id = "5eb7cf5a86d9755df3a6c593";

    // Act
    let result = validate_hexadecimal_identifier_format(valid_id, "call_id");

    // Assert
    assert!(result.is_ok());
}

#[test]
fn test_validate_hexadecimal_identifier_too_short() {
    // Arrange
    let short_id = "5eb7cf5a86d9755df3a6c59";

    // Act
    let result = validate_hexadecimal_identifier_format(short_id, "call_id");

    // Assert
    assert!(result.is_err());
    assert!(result.unwrap_err().contains("must be 24 characters"));
}

#[test]
fn test_validate_hexadecimal_identifier_too_long() {
    // Arrange
    let long_id = "5eb7cf5a86d9755df3a6c593a";

    // Act
    let result = validate_hexadecimal_identifier_format(long_id, "call_id");

    // Assert
    assert!(result.is_err());
    assert!(result.unwrap_err().contains("must be 24 characters"));
}

#[test]
fn test_validate_hexadecimal_identifier_invalid_chars() {
    // Arrange
    let invalid_id = "5eb7cf5a86d9755df3a6c59z";

    // Act
    let result = validate_hexadecimal_identifier_format(invalid_id, "call_id");

    // Assert
    assert!(result.is_err());
    assert!(result.unwrap_err().contains("hexadecimal"));
}

#[test]
fn test_validate_hexadecimal_identifier_includes_field_name_in_error() {
    // Arrange
    let short_id = "abc123";

    // Act
    let result = validate_hexadecimal_identifier_format(short_id, "playbook_id");

    // Assert
    assert!(result.is_err());
    assert!(result.unwrap_err().contains("playbook_id"));
}

// Query string building tests

#[test]
fn test_build_query_string_empty() {
    // Arrange
    let empty_params = "{}";

    // Act
    let result = build_query_string_from_json_parameters(empty_params);

    // Assert
    assert!(result.is_ok());
    assert_eq!(result.unwrap(), "");
}

#[test]
fn test_build_query_string_single_param() {
    // Arrange
    let parameters = r#"{"limit": "20"}"#;

    // Act
    let result = build_query_string_from_json_parameters(parameters);

    // Assert
    assert!(result.is_ok());
    assert_eq!(result.unwrap(), "?limit=20");
}

#[test]
fn test_build_query_string_multiple_params() {
    // Arrange
    let parameters = r#"{"limit": "20", "direction": "next"}"#;

    // Act
    let result = build_query_string_from_json_parameters(parameters);

    // Assert
    assert!(result.is_ok());
    let query = result.unwrap();
    assert!(query.starts_with('?'));
    assert!(query.contains("limit=20"));
    assert!(query.contains("direction=next"));
}

#[test]
fn test_build_query_string_with_special_chars() {
    // Arrange
    let parameters = r#"{"participant_email": "user@example.com"}"#;

    // Act
    let result = build_query_string_from_json_parameters(parameters);

    // Assert
    assert!(result.is_ok());
    let query = result.unwrap();
    assert!(query.contains("participant_email="));
    // URL encoding should handle @
    assert!(query.contains("%40") || query.contains("@"));
}

#[test]
fn test_build_query_string_ignores_null() {
    // Arrange
    let parameters = r#"{"limit": "20", "cursor": "null"}"#;

    // Act
    let result = build_query_string_from_json_parameters(parameters);

    // Assert
    assert!(result.is_ok());
    let query = result.unwrap();
    assert!(query.contains("limit=20"));
    assert!(!query.contains("cursor"));
}

// Join call request body validation tests

#[test]
fn test_validate_join_call_request_body_valid() {
    // Arrange
    let body = r#"{"meeting_url": "https://meet.example.com/abc"}"#;

    // Act
    let result = validate_join_call_request_body(body);

    // Assert
    assert!(result.is_ok());
}

#[test]
fn test_validate_join_call_request_body_empty() {
    // Arrange
    let body = "{}";

    // Act
    let result = validate_join_call_request_body(body);

    // Assert
    assert!(result.is_err());
    assert!(result.unwrap_err().contains("cannot be empty"));
}

#[test]
fn test_validate_join_call_request_body_empty_string() {
    // Arrange
    let body = "";

    // Act
    let result = validate_join_call_request_body(body);

    // Assert
    assert!(result.is_err());
    assert!(result.unwrap_err().contains("cannot be empty"));
}

#[test]
fn test_validate_join_call_request_body_missing_meeting_url() {
    // Arrange
    let body = r#"{"other_field": "value"}"#;

    // Act
    let result = validate_join_call_request_body(body);

    // Assert
    assert!(result.is_err());
    assert!(result.unwrap_err().contains("meeting_url"));
}

// Extract tag IDs tests

#[test]
fn test_extract_tag_ids_with_array() {
    // Arrange
    let parameters = r#"{"tag_ids": ["abc123", "def456"]}"#;

    // Act
    let result = extract_tag_ids_from_json_parameters(parameters);

    // Assert
    assert_eq!(result.len(), 2);
    assert_eq!(result[0], "tag_ids=abc123");
    assert_eq!(result[1], "tag_ids=def456");
}

#[test]
fn test_extract_tag_ids_no_key() {
    // Arrange
    let parameters = r#"{"limit": "20"}"#;

    // Act
    let result = extract_tag_ids_from_json_parameters(parameters);

    // Assert
    assert!(result.is_empty());
}

#[test]
fn test_extract_tag_ids_empty_array() {
    // Arrange
    let parameters = r#"{"tag_ids": []}"#;

    // Act
    let result = extract_tag_ids_from_json_parameters(parameters);

    // Assert
    assert!(result.is_empty());
}

#[test]
fn test_build_query_string_with_tag_ids() {
    // Arrange
    let parameters = r#"{"limit": "20", "tag_ids": ["abc123", "def456"]}"#;

    // Act
    let result = build_query_string_from_json_parameters(parameters);

    // Assert
    assert!(result.is_ok());
    let query = result.unwrap();
    assert!(query.contains("limit=20"));
    assert!(query.contains("tag_ids=abc123"));
    assert!(query.contains("tag_ids=def456"));
    assert!(!query.contains("["));
}

// URL builder tests

#[test]
fn test_build_call_bots_endpoint_url() {
    // Arrange & Act
    let url = build_call_bots_endpoint_url();

    // Assert
    assert_eq!(url, "https://api.glyphic.ai/v1/call_bots");
}

#[test]
fn test_build_call_tags_endpoint_url() {
    // Arrange & Act
    let url = build_call_tags_endpoint_url();

    // Assert
    assert_eq!(url, "https://api.glyphic.ai/v1/call_tags/");
}

#[test]
fn test_build_playbooks_endpoint_url_no_query() {
    // Arrange & Act
    let url = build_playbooks_endpoint_url(String::new());

    // Assert
    assert_eq!(url, "https://api.glyphic.ai/v1/playbooks/");
}

#[test]
fn test_build_playbooks_endpoint_url_with_query() {
    // Arrange & Act
    let url = build_playbooks_endpoint_url("?limit=20".to_string());

    // Assert
    assert_eq!(url, "https://api.glyphic.ai/v1/playbooks/?limit=20");
}

#[test]
fn test_build_playbook_by_id_endpoint_url() {
    // Arrange
    let playbook_id = "5eb7cf5a86d9755df3a6c593";

    // Act
    let url = build_playbook_by_id_endpoint_url(playbook_id);

    // Assert
    assert_eq!(
        url,
        "https://api.glyphic.ai/v1/playbooks/5eb7cf5a86d9755df3a6c593"
    );
}

#[test]
fn test_build_playbook_versions_endpoint_url() {
    // Arrange
    let playbook_id = "5eb7cf5a86d9755df3a6c593";

    // Act
    let url = build_playbook_versions_endpoint_url(playbook_id);

    // Assert
    assert_eq!(
        url,
        "https://api.glyphic.ai/v1/playbooks/5eb7cf5a86d9755df3a6c593/versions"
    );
}

#[test]
fn test_build_playbook_version_by_id_endpoint_url() {
    // Arrange
    let playbook_id = "5eb7cf5a86d9755df3a6c593";
    let version_id = "aabbccdd11223344eeff5566";

    // Act
    let url = build_playbook_version_by_id_endpoint_url(playbook_id, version_id);

    // Assert
    assert_eq!(
        url,
        "https://api.glyphic.ai/v1/playbooks/5eb7cf5a86d9755df3a6c593/versions/aabbccdd11223344eeff5566"
    );
}

// Status code to HttpError mapping tests

#[test]
fn test_map_status_code_401_to_unauthorized() {
    // Arrange
    let body = "Unauthorized".to_string();

    // Act
    let error = map_status_code_to_http_error(401, body);

    // Assert
    assert!(matches!(error, HttpError::Unauthorized(message) if message == "Unauthorized"));
}

#[test]
fn test_map_status_code_404_to_not_found() {
    // Arrange
    let body = "Not found".to_string();

    // Act
    let error = map_status_code_to_http_error(404, body);

    // Assert
    assert!(matches!(error, HttpError::NotFound(message) if message == "Not found"));
}

#[test]
fn test_map_status_code_409_to_conflict() {
    // Arrange
    let body = "Conflict".to_string();

    // Act
    let error = map_status_code_to_http_error(409, body);

    // Assert
    assert!(matches!(error, HttpError::Conflict(message) if message == "Conflict"));
}

#[test]
fn test_map_status_code_422_to_validation() {
    // Arrange
    let body = "Validation failed".to_string();

    // Act
    let error = map_status_code_to_http_error(422, body);

    // Assert
    assert!(matches!(error, HttpError::Validation(message) if message == "Validation failed"));
}

#[test]
fn test_map_status_code_429_to_too_many_requests() {
    // Arrange
    let body = "Rate limited".to_string();

    // Act
    let error = map_status_code_to_http_error(429, body);

    // Assert
    assert!(matches!(error, HttpError::TooManyRequests(message) if message == "Rate limited"));
}

#[test]
fn test_map_status_code_500_to_internal_error() {
    // Arrange
    let body = "Server error".to_string();

    // Act
    let error = map_status_code_to_http_error(500, body);

    // Assert
    assert!(matches!(error, HttpError::InternalError(message) if message == "Server error"));
}

#[test]
fn test_map_status_code_unknown_to_unknown() {
    // Arrange
    let body = "Bad gateway".to_string();

    // Act
    let error = map_status_code_to_http_error(502, body);

    // Assert
    assert!(matches!(error, HttpError::Unknown(message) if message.contains("502")));
}

// HttpError message extraction tests

#[test]
fn test_http_error_message_extracts_inner_string() {
    // Arrange
    let error = HttpError::Unauthorized("test message".to_string());

    // Act
    let message = error.message();

    // Assert
    assert_eq!(message, "test message");
}

// Auth error mapping tests

#[test]
fn test_map_http_error_unauthorized_to_auth_error() {
    // Arrange
    let error = HttpError::Unauthorized("bad key".to_string());

    // Act
    let auth_error = map_http_error_to_auth_error(error);

    // Assert
    assert!(matches!(auth_error, AuthError::Unauthorized(message) if message == "bad key"));
}

#[test]
fn test_map_http_error_too_many_requests_to_auth_error() {
    // Arrange
    let error = HttpError::TooManyRequests("slow down".to_string());

    // Act
    let auth_error = map_http_error_to_auth_error(error);

    // Assert
    assert!(
        matches!(auth_error, AuthError::TooManyRequests(message) if message == "slow down")
    );
}

#[test]
fn test_map_http_error_not_found_falls_through_to_auth_unknown() {
    // Arrange
    let error = HttpError::NotFound("missing".to_string());

    // Act
    let auth_error = map_http_error_to_auth_error(error);

    // Assert
    assert!(matches!(auth_error, AuthError::Unknown(message) if message == "missing"));
}

// Query error mapping tests

#[test]
fn test_map_http_error_validation_to_query_error() {
    // Arrange
    let error = HttpError::Validation("bad input".to_string());

    // Act
    let query_error = map_http_error_to_query_error(error);

    // Assert
    assert!(matches!(query_error, QueryError::Validation(message) if message == "bad input"));
}

// Resource error mapping tests

#[test]
fn test_map_http_error_not_found_to_resource_error() {
    // Arrange
    let error = HttpError::NotFound("no such call".to_string());

    // Act
    let resource_error = map_http_error_to_resource_error(error);

    // Assert
    assert!(
        matches!(resource_error, ResourceError::NotFound(message) if message == "no such call")
    );
}

// Join call error mapping tests

#[test]
fn test_map_http_error_conflict_to_join_call_error() {
    // Arrange
    let error = HttpError::Conflict("already joined".to_string());

    // Act
    let join_call_error = map_http_error_to_join_call_error(error);

    // Assert
    assert!(
        matches!(join_call_error, JoinCallError::Conflict(message) if message == "already joined")
    );
}

#[test]
fn test_map_http_error_internal_to_join_call_error() {
    // Arrange
    let error = HttpError::InternalError("server crash".to_string());

    // Act
    let join_call_error = map_http_error_to_join_call_error(error);

    // Assert
    assert!(
        matches!(join_call_error, JoinCallError::InternalError(message) if message == "server crash")
    );
}

// API key validation tests

#[test]
fn test_validate_empty_api_key_returns_unauthorized() {
    // Arrange
    let empty_key = "";

    // Act
    let result = validate_api_key_is_not_empty(empty_key);

    // Assert
    assert!(result.is_err());
    assert!(matches!(result.unwrap_err(), HttpError::Unauthorized(_)));
}

#[test]
fn test_validate_whitespace_api_key_returns_unauthorized() {
    // Arrange
    let whitespace_key = "   ";

    // Act
    let result = validate_api_key_is_not_empty(whitespace_key);

    // Assert
    assert!(result.is_err());
    assert!(matches!(result.unwrap_err(), HttpError::Unauthorized(_)));
}

#[test]
fn test_validate_valid_api_key_succeeds() {
    // Arrange
    let valid_key = "sk-test-key-123";

    // Act
    let result = validate_api_key_is_not_empty(valid_key);

    // Assert
    assert!(result.is_ok());
}
