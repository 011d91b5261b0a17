use glyphic::datasource::{build_query_string_for_calls, validate_call_id_format};

// AAA Pattern: Arrange-Act-Assert

#[test]
fn test_validate_call_id_valid() {
    // Arrange
    let valid_id = "5eb7cf5a86d9755df3a6c593";

    // Act
    let result = validate_call_id_format(valid_id);

    // Assert
    assert!(result.is_ok());
}

#[test]
fn test_validate_call_id_too_short() {
    // Arrange
    let short_id = "5eb7cf5a86d9755df3a6c59";

    // Act
    let result = validate_call_id_format(short_id);

    // Assert
    assert!(result.is_err());
    assert!(result.unwrap_err().contains("must be 24 characters"));
}

#[test]
fn test_validate_call_id_too_long() {
    // Arrange
    let long_id = "5eb7cf5a86d9755df3a6c593a";

    // Act
    let result = validate_call_id_format(long_id);

    // Assert
    assert!(result.is_err());
    assert!(result.unwrap_err().contains("must be 24 characters"));
}

#[test]
fn test_validate_call_id_invalid_chars() {
    // Arrange
    let invalid_id = "5eb7cf5a86d9755df3a6c59z";

    // Act
    let result = validate_call_id_format(invalid_id);

    // Assert
    assert!(result.is_err());
    assert!(result.unwrap_err().contains("hexadecimal"));
}

#[test]
fn lib_test_build_query_string_empty() {
    // Arrange
    let empty_params = "{}";

    // Act
    let result = build_query_string_for_calls(empty_params);

    // Assert
    assert!(result.is_ok());
    assert_eq!(result.unwrap(), "");
}

#[test]
fn lib_test_build_query_string_single_param() {
    // Arrange
    let params = r#"{"limit": "20"}"#;

    // Act
    let result = build_query_string_for_calls(params);

    // Assert
    assert!(result.is_ok());
    assert_eq!(result.unwrap(), "?limit=20");
}

#[test]
fn lib_test_build_query_string_multiple_params() {
    // Arrange
    let params = r#"{"limit": "20", "direction": "next"}"#;

    // Act
    let result = build_query_string_for_calls(params);

    // Assert
    assert!(result.is_ok());
    let query = result.unwrap();
    assert!(query.starts_with('?'));
    assert!(query.contains("limit=20"));
    assert!(query.contains("direction=next"));
}

#[test]
fn lib_test_build_query_string_with_special_chars() {
    // Arrange
    let params = r#"{"participant_email": "user@example.com"}"#;

    // Act
    let result = build_query_string_for_calls(params);

    // Assert
    assert!(result.is_ok());
    let query = result.unwrap();
    assert!(query.contains("participant_email="));
    // URL encoding should handle @
    assert!(query.contains("%40") || query.contains("@"));
}

#[test]
fn lib_test_build_query_string_ignores_null() {
    // Arrange
    let params = r#"{"limit": "20", "cursor": "null"}"#;

    // Act
    let result = build_query_string_for_calls(params);

    // Assert
    assert!(result.is_ok());
    let query = result.unwrap();
    assert!(query.contains("limit=20"));
    assert!(!query.contains("cursor"));
}
