use universal_bot::bedrock::error::{BedrockError, ErrorCategory};

#[test]
fn test_error_retryability() {
    assert!(BedrockError::ServiceError("test".to_string()).is_retryable());
    assert!(BedrockError::RateLimited("test".to_string()).is_retryable());
    assert!(!BedrockError::InvalidInput("test".to_string()).is_retryable());
    assert!(!BedrockError::Authentication("test".to_string()).is_retryable());
}

#[test]
fn test_error_categories() {
    assert_eq!(
        BedrockError::InvalidInput("test".to_string()).category(),
        ErrorCategory::Client
    );
    assert_eq!(
        BedrockError::ServiceError("test".to_string()).category(),
        ErrorCategory::Server
    );
    assert_eq!(
        BedrockError::RateLimited("test".to_string()).category(),
        ErrorCategory::RateLimit
    );
}

#[test]
fn test_status_codes() {
    assert_eq!(
        BedrockError::InvalidInput("test".to_string()).status_code(),
        400
    );
    assert_eq!(
        BedrockError::Authentication("test".to_string()).status_code(),
        401
    );
    assert_eq!(
        BedrockError::Authorization("test".to_string()).status_code(),
        403
    );
    assert_eq!(
        BedrockError::RateLimited("test".to_string()).status_code(),
        429
    );
    assert_eq!(
        BedrockError::ServiceError("test".to_string()).status_code(),
        502
    );
}

#[test]
fn test_category_retryability() {
    assert!(ErrorCategory::Server.is_retryable());
    assert!(ErrorCategory::Network.is_retryable());
    assert!(!ErrorCategory::Client.is_retryable());
    assert!(!ErrorCategory::Authentication.is_retryable());
}

#[test]
fn every_error_kind_has_its_category_status_and_message() {
    let cases: Vec<(BedrockError, ErrorCategory, u16, bool, &str)> = vec![
        (BedrockError::Configuration("x".into()), ErrorCategory::Configuration, 500, false, "Configuration error: x"),
        (BedrockError::InvalidInput("x".into()), ErrorCategory::Client, 400, false, "Invalid input: x"),
        (BedrockError::InvalidResponse("x".into()), ErrorCategory::Server, 502, false, "Invalid response: x"),
        (BedrockError::ServiceError("x".into()), ErrorCategory::Server, 502, true, "AWS service error: x"),
        (BedrockError::RequestFailed("x".into()), ErrorCategory::Network, 503, true, "Request failed: x"),
        (BedrockError::PoolExhausted("x".into()), ErrorCategory::Resource, 503, false, "Connection pool exhausted: x"),
        (BedrockError::Timeout("x".into()), ErrorCategory::Network, 504, true, "Request timed out: x"),
        (BedrockError::RateLimited("x".into()), ErrorCategory::RateLimit, 429, true, "Rate limit exceeded: x"),
        (BedrockError::ModelUnavailable("x".into()), ErrorCategory::Server, 503, true, "Model not available: x"),
        (BedrockError::ContentFiltered("x".into()), ErrorCategory::Content, 400, false, "Content filtered: x"),
        (BedrockError::TokenLimitExceeded("x".into()), ErrorCategory::Resource, 400, false, "Token limit exceeded: x"),
        (BedrockError::Authentication("x".into()), ErrorCategory::Authentication, 401, false, "Authentication failed: x"),
        (BedrockError::Authorization("x".into()), ErrorCategory::Authorization, 403, false, "Authorization failed: x"),
        (BedrockError::Internal("x".into()), ErrorCategory::Internal, 500, true, "Internal error: x"),
    ];
    for (error, category, status, retryable, message) in cases {
        assert_eq!(error.category(), category);
        assert_eq!(error.status_code(), status);
        assert_eq!(error.is_retryable(), retryable);
        assert_eq!(error.to_string(), message);
        assert_eq!(error.detail(), "x");
        if retryable {
            assert!(category.is_retryable());
        }
    }
}

#[test]
fn category_keys_are_distinct_and_retryability_is_as_tabled() {
    let all = [
        (ErrorCategory::Configuration, false),
        (ErrorCategory::Client, false),
        (ErrorCategory::Server, true),
        (ErrorCategory::Network, true),
        (ErrorCategory::Resource, true),
        (ErrorCategory::RateLimit, true),
        (ErrorCategory::Content, false),
        (ErrorCategory::Authentication, false),
        (ErrorCategory::Authorization, false),
        (ErrorCategory::Internal, true),
    ];
    for (i, (category, retryable)) in all.iter().enumerate() {
        assert_eq!(category.key(), i as u64);
        assert_eq!(category.is_retryable(), *retryable);
    }
}
