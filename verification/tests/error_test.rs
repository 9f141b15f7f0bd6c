use cloudapps::error::AppError;

#[test]
fn test_exit_code_auth() {
    let err = AppError::Auth("bad token".to_string());
    assert_eq!(err.exit_code(), 2);
}

#[test]
fn test_exit_code_api() {
    let err = AppError::Api { status: 404, message: "not found".to_string() };
    assert_eq!(err.exit_code(), 3);
}

#[test]
fn test_exit_code_network() {
    let err = AppError::Network("timeout".to_string());
    assert_eq!(err.exit_code(), 4);
}

#[test]
fn test_exit_code_invalid_input() {
    let err = AppError::InvalidInput("bad value".to_string());
    assert_eq!(err.exit_code(), 5);
}

#[test]
fn test_exit_code_rate_limited() {
    let err = AppError::RateLimited;
    assert_eq!(err.exit_code(), 1);
}

#[test]
fn test_exit_code_config() {
    let err = AppError::Config("missing file".to_string());
    assert_eq!(err.exit_code(), 1);
}

#[test]
fn test_display_auth() {
    let err = AppError::Auth("bad token".to_string());
    assert_eq!(err.message(), "authentication error: bad token");
}

#[test]
fn test_display_api() {
    let err = AppError::Api { status: 500, message: "internal error".to_string() };
    assert_eq!(err.message(), "API error (status 500): internal error");
}

#[test]
fn test_display_rate_limited() {
    let err = AppError::RateLimited;
    assert_eq!(err.message(), "rate limited, retry after backoff");
}

#[test]
fn wrapped_errors_show_their_own_text_and_exit_codes() {
    let io = AppError::Io(std::io::Error::new(std::io::ErrorKind::Other, "boom"));
    assert_eq!(io.message(), "boom");
    assert_eq!(io.exit_code(), 1);
    let json = AppError::Json(serde_json::from_str::<serde_json::Value>("{").unwrap_err());
    assert!(!json.message().is_empty());
    assert_eq!(json.exit_code(), 1);
    assert_eq!(AppError::Network("x".to_string()).message(), "network error: x");
    assert_eq!(AppError::Config("x".to_string()).message(), "configuration error: x");
    assert_eq!(AppError::InvalidInput("x".to_string()).message(), "invalid input: x");
}
