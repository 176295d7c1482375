use osint_recon::error::OsintError;
use osint_recon::text::decimal;

#[test]
fn decimal_renders_exact_numerals() {
    assert_eq!(decimal(0), "0");
    assert_eq!(decimal(5), "5");
    assert_eq!(decimal(9), "9");
    assert_eq!(decimal(10), "10");
    assert_eq!(decimal(429), "429");
    assert_eq!(decimal(1000), "1000");
    assert_eq!(decimal(65535), "65535");
    assert_eq!(decimal(1234567890), "1234567890");
    assert_eq!(decimal(u64::MAX), "18446744073709551615");
}

#[test]
fn decimal_agrees_with_the_standard_rendering() {
    let mut n: u64 = 0;
    while n < 3000 {
        assert_eq!(decimal(n), n.to_string());
        n += 7;
    }
}

#[test]
fn message_of_missing_api_key() {
    let error = OsintError::MissingApiKey("SHODAN_API_KEY".to_string());
    assert_eq!(error.message(), "Missing API Key: SHODAN_API_KEY");
}

#[test]
fn message_of_invalid_type() {
    assert_eq!(OsintError::InvalidType.message(), "Invalid OSINT type");
}

#[test]
fn message_of_http_status() {
    assert_eq!(
        OsintError::HttpStatus(500).message(),
        "HTTP request failed: API Error (status 500)"
    );
    assert_eq!(
        OsintError::HttpStatus(404).message(),
        "HTTP request failed: API Error (status 404)"
    );
}

#[test]
fn message_of_transport() {
    assert_eq!(
        OsintError::Transport("dns failure".to_string()).message(),
        "HTTP request failed: dns failure"
    );
}

#[test]
fn message_of_attempts_exceeded() {
    assert_eq!(
        OsintError::AttemptsExceeded.message(),
        "HTTP request failed: Max retries exceeded"
    );
}

#[test]
fn message_of_malformed_response() {
    assert_eq!(
        OsintError::MalformedResponse.message(),
        "Malformed response: Failed to parse JSON"
    );
}

#[test]
fn message_of_file_write() {
    assert_eq!(
        OsintError::FileWrite("permission denied".to_string()).message(),
        "Failed to write report: permission denied"
    );
}

#[test]
fn message_of_analysis() {
    assert_eq!(
        OsintError::Analysis("quota".to_string()).message(),
        "Analysis failed: quota"
    );
}

#[test]
fn parse_failure_is_told_apart_from_network_failure() {
    assert!(OsintError::HttpStatus(500).is_request_failure());
    assert!(OsintError::Transport("t".to_string()).is_request_failure());
    assert!(OsintError::AttemptsExceeded.is_request_failure());
    assert!(!OsintError::MalformedResponse.is_request_failure());
    assert!(!OsintError::InvalidType.is_request_failure());
    assert!(!OsintError::MissingApiKey("K".to_string()).is_request_failure());
    assert!(!OsintError::FileWrite("w".to_string()).is_request_failure());
    assert!(!OsintError::Analysis("a".to_string()).is_request_failure());
    assert_ne!(OsintError::MalformedResponse, OsintError::AttemptsExceeded);
}
