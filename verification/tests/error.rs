use posthog_rs::ClientError;

fn json_failure() -> serde_json::Error {
    serde_json::from_str::<serde_json::Value>("{").unwrap_err()
}

fn http_failure() -> reqwest::Error {
    reqwest::Client::new().get("no scheme here").build().unwrap_err()
}

#[test]
fn connection_error_text() {
    let error = ClientError::Connection("timed out".to_string());
    assert_eq!(error.to_string(), "Connection Error: timed out");
}

#[test]
fn serialization_error_text() {
    let error = ClientError::Serialization("expected value".to_string());
    assert_eq!(error.to_string(), "Serialization Error: expected value");
}

#[test]
fn error_text_with_empty_message() {
    assert_eq!(ClientError::Connection(String::new()).to_string(), "Connection Error: ");
    assert_eq!(ClientError::Serialization(String::new()).to_string(), "Serialization Error: ");
}

#[test]
fn serialization_error_carries_what_the_json_error_displays() {
    let failure = json_failure();
    let shown = failure.to_string();
    assert!(!shown.is_empty());
    assert_eq!(ClientError::serialization(&failure), ClientError::Serialization(shown));
}

#[test]
fn connection_error_carries_what_the_http_error_displays() {
    let failure = http_failure();
    let shown = failure.to_string();
    assert!(!shown.is_empty());
    assert_eq!(ClientError::connection(&failure), ClientError::Connection(shown));
}

#[test]
fn the_two_kinds_differ() {
    assert_ne!(
        ClientError::Connection("x".to_string()),
        ClientError::Serialization("x".to_string())
    );
}
