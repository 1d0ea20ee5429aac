use dune_api::error::{DuneError, STATUS_UNAUTHORIZED};

fn transport_failure() -> reqwest::Error {
    reqwest::Client::new().get("not a url").build().unwrap_err()
}

fn decode_failure() -> serde_json::Error {
    serde_json::from_str::<serde_json::Value>("{\"state\": ").unwrap_err()
}

#[test]
fn api_message_carries_the_service_text() {
    let e = DuneError::Api { message: "query not found".to_string() };
    assert_eq!(e.message(), "API error: query not found");
}

#[test]
fn api_message_may_be_empty() {
    let e = DuneError::Api { message: String::new() };
    assert_eq!(e.message(), "API error: ");
}

#[test]
fn invalid_api_key_message() {
    assert_eq!(DuneError::InvalidApiKey.message(), "Invalid or missing API key");
}

#[test]
fn execution_failed_message_carries_the_service_text() {
    let e = DuneError::ExecutionFailed { message: "line 3:7: Column 'x' cannot be resolved".to_string() };
    assert_eq!(e.message(), "Query execution failed: line 3:7: Column 'x' cannot be resolved");
}

#[test]
fn timeout_message_carries_the_seconds() {
    assert_eq!(
        DuneError::Timeout { seconds: 300 }.message(),
        "Query execution timed out after 300 seconds"
    );
    assert_eq!(
        DuneError::Timeout { seconds: 0 }.message(),
        "Query execution timed out after 0 seconds"
    );
    assert_eq!(
        DuneError::Timeout { seconds: u64::MAX }.message(),
        "Query execution timed out after 18446744073709551615 seconds"
    );
}

#[test]
fn cancelled_message() {
    assert_eq!(DuneError::Cancelled.message(), "Query execution was cancelled");
}

#[test]
fn request_message_opens_with_the_kind_and_keeps_the_cause() {
    let cause = transport_failure();
    let wording = cause.to_string();
    let e = DuneError::Request(cause);
    let text = e.message();
    assert!(text.starts_with("HTTP request failed: "));
    assert_eq!(text, format!("HTTP request failed: {}", wording));
}

#[test]
fn parse_message_opens_with_the_kind_and_keeps_the_cause() {
    let cause = decode_failure();
    let wording = cause.to_string();
    let e = DuneError::Parse(cause);
    let text = e.message();
    assert!(text.starts_with("Failed to parse response: "));
    assert_eq!(text, format!("Failed to parse response: {}", wording));
}

#[test]
fn transport_failures_convert_to_request() {
    let e = DuneError::from(transport_failure());
    assert!(matches!(e, DuneError::Request(_)));
    let e: DuneError = transport_failure().into();
    assert!(matches!(e, DuneError::Request(_)));
}

#[test]
fn decode_failures_convert_to_parse() {
    let e = DuneError::from(decode_failure());
    assert!(matches!(e, DuneError::Parse(_)));
    let e: DuneError = decode_failure().into();
    assert!(matches!(e, DuneError::Parse(_)));
}

#[test]
fn question_mark_converts_outside_errors() {
    fn decode(text: &str) -> Result<u64, DuneError> {
        let value: serde_json::Value = serde_json::from_str(text)?;
        Ok(value.as_u64().unwrap_or(0))
    }
    assert!(matches!(decode("not json"), Err(DuneError::Parse(_))));
    assert!(matches!(decode("42"), Ok(42)));
}

#[test]
fn rejected_credential_is_told_apart() {
    assert_eq!(STATUS_UNAUTHORIZED, 401);
    let e = DuneError::rejection(401, "invalid API Key".to_string());
    assert!(matches!(e, DuneError::InvalidApiKey));
}

#[test]
fn other_rejections_keep_the_service_message() {
    for status in [400u16, 402, 403, 404, 409, 429, 500, 503, 0, u16::MAX] {
        let e = DuneError::rejection(status, "Query not found".to_string());
        match e {
            DuneError::Api { message } => assert_eq!(message, "Query not found"),
            other => panic!("status {} gave {:?}", status, other),
        }
    }
}

#[test]
fn kinds_are_mutually_exclusive() {
    let all = vec![
        DuneError::Request(transport_failure()),
        DuneError::Api { message: "m".to_string() },
        DuneError::Parse(decode_failure()),
        DuneError::InvalidApiKey,
        DuneError::ExecutionFailed { message: "m".to_string() },
        DuneError::Timeout { seconds: 1 },
        DuneError::Cancelled,
    ];
    for e in &all {
        let hits = [
            matches!(e, DuneError::Request(_)),
            matches!(e, DuneError::Api { .. }),
            matches!(e, DuneError::Parse(_)),
            matches!(e, DuneError::InvalidApiKey),
            matches!(e, DuneError::ExecutionFailed { .. }),
            matches!(e, DuneError::Timeout { .. }),
            matches!(e, DuneError::Cancelled),
        ];
        assert_eq!(hits.iter().filter(|h| **h).count(), 1);
    }
    let texts: Vec<String> = all.iter().map(|e| e.message()).collect();
    for i in 0..texts.len() {
        for j in 0..texts.len() {
            assert_eq!(texts[i] == texts[j], i == j);
        }
    }
}

#[test]
fn result_alias_carries_the_client_error() {
    fn half(n: u64) -> dune_api::error::Result<u64> {
        if n % 2 == 0 {
            Ok(n / 2)
        } else {
            Err(DuneError::Api { message: "odd".to_string() })
        }
    }
    assert!(matches!(half(4), Ok(2)));
    assert!(matches!(half(3), Err(DuneError::Api { .. })));
}
