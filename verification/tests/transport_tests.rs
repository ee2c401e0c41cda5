use blocks_production_lib::error::{AuthErrorType, BlockProductionError, HttpFailure, TimeoutType};
use blocks_production_lib::transport::{
    classify_send_failure, classify_status, parse_retry_after, FailureKind, Phase, RetryPolicy,
    RetryState, RpcErrorObject, TransportAction, TransportEvent, Verdict,
};
use std::time::Duration;

fn policy(max_attempts: u32) -> RetryPolicy {
    RetryPolicy { max_attempts, timeout: Duration::from_secs(30), backoff: None }
}

fn start(max_attempts: u32) -> (RetryState, TransportAction) {
    RetryState::start(
        policy(max_attempts),
        "https://rpc.example".to_string(),
        "getHealth".to_string(),
    )
}

fn head(status: u16, retry_after: Option<&str>) -> TransportEvent {
    TransportEvent::Head {
        status,
        retry_after: retry_after.map(|s| s.to_string()),
        description: format!("HTTP status {}", status),
    }
}

fn failed(is_timeout: bool, is_connect: bool) -> TransportEvent {
    TransportEvent::SendFailed {
        failure: HttpFailure {
            is_timeout,
            is_connect,
            status: None,
            message: "connection refused".to_string(),
        },
    }
}

fn done(action: TransportAction) -> Result<(), BlockProductionError> {
    match action {
        TransportAction::Done { result } => result,
        other => panic!("expected the exchange to end, got {:?}", other),
    }
}

#[test]
fn test_rate_limiting_behavior() {
    // Status 429 with `Retry-After: 1` on the only attempt
    let (state, action) = start(1);
    assert!(matches!(action, TransportAction::Send { attempt: 1, delay: None }));

    let (state, action) = state.step(head(429, Some("1")));
    assert_eq!(state.phase, Phase::Finished);
    assert!(state.rate_limited);
    match done(action) {
        Err(BlockProductionError::RateLimit { retry_after, requests, limit, window }) => {
            assert!(retry_after.is_some());
            assert_eq!(retry_after, Some(Duration::from_secs(1)));
            assert_eq!(requests, 0);
            assert_eq!(limit, 0);
            assert_eq!(window, Duration::from_secs(60));
        }
        other => panic!("Expected RateLimit error, got {:?}", other),
    }
}

#[test]
fn test_rate_limit_is_retried_after_the_delay_asked_for() {
    let (state, _) = start(3);
    let (state, action) = state.step(head(429, Some("7")));
    assert_eq!(state.attempt, 2);
    assert_eq!(state.phase, Phase::Sending);
    assert!(state.rate_limited);
    match action {
        TransportAction::Send { attempt, delay } => {
            assert_eq!(attempt, 2);
            assert_eq!(delay, Some(Duration::from_secs(7)));
        }
        other => panic!("expected another attempt, got {:?}", other),
    }
    // Without a header the wait grows with the attempts made
    let (state, action) = state.step(head(429, None));
    assert_eq!(state.attempt, 3);
    match action {
        TransportAction::Send { attempt, delay } => {
            assert_eq!(attempt, 3);
            assert_eq!(delay, Some(Duration::from_millis(200)));
        }
        other => panic!("expected another attempt, got {:?}", other),
    }
    // A header that is no number counts as absent; the last attempt fails
    let (state, action) = state.step(head(429, Some("soon")));
    assert_eq!(state.phase, Phase::Finished);
    assert_eq!(
        state.error_history,
        vec![
            "HTTP 429 error on attempt 1",
            "HTTP 429 error on attempt 2",
            "HTTP 429 error on attempt 3"
        ]
    );
    match done(action) {
        Err(BlockProductionError::RateLimit { retry_after, .. }) => assert_eq!(retry_after, None),
        other => panic!("Expected RateLimit error, got {:?}", other),
    }
}

#[test]
fn test_mock_http_error() {
    // Status 500 on the only attempt
    let (state, _) = start(1);
    let (state, action) = state.step(head(500, None));
    assert_eq!(state.phase, Phase::Finished);
    match done(action) {
        Err(BlockProductionError::Http { source, context }) => {
            assert_eq!(source.status, Some(500));
            assert!(!source.is_timeout);
            assert!(!source.is_connect);
            assert_eq!(source.message, "HTTP status 500");
            assert_eq!(context.as_deref(), Some("Server error on attempt 1"));
        }
        other => panic!("Expected Http error, got {:?}", other),
    }
}

#[test]
fn test_server_error_is_retried_at_once() {
    let (state, _) = start(2);
    let (state, action) = state.step(head(503, None));
    assert!(matches!(action, TransportAction::Send { attempt: 2, delay: None }));
    assert_eq!(state.attempt, 2);
    assert!(!state.rate_limited);
    let (_, action) = state.step(head(503, None));
    match done(action) {
        Err(BlockProductionError::Http { source, context }) => {
            assert_eq!(source.status, Some(503));
            assert_eq!(context.as_deref(), Some("Server error on attempt 2"));
        }
        other => panic!("Expected Http error, got {:?}", other),
    }
}

#[test]
fn test_backoff_applies_between_plain_retries() {
    let with_backoff = RetryPolicy {
        max_attempts: 2,
        timeout: Duration::from_secs(30),
        backoff: Some(Duration::from_millis(250)),
    };
    let (state, _) = RetryState::start(with_backoff, "e".to_string(), "m".to_string());
    let (_, action) = state.step(TransportEvent::Elapsed);
    match action {
        TransportAction::Send { attempt, delay } => {
            assert_eq!(attempt, 2);
            assert_eq!(delay, Some(Duration::from_millis(250)));
        }
        other => panic!("expected another attempt, got {:?}", other),
    }
}

#[test]
fn test_authentication_is_never_retried() {
    for (status, auth) in
        [(401, AuthErrorType::InvalidApiKey), (403, AuthErrorType::QuotaExceeded)]
    {
        let (state, _) = start(5);
        let (state, action) = state.step(head(status, None));
        assert_eq!(state.phase, Phase::Finished);
        assert_eq!(state.attempt, 1);
        match done(action) {
            Err(BlockProductionError::Auth { message, auth_type }) => {
                assert_eq!(message, format!("HTTP {}: Authentication failed", status));
                assert_eq!(auth_type, auth);
            }
            other => panic!("Expected Auth error, got {:?}", other),
        }
    }
}

#[test]
fn test_other_status_ends_the_exchange() {
    let (state, _) = start(5);
    let (state, action) = state.step(head(404, None));
    assert_eq!(state.phase, Phase::Finished);
    match done(action) {
        Err(BlockProductionError::Http { source, context }) => {
            assert_eq!(source.status, Some(404));
            assert_eq!(context.as_deref(), Some("HTTP error 404 on attempt 1"));
        }
        other => panic!("Expected Http error, got {:?}", other),
    }
}

#[test]
fn test_timeouts_are_retried_until_the_last_attempt() {
    let (state, _) = start(3);
    let (state, action) = state.step(TransportEvent::Elapsed);
    assert!(matches!(action, TransportAction::Send { attempt: 2, delay: None }));
    let (state, action) = state.step(failed(true, false));
    assert!(matches!(action, TransportAction::Send { attempt: 3, delay: None }));
    let (state, action) = state.step(TransportEvent::Elapsed);
    assert_eq!(state.phase, Phase::Finished);
    assert_eq!(
        state.error_history,
        vec![
            "Request timeout on attempt 1 after 30s",
            "HTTP error on attempt 2: connection refused",
            "Request timeout on attempt 3 after 30s"
        ]
    );
    match done(action) {
        Err(BlockProductionError::Timeout { duration, operation, timeout_type }) => {
            assert_eq!(duration, Duration::from_secs(30));
            assert_eq!(operation, "RPC getHealth request");
            assert_eq!(timeout_type, TimeoutType::Request);
        }
        other => panic!("Expected Timeout error, got {:?}", other),
    }
}

#[test]
fn test_connect_failure_on_the_last_attempt() {
    let (state, _) = start(2);
    let (state, action) = state.step(failed(false, true));
    assert!(matches!(action, TransportAction::Send { attempt: 2, delay: None }));
    let (_, action) = state.step(failed(false, true));
    match done(action) {
        Err(BlockProductionError::ConnectionFailed { endpoint, source, endpoint_reachable }) => {
            assert_eq!(endpoint, "https://rpc.example");
            assert_eq!(source, "connection refused");
            assert_eq!(endpoint_reachable, None);
        }
        other => panic!("Expected ConnectionFailed error, got {:?}", other),
    }
}

#[test]
fn test_other_client_failure_ends_the_exchange() {
    let (state, _) = start(5);
    let (state, action) = state.step(failed(false, false));
    assert_eq!(state.phase, Phase::Finished);
    match done(action) {
        Err(BlockProductionError::Http { source, context }) => {
            assert_eq!(source.status, None);
            assert_eq!(source.message, "connection refused");
            assert_eq!(context.as_deref(), Some("RPC getHealth request attempt 1"));
        }
        other => panic!("Expected Http error, got {:?}", other),
    }
}

#[test]
fn test_mock_rpc_success() {
    let (state, _) = start(3);
    let (state, action) = state.step(head(200, None));
    assert!(matches!(action, TransportAction::ReadBody));
    assert_eq!(state.phase, Phase::ReadingBody);
    let (state, action) = state.step(TransportEvent::Body {
        error: None,
        raw: "{\"result\":\"ok\"}".to_string(),
    });
    assert_eq!(state.phase, Phase::Finished);
    assert_eq!(state.attempt, 1);
    assert!(state.error_history.is_empty());
    assert_eq!(done(action).unwrap(), ());

    let metadata = state.metadata(12);
    assert_eq!(metadata.rpc_endpoint, "https://rpc.example");
    assert_eq!(metadata.response_time_ms, 12);
    assert_eq!(metadata.retry_attempts, 0);
    assert!(!metadata.rate_limited);
}

#[test]
fn test_metadata_counts_retries() {
    let (state, _) = start(3);
    let (state, _) = state.step(head(429, Some("1")));
    let (state, _) = state.step(head(204, None));
    let metadata = state.metadata(5);
    assert_eq!(metadata.retry_attempts, 1);
    assert!(metadata.rate_limited);
}

#[test]
fn test_mock_rpc_error() {
    // RPC errors are never retried
    let (state, _) = start(3);
    let (state, _) = state.step(head(200, None));
    let (state, action) = state.step(TransportEvent::Body {
        error: Some(RpcErrorObject {
            code: Some(-32601),
            message: Some("Method not found".to_string()),
        }),
        raw: "{\"error\":{}}".to_string(),
    });
    assert_eq!(state.phase, Phase::Finished);
    assert_eq!(state.attempt, 1);
    assert_eq!(state.error_history, vec!["RPC error -32601 on attempt 1: Method not found"]);
    match done(action) {
        Err(BlockProductionError::Rpc { code, message, method, raw_response }) => {
            assert_eq!(code, -32601);
            assert_eq!(message, "Method not found");
            assert_eq!(method, "getHealth");
            assert_eq!(raw_response.as_deref(), Some("{\"error\":{}}"));
        }
        other => panic!("Expected Rpc error, got {:?}", other),
    }
}

#[test]
fn test_rpc_error_defaults() {
    let (state, _) = start(1);
    let (state, _) = state.step(head(200, None));
    let (_, action) = state.step(TransportEvent::Body {
        error: Some(RpcErrorObject { code: None, message: None }),
        raw: String::new(),
    });
    match done(action) {
        Err(BlockProductionError::Rpc { code, message, .. }) => {
            assert_eq!(code, -1);
            assert_eq!(message, "Unknown RPC error");
        }
        other => panic!("Expected Rpc error, got {:?}", other),
    }
    // A code beyond 32 bits is cut to its low 32 bits
    let (state, _) = start(1);
    let (state, _) = state.step(head(200, None));
    let (_, action) = state.step(TransportEvent::Body {
        error: Some(RpcErrorObject { code: Some(4_294_967_297), message: None }),
        raw: String::new(),
    });
    match done(action) {
        Err(BlockProductionError::Rpc { code, .. }) => assert_eq!(code, 1),
        other => panic!("Expected Rpc error, got {:?}", other),
    }
}

#[test]
fn test_invalid_json_response() {
    let (state, _) = start(3);
    let (state, _) = state.step(head(200, None));
    let (state, action) =
        state.step(TransportEvent::BodyInvalid { reason: "expected value".to_string() });
    assert_eq!(state.phase, Phase::Finished);
    assert_eq!(state.error_history, vec!["JSON parsing error on attempt 1: expected value"]);
    match done(action) {
        Err(BlockProductionError::ResponseParsing {
            reason,
            response_sample,
            expected_structure,
        }) => {
            assert_eq!(reason, "Invalid JSON response: expected value");
            assert_eq!(response_sample, None);
            assert_eq!(
                expected_structure.as_deref(),
                Some("Valid JSON object with 'result' field")
            );
        }
        other => panic!("Expected ResponseParsing error, got {:?}", other),
    }
}

#[test]
fn test_no_attempt_allowed() {
    let (state, action) = start(0);
    assert_eq!(state.phase, Phase::Finished);
    match done(action) {
        Err(BlockProductionError::RetryExhausted {
            attempts,
            total_duration,
            last_error,
            error_history,
        }) => {
            assert_eq!(attempts, 0);
            assert_eq!(total_duration, Duration::from_secs(0));
            assert!(error_history.is_empty());
            assert!(matches!(*last_error, BlockProductionError::Timeout { .. }));
        }
        other => panic!("Expected RetryExhausted error, got {:?}", other),
    }
}

#[test]
fn test_event_out_of_turn() {
    // A body while a request is on its way
    let (state, _) = start(3);
    let (state, action) = state.step(TransportEvent::BodyInvalid { reason: "r".to_string() });
    assert_eq!(state.phase, Phase::Finished);
    assert!(state.error_history.is_empty());
    match done(action) {
        Err(BlockProductionError::Internal { message, location, debug_context }) => {
            assert_eq!(message, "Transport event does not answer the pending action");
            assert_eq!(location, None);
            assert_eq!(debug_context, None);
        }
        other => panic!("Expected Internal error, got {:?}", other),
    }
    // Anything after the end
    let (state, action) = state.step(head(200, None));
    assert_eq!(state.phase, Phase::Finished);
    assert!(matches!(done(action), Err(BlockProductionError::Internal { .. })));
    // A head while the body is read
    let (state, _) = start(3);
    let (state, _) = state.step(head(200, None));
    let (_, action) = state.step(head(200, None));
    assert!(matches!(done(action), Err(BlockProductionError::Internal { .. })));
}

#[test]
fn test_status_lookup() {
    for status in [200u16, 201, 204, 299] {
        assert_eq!(classify_status(status, false), Verdict::ReadBody);
        assert_eq!(classify_status(status, true), Verdict::ReadBody);
    }
    assert_eq!(classify_status(429, false), Verdict::RetryAfterRateLimit);
    assert_eq!(classify_status(429, true), Verdict::Fail(FailureKind::RateLimited));
    for last in [false, true] {
        assert_eq!(
            classify_status(401, last),
            Verdict::Fail(FailureKind::Auth(AuthErrorType::InvalidApiKey))
        );
        assert_eq!(
            classify_status(403, last),
            Verdict::Fail(FailureKind::Auth(AuthErrorType::QuotaExceeded))
        );
        for status in [100u16, 199, 300, 301, 400, 404, 428, 430, 499, 600, 999] {
            assert_eq!(
                classify_status(status, last),
                Verdict::Fail(FailureKind::UnexpectedStatus)
            );
        }
    }
    for status in [500u16, 502, 503, 599] {
        assert_eq!(classify_status(status, false), Verdict::Retry);
        assert_eq!(classify_status(status, true), Verdict::Fail(FailureKind::ServerError));
    }
}

#[test]
fn test_send_failure_lookup() {
    assert_eq!(classify_send_failure(true, false, false), Verdict::Retry);
    assert_eq!(classify_send_failure(true, true, false), Verdict::Retry);
    assert_eq!(classify_send_failure(true, false, true), Verdict::Fail(FailureKind::Timeout));
    assert_eq!(classify_send_failure(false, true, false), Verdict::Retry);
    assert_eq!(classify_send_failure(false, true, true), Verdict::Fail(FailureKind::Connection));
    assert_eq!(classify_send_failure(false, false, false), Verdict::Fail(FailureKind::Transport));
    assert_eq!(classify_send_failure(false, false, true), Verdict::Fail(FailureKind::Transport));
}

#[test]
fn test_parse_retry_after() {
    assert_eq!(parse_retry_after("1"), Some(1));
    assert_eq!(parse_retry_after("0"), Some(0));
    assert_eq!(parse_retry_after("120"), Some(120));
    assert_eq!(parse_retry_after("+5"), Some(5));
    assert_eq!(parse_retry_after("007"), Some(7));
    assert_eq!(parse_retry_after("18446744073709551615"), Some(u64::MAX));
    assert_eq!(parse_retry_after("18446744073709551616"), None);
    assert_eq!(parse_retry_after("99999999999999999999999999"), None);
    assert_eq!(parse_retry_after(""), None);
    assert_eq!(parse_retry_after("+"), None);
    assert_eq!(parse_retry_after("-1"), None);
    assert_eq!(parse_retry_after(" 1"), None);
    assert_eq!(parse_retry_after("1 "), None);
    assert_eq!(parse_retry_after("1.5"), None);
    assert_eq!(parse_retry_after("++1"), None);
    assert_eq!(parse_retry_after("Wed, 21 Oct 2015 07:28:00 GMT"), None);
    for text in ["1", "+5", "", "+", "x", "18446744073709551616", "١"] {
        assert_eq!(parse_retry_after(text), text.parse::<u64>().ok(), "{:?}", text);
    }
}
