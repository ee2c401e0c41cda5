use blocks_production_lib::error::{
    AuthErrorType, BlockProductionError, ErrorCategory, ErrorExt, HttpFailure, TimeoutType,
};
use std::time::Duration;

fn http_failure(is_timeout: bool, is_connect: bool, status: Option<u16>) -> HttpFailure {
    HttpFailure { is_timeout, is_connect, status, message: "client error".to_string() }
}

fn json_error() -> BlockProductionError {
    BlockProductionError::Json {
        source: serde_json::from_str::<serde_json::Value>("invalid json")
            .unwrap_err()
            .to_string(),
        data_sample: None,
    }
}

#[test]
fn test_error_ext_retryable() {
    // Network errors should be retryable
    let timeout_error = BlockProductionError::Timeout {
        duration: Duration::from_secs(30),
        operation: "test".to_string(),
        timeout_type: TimeoutType::Request,
    };
    assert!(timeout_error.is_retryable());

    // Configuration errors should not be retryable
    let config_error = BlockProductionError::Config {
        message: "Invalid config".to_string(),
        field: Some("endpoint".to_string()),
        suggestion: Some("Fix the endpoint".to_string()),
    };
    assert!(!config_error.is_retryable());
}

#[test]
fn test_error_ext_transient() {
    let rate_limit = BlockProductionError::RateLimit {
        requests: 100,
        window: Duration::from_secs(60),
        limit: 50,
        retry_after: Some(Duration::from_secs(30)),
    };
    assert!(rate_limit.is_transient());

    let json_error = json_error();
    assert!(!json_error.is_transient());
}

#[test]
fn test_error_ext_config_error() {
    let config_error = BlockProductionError::Config {
        message: "Bad config".to_string(),
        field: None,
        suggestion: None,
    };
    assert!(config_error.is_config_error());

    let http_error = BlockProductionError::Timeout {
        timeout_type: TimeoutType::Request,
        duration: Duration::from_secs(30),
        operation: "Test timeout".to_string(),
    };
    assert!(!http_error.is_config_error());
}

#[test]
fn test_error_retry_delay() {
    let timeout_error = BlockProductionError::Timeout {
        duration: Duration::from_secs(30),
        operation: "test".to_string(),
        timeout_type: TimeoutType::Request,
    };
    let delay = timeout_error.retry_delay();
    assert!(delay.is_some());
    let delay = delay.unwrap();
    assert!(delay >= Duration::from_secs(1));
    assert!(delay <= Duration::from_secs(10));

    let rate_limit = BlockProductionError::RateLimit {
        requests: 100,
        window: Duration::from_secs(60),
        limit: 50,
        retry_after: Some(Duration::from_secs(45)),
    };
    assert_eq!(rate_limit.retry_delay(), Some(Duration::from_secs(45)));
}

#[test]
fn test_error_debug_hints() {
    let config_error = BlockProductionError::Config {
        message: "Invalid endpoint".to_string(),
        field: Some("rpc_endpoint".to_string()),
        suggestion: Some("Use a valid URL".to_string()),
    };
    let hints = config_error.debug_hints();
    assert!(!hints.is_empty());
    assert!(hints[0].contains("Use a valid URL"));

    let timeout_error = BlockProductionError::Timeout {
        duration: Duration::from_secs(5),
        operation: "test".to_string(),
        timeout_type: TimeoutType::Request,
    };
    let hints = timeout_error.debug_hints();
    assert!(!hints.is_empty());
}

#[test]
fn test_error_category() {
    let config_error = BlockProductionError::Config {
        message: "test".to_string(),
        field: None,
        suggestion: None,
    };
    assert_eq!(config_error.category(), ErrorCategory::Configuration);

    let http_error = BlockProductionError::Timeout {
        timeout_type: TimeoutType::Request,
        duration: Duration::from_secs(30),
        operation: "Test timeout".to_string(),
    };
    assert_eq!(http_error.category(), ErrorCategory::Network);

    let json_error = json_error();
    assert_eq!(json_error.category(), ErrorCategory::Network);
}

#[test]
fn test_timeout_type_debug() {
    assert_eq!(format!("{:?}", TimeoutType::Request), "Request");
    assert_eq!(format!("{:?}", TimeoutType::Connection), "Connection");
}

#[test]
fn test_auth_error_type_debug() {
    assert_eq!(format!("{:?}", AuthErrorType::InvalidApiKey), "InvalidApiKey");
    assert_eq!(format!("{:?}", AuthErrorType::QuotaExceeded), "QuotaExceeded");
}

#[test]
fn test_error_category_debug() {
    assert_eq!(format!("{:?}", ErrorCategory::Network), "Network");
    assert_eq!(format!("{:?}", ErrorCategory::Configuration), "Configuration");
    assert_eq!(format!("{:?}", ErrorCategory::Validation), "Validation");
    assert_eq!(format!("{:?}", ErrorCategory::Authentication), "Authentication");
    assert_eq!(format!("{:?}", ErrorCategory::RateLimit), "RateLimit");
}

#[test]
fn test_constructor_methods() {
    let rate_limit = BlockProductionError::rate_limit_error(100, 50, Duration::from_secs(60));
    match rate_limit {
        BlockProductionError::RateLimit { requests, window, limit, .. } => {
            assert_eq!(requests, 100);
            assert_eq!(window, Duration::from_secs(60));
            assert_eq!(limit, 50);
        }
        _ => panic!("Expected RateLimit error"),
    }

    let connection_failed = BlockProductionError::connection_failed(
        "https://test.com",
        std::io::Error::new(std::io::ErrorKind::TimedOut, "timeout").to_string(),
    );
    match connection_failed {
        BlockProductionError::ConnectionFailed { endpoint, .. } => {
            assert_eq!(endpoint, "https://test.com");
        }
        _ => panic!("Expected ConnectionFailed error"),
    }
}

#[test]
fn test_error_debug() {
    let timeout_error = BlockProductionError::Timeout {
        duration: Duration::from_secs(30),
        operation: "fetch data".to_string(),
        timeout_type: TimeoutType::Request,
    };
    let debug = format!("{:?}", timeout_error);
    assert!(debug.contains("Timeout"));
    assert!(debug.contains("30s"));
}

#[test]
fn test_error_analysis_traits() {
    let config_error = BlockProductionError::Config {
        message: "Invalid endpoint".to_string(),
        field: Some("endpoint".to_string()),
        suggestion: Some("Use https:// prefix".to_string()),
    };

    assert!(!config_error.is_retryable());
    assert!(!config_error.is_transient());
    assert!(config_error.is_config_error());

    let hints = config_error.debug_hints();
    assert!(!hints.is_empty());
    assert!(hints[0].contains("https://"));
}

fn every_kind() -> Vec<BlockProductionError> {
    vec![
        BlockProductionError::Http { source: http_failure(false, false, None), context: None },
        BlockProductionError::Http { source: http_failure(true, false, None), context: None },
        BlockProductionError::Http { source: http_failure(false, true, None), context: None },
        BlockProductionError::Http { source: http_failure(false, false, Some(500)), context: None },
        BlockProductionError::Http { source: http_failure(false, false, Some(599)), context: None },
        BlockProductionError::Http { source: http_failure(false, false, Some(404)), context: None },
        BlockProductionError::Http { source: http_failure(false, false, Some(600)), context: None },
        json_error(),
        BlockProductionError::Rpc {
            code: -32603,
            message: "m".to_string(),
            method: "getHealth".to_string(),
            raw_response: None,
        },
        BlockProductionError::Rpc {
            code: -32000,
            message: "m".to_string(),
            method: "getHealth".to_string(),
            raw_response: None,
        },
        BlockProductionError::Rpc {
            code: -32601,
            message: "m".to_string(),
            method: "getHealth".to_string(),
            raw_response: None,
        },
        BlockProductionError::Config { message: "m".to_string(), field: None, suggestion: None },
        BlockProductionError::RateLimit {
            requests: 0,
            window: Duration::from_secs(60),
            limit: 0,
            retry_after: None,
        },
        BlockProductionError::Timeout {
            duration: Duration::from_secs(1),
            operation: "o".to_string(),
            timeout_type: TimeoutType::Read,
        },
        BlockProductionError::InvalidSlotRange {
            message: "m".to_string(),
            provided_range: Some((2, 1)),
            valid_range: None,
        },
        BlockProductionError::NoData { requested_range: None, reason: None },
        BlockProductionError::RetryExhausted {
            attempts: 3,
            total_duration: Duration::from_secs(3),
            last_error: Box::new(BlockProductionError::NoData {
                requested_range: None,
                reason: None,
            }),
            error_history: vec![],
        },
        BlockProductionError::InvalidValidator {
            pubkey: "p".to_string(),
            expected_format: "base58".to_string(),
        },
        BlockProductionError::ConnectionFailed {
            endpoint: "e".to_string(),
            source: "s".to_string(),
            endpoint_reachable: None,
        },
        BlockProductionError::ResponseParsing {
            reason: "r".to_string(),
            response_sample: None,
            expected_structure: None,
        },
        BlockProductionError::Internal {
            message: "m".to_string(),
            location: None,
            debug_context: None,
        },
        BlockProductionError::Auth {
            message: "m".to_string(),
            auth_type: AuthErrorType::IpBlocked,
        },
        BlockProductionError::General { message: "m".to_string(), category: None },
        BlockProductionError::General {
            message: "m".to_string(),
            category: Some(ErrorCategory::Network),
        },
        BlockProductionError::General {
            message: "m".to_string(),
            category: Some(ErrorCategory::RateLimit),
        },
        BlockProductionError::General {
            message: "m".to_string(),
            category: Some(ErrorCategory::Validation),
        },
    ]
}

#[test]
fn test_retryable_table() {
    let expected = [
        true, true, true, true, true, false, false, // Http
        false, // Json
        true, true, false, // Rpc
        false, // Config
        true, // RateLimit
        true, // Timeout
        false, false, false, false, // InvalidSlotRange, NoData, RetryExhausted, InvalidValidator
        true, // ConnectionFailed
        false, false, false, // ResponseParsing, Internal, Auth
        false, true, true, false, // General
    ];
    let kinds = every_kind();
    assert_eq!(kinds.len(), expected.len());
    for (e, want) in kinds.iter().zip(expected) {
        assert_eq!(e.is_retryable(), want, "{:?}", e);
    }
}

#[test]
fn test_no_kind_is_retryable_and_a_config_error() {
    for e in every_kind() {
        assert!(!(e.is_retryable() && e.is_config_error()), "{:?}", e);
        if e.retry_delay().is_some() {
            assert!(e.is_retryable(), "{:?}", e);
        }
    }
}

#[test]
fn test_category_table() {
    let expected = [
        ErrorCategory::Network, ErrorCategory::Network, ErrorCategory::Network,
        ErrorCategory::Network, ErrorCategory::Network, ErrorCategory::Network,
        ErrorCategory::Network, // Http
        ErrorCategory::Network, // Json
        ErrorCategory::Rpc, ErrorCategory::Rpc, ErrorCategory::Rpc,
        ErrorCategory::Configuration,
        ErrorCategory::RateLimit,
        ErrorCategory::Network, // Timeout
        ErrorCategory::Validation, // InvalidSlotRange
        ErrorCategory::Network, // NoData
        ErrorCategory::Network, // RetryExhausted
        ErrorCategory::Validation, // InvalidValidator
        ErrorCategory::Network, // ConnectionFailed
        ErrorCategory::Rpc, // ResponseParsing
        ErrorCategory::Network, // Internal
        ErrorCategory::Authentication,
        ErrorCategory::Network, ErrorCategory::Network, ErrorCategory::RateLimit,
        ErrorCategory::Validation,
    ];
    let kinds = every_kind();
    assert_eq!(kinds.len(), expected.len());
    for (e, want) in kinds.iter().zip(expected) {
        assert_eq!(e.category(), want, "{:?}", e);
    }
}

#[test]
fn test_retry_delay_table() {
    let secs = |n: u64| Some(Duration::from_secs(n));
    let expected = [
        secs(2), secs(2), secs(2), None, None, None, None, // Http
        None, // Json
        None, None, None, // Rpc
        None, // Config
        secs(60), // RateLimit without a retry-after
        secs(5), // Timeout
        None, None, None, None,
        secs(2), // ConnectionFailed
        None, None, None,
        None, None, None, None,
    ];
    let kinds = every_kind();
    assert_eq!(kinds.len(), expected.len());
    for (e, want) in kinds.iter().zip(expected) {
        assert_eq!(e.retry_delay(), want, "{:?}", e);
    }
}

#[test]
fn test_transient_and_config_tables() {
    let kinds = every_kind();
    let transient: Vec<bool> = kinds.iter().map(|e| e.is_transient()).collect();
    assert_eq!(
        transient,
        vec![
            false, true, true, false, false, false, false, false, false, false, false, false,
            true, true, false, false, false, false, true, false, false, false, false, false,
            false, false
        ]
    );
    let config: Vec<bool> = kinds.iter().map(|e| e.is_config_error()).collect();
    assert_eq!(
        config,
        vec![
            false, false, false, false, false, false, false, false, false, false, false, true,
            false, false, true, false, false, false, false, false, false, false, false, false,
            false, false
        ]
    );
}

#[test]
fn test_only_configuration_and_slot_range_are_config_errors() {
    let malformed = BlockProductionError::InvalidValidator {
        pubkey: "p".to_string(),
        expected_format: "base58".to_string(),
    };
    assert!(!malformed.is_config_error());
    assert_eq!(malformed.category(), ErrorCategory::Validation);
    let count = every_kind().iter().filter(|e| e.is_config_error()).count();
    assert_eq!(count, 2);
}

#[test]
fn test_debug_hints_texts() {
    let timeout = |timeout_type| BlockProductionError::Timeout {
        duration: Duration::from_millis(1500),
        operation: "o".to_string(),
        timeout_type,
    };
    assert_eq!(
        timeout(TimeoutType::Request).debug_hints(),
        vec![
            "Request timed out after 1.5s",
            "Consider increasing request timeout",
            "Check network latency to RPC endpoint"
        ]
    );
    assert_eq!(
        timeout(TimeoutType::Connection).debug_hints(),
        vec![
            "Request timed out after 1.5s",
            "Check network connectivity",
            "Verify RPC endpoint is reachable"
        ]
    );
    assert_eq!(
        timeout(TimeoutType::Read).debug_hints(),
        vec![
            "Request timed out after 1.5s",
            "RPC server is not responding",
            "Try a different RPC endpoint"
        ]
    );
    let rate_limit = BlockProductionError::RateLimit {
        requests: 100,
        window: Duration::from_secs(60),
        limit: 50,
        retry_after: None,
    };
    assert_eq!(
        rate_limit.debug_hints(),
        vec![
            "Reduce request frequency to under 50 per 60s",
            "Consider using a private RPC endpoint for higher limits"
        ]
    );
    let http = |is_timeout, is_connect| BlockProductionError::Http {
        source: http_failure(is_timeout, is_connect, None),
        context: None,
    };
    assert_eq!(
        http(true, true).debug_hints(),
        vec!["Try increasing timeout duration", "Check network connectivity"]
    );
    assert_eq!(
        http(false, true).debug_hints(),
        vec!["Verify RPC endpoint URL is correct", "Check if RPC service is running"]
    );
    assert!(http(false, false).debug_hints().is_empty());
    let auth = |auth_type| BlockProductionError::Auth { message: "m".to_string(), auth_type };
    assert_eq!(
        auth(AuthErrorType::MissingApiKey).debug_hints(),
        vec!["Add API key to request headers"]
    );
    assert_eq!(
        auth(AuthErrorType::InvalidApiKey).debug_hints(),
        vec!["Verify API key is correct and not expired"]
    );
    assert_eq!(
        auth(AuthErrorType::QuotaExceeded).debug_hints(),
        vec!["Upgrade RPC plan or wait for quota reset"]
    );
    assert_eq!(
        auth(AuthErrorType::IpBlocked).debug_hints(),
        vec!["Contact RPC provider to unblock IP address"]
    );
    let config = BlockProductionError::config_error("m", Some("f"), None);
    assert!(config.debug_hints().is_empty());
    assert!(json_error().debug_hints().is_empty());
}

#[test]
fn test_config_error_constructor() {
    match BlockProductionError::config_error("bad", Some("field"), Some("fix")) {
        BlockProductionError::Config { message, field, suggestion } => {
            assert_eq!(message, "bad");
            assert_eq!(field, Some("field".to_string()));
            assert_eq!(suggestion, Some("fix".to_string()));
        }
        other => panic!("expected a configuration error, got {:?}", other),
    }
    match BlockProductionError::rate_limit_error(1, 2, Duration::from_secs(3)) {
        BlockProductionError::RateLimit { retry_after, .. } => {
            assert_eq!(retry_after, Some(Duration::from_secs(3)));
        }
        other => panic!("expected a rate limit, got {:?}", other),
    }
}
