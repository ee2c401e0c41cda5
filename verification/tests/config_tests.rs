use blocks_production_lib::config::{validate_endpoint, validate_headers, Headers, RateLimit};
use blocks_production_lib::{BlockProductionError, ClientConfig, ClientConfigBuilder};
use std::time::Duration;

#[test]
fn test_client_config_default() {
    let config = ClientConfig::default();
    assert_eq!(config.rpc_endpoint, "https://api.mainnet-beta.solana.com");
    assert_eq!(config.timeout, Duration::from_secs(30));
    assert_eq!(config.retry_attempts, 3);
    assert_eq!(config.max_concurrent_requests, 10);
    assert!(config.headers.is_empty());
    assert!(config.rate_limiter.is_none());
}

#[test]
fn config_test_preset_configurations() {
    // Test public RPC config
    let public_builder = ClientConfig::public_rpc_config();
    let config = public_builder.rpc_endpoint("https://test.com".to_string()).build();
    assert_eq!(config.timeout, Duration::from_secs(60));
    assert_eq!(config.retry_attempts, 5);
    assert_eq!(config.max_concurrent_requests, 5);

    // Test private RPC config
    let private_builder = ClientConfig::private_rpc_config();
    let config = private_builder.rpc_endpoint("https://test.com".to_string()).build();
    assert_eq!(config.timeout, Duration::from_secs(30));
    assert_eq!(config.retry_attempts, 3);
    assert_eq!(config.max_concurrent_requests, 20);

    // Test high frequency config
    let hf_builder = ClientConfig::high_frequency_config();
    let config = hf_builder.rpc_endpoint("https://test.com".to_string()).build();
    assert_eq!(config.timeout, Duration::from_secs(15));
    assert_eq!(config.retry_attempts, 2);
    assert_eq!(config.max_concurrent_requests, 50);

    // Test batch processing config
    let batch_builder = ClientConfig::batch_processing_config();
    let config = batch_builder.rpc_endpoint("https://test.com".to_string()).build();
    assert_eq!(config.timeout, Duration::from_secs(120));
    assert_eq!(config.retry_attempts, 5);
    assert_eq!(config.max_concurrent_requests, 100);
}

#[test]
fn test_provider_specific_configs() {
    // Test Helius config
    let helius_builder = ClientConfig::helius_config();
    let config = helius_builder.rpc_endpoint("https://test.com".to_string()).build();
    assert_eq!(config.timeout, Duration::from_secs(30));
    assert_eq!(config.max_concurrent_requests, 25);

    // Test QuickNode config
    let quicknode_builder = ClientConfig::quicknode_config();
    let config = quicknode_builder.rpc_endpoint("https://test.com".to_string()).build();
    assert_eq!(config.timeout, Duration::from_secs(30));
    assert_eq!(config.max_concurrent_requests, 20);

    // Test Alchemy config
    let alchemy_builder = ClientConfig::alchemy_config();
    let config = alchemy_builder.rpc_endpoint("https://test.com".to_string()).build();
    assert_eq!(config.timeout, Duration::from_secs(30));
    assert_eq!(config.max_concurrent_requests, 30);
}

#[test]
fn config_test_auto_config_detection() {
    // Test auto-detection for known providers
    let mainnet_config = ClientConfig::auto_config("https://api.mainnet-beta.solana.com").build();
    assert_eq!(mainnet_config.timeout, Duration::from_secs(60)); // Public RPC config

    let helius_config = ClientConfig::auto_config("https://rpc.helius.xyz").build();
    assert_eq!(helius_config.timeout, Duration::from_secs(30)); // Helius config

    let quicknode_config = ClientConfig::auto_config("https://api.quicknode.com").build();
    assert_eq!(quicknode_config.timeout, Duration::from_secs(30)); // QuickNode config

    let alchemy_config = ClientConfig::auto_config("https://solana-mainnet.g.alchemy.com").build();
    assert_eq!(alchemy_config.timeout, Duration::from_secs(30)); // Alchemy config

    // Test fallback to private RPC config
    let unknown_config = ClientConfig::auto_config("https://unknown-provider.com").build();
    assert_eq!(unknown_config.timeout, Duration::from_secs(30)); // Private RPC config
}

#[test]
fn test_client_config_builder() {
    let config = ClientConfigBuilder::new()
        .rpc_endpoint("https://test.com".to_string())
        .timeout(Duration::from_secs(45))
        .retry_attempts(4)
        .rate_limit(20)
        .max_concurrent_requests(15)
        .add_header("Authorization".to_string(), "Bearer token".to_string())
        .add_header("User-Agent".to_string(), "test-client".to_string())
        .build();

    assert_eq!(config.rpc_endpoint, "https://test.com");
    assert_eq!(config.timeout, Duration::from_secs(45));
    assert_eq!(config.retry_attempts, 4);
    assert_eq!(config.max_concurrent_requests, 15);
    assert_eq!(config.headers.len(), 2);
    assert_eq!(config.headers.get("Authorization"), Some(&"Bearer token".to_string()));
    assert_eq!(config.headers.get("User-Agent"), Some(&"test-client".to_string()));
    assert!(config.rate_limiter.is_some());
}

#[test]
fn test_rate_limiter_creation() {
    let config = ClientConfigBuilder::new().rate_limit(10).build();
    assert!(config.rate_limiter.is_some());

    let config_no_limit = ClientConfigBuilder::new().rate_limit(0).build();
    assert!(config_no_limit.rate_limiter.is_none());
}

#[test]
fn test_builder_default() {
    let builder = ClientConfigBuilder::default();
    let config = builder.build();

    // Should have same defaults as ClientConfig::default()
    assert_eq!(config.rpc_endpoint, "https://api.mainnet-beta.solana.com");
    assert_eq!(config.timeout, Duration::from_secs(30));
    assert_eq!(config.retry_attempts, 3);
    assert_eq!(config.max_concurrent_requests, 10);
}

#[test]
fn test_config_debug() {
    let config = ClientConfig::default();
    let debug_str = format!("{:?}", config);
    assert!(debug_str.contains("ClientConfig"));
    assert!(debug_str.contains("timeout"));
}

#[test]
fn test_config_clone() {
    let first = ClientConfigBuilder::new()
        .rpc_endpoint("https://test.com".to_string())
        .timeout(Duration::from_secs(45))
        .add_header("test".to_string(), "value".to_string())
        .build();

    let cloned = first.clone();

    assert_eq!(first.rpc_endpoint, cloned.rpc_endpoint);
    assert_eq!(first.timeout, cloned.timeout);
    assert_eq!(first.headers.entries(), cloned.headers.entries());
}

#[test]
fn test_development_config() {
    let dev_config = ClientConfig::development_config().build();
    assert_eq!(dev_config.timeout, Duration::from_secs(60));
    assert_eq!(dev_config.retry_attempts, 1);
    assert_eq!(dev_config.max_concurrent_requests, 5);
}

#[test]
fn test_enterprise_config() {
    let enterprise_config = ClientConfig::enterprise_config().build();
    assert_eq!(enterprise_config.timeout, Duration::from_secs(45));
    assert_eq!(enterprise_config.retry_attempts, 3);
    assert_eq!(enterprise_config.max_concurrent_requests, 30);
}

#[test]
fn test_preset_rate_limits() {
    let rate = |c: ClientConfig| c.rate_limiter.map(|r| r.requests_per_second);
    assert_eq!(rate(ClientConfig::public_rpc_config().build()), Some(2));
    assert_eq!(rate(ClientConfig::private_rpc_config().build()), Some(10));
    assert_eq!(rate(ClientConfig::high_frequency_config().build()), Some(50));
    assert_eq!(rate(ClientConfig::batch_processing_config().build()), Some(5));
    assert_eq!(rate(ClientConfig::development_config().build()), Some(1));
    assert_eq!(rate(ClientConfig::enterprise_config().build()), Some(25));
    assert_eq!(rate(ClientConfig::helius_config().build()), Some(20));
    assert_eq!(rate(ClientConfig::quicknode_config().build()), Some(15));
    assert_eq!(rate(ClientConfig::alchemy_config().build()), Some(25));
}

#[test]
fn test_auto_config_picks_the_first_match() {
    // The public host wins over a provider name later in the URL
    let config = ClientConfig::auto_config("https://api.mainnet-beta.solana.com/helius").build();
    assert_eq!(config.retry_attempts, 5);
    assert_eq!(config.rate_limiter, Some(RateLimit { requests_per_second: 2 }));
    assert_eq!(config.rpc_endpoint, "https://api.mainnet-beta.solana.com/helius");

    let config = ClientConfig::auto_config("https://quicknode.example/alchemy").build();
    assert_eq!(config.max_concurrent_requests, 20);
    assert_eq!(config.rate_limiter, Some(RateLimit { requests_per_second: 15 }));
}

#[test]
fn test_rate_limit_zero_keeps_the_limit() {
    let config = ClientConfigBuilder::new().rate_limit(7).rate_limit(0).build();
    assert_eq!(config.rate_limiter, Some(RateLimit { requests_per_second: 7 }));
}

#[test]
fn test_clone_starts_without_rate_limiter() {
    let first = ClientConfigBuilder::new().rate_limit(7).build();
    assert!(first.rate_limiter.is_some());
    assert!(first.clone().rate_limiter.is_none());
}

#[test]
fn test_headers_replace_keeps_one_entry() {
    let headers = Headers::new()
        .insert("A".to_string(), "1".to_string())
        .insert("B".to_string(), "2".to_string())
        .insert("A".to_string(), "3".to_string());
    assert_eq!(headers.len(), 2);
    assert_eq!(headers.get("A"), Some(&"3".to_string()));
    assert_eq!(headers.get("B"), Some(&"2".to_string()));
    assert_eq!(headers.get("C"), None);
    assert_eq!(
        headers.entries(),
        &vec![("A".to_string(), "3".to_string()), ("B".to_string(), "2".to_string())]
    );
}

#[test]
fn test_validate_endpoint() {
    assert!(validate_endpoint("http://localhost:8899").is_ok());
    assert!(validate_endpoint("https://api.mainnet-beta.solana.com").is_ok());

    match validate_endpoint("") {
        Err(BlockProductionError::Config { message, field, suggestion }) => {
            assert_eq!(message, "RPC endpoint cannot be empty");
            assert_eq!(field.as_deref(), Some("rpc_endpoint"));
            assert_eq!(suggestion.as_deref(), Some("Provide a valid Solana RPC endpoint URL"));
        }
        other => panic!("expected a configuration error, got {:?}", other),
    }
    match validate_endpoint("ftp://example.com") {
        Err(BlockProductionError::Config { message, field, suggestion }) => {
            assert_eq!(message, "RPC endpoint must start with http:// or https://");
            assert_eq!(field.as_deref(), Some("rpc_endpoint"));
            assert_eq!(
                suggestion.as_deref(),
                Some("Use a complete URL like https://api.mainnet-beta.solana.com")
            );
        }
        other => panic!("expected a configuration error, got {:?}", other),
    }
    assert!(validate_endpoint("http:/").is_err());
    assert!(validate_endpoint("HTTP://upper.case").is_err());
}

#[test]
fn test_validate_headers() {
    let good = Headers::new()
        .insert("Authorization".to_string(), "Bearer token".to_string())
        .insert("x-api-key".to_string(), "k\tv".to_string());
    assert!(validate_headers(&good).is_ok());
    assert!(validate_headers(&Headers::new()).is_ok());

    let bad_name = Headers::new()
        .insert("ok".to_string(), "fine".to_string())
        .insert("bad name".to_string(), "fine".to_string())
        .insert("worse".to_string(), "line\nbreak".to_string());
    match validate_headers(&bad_name) {
        Err(BlockProductionError::Config { message, field, suggestion }) => {
            assert_eq!(message, "Invalid header name 'bad name': invalid HTTP header name");
            assert_eq!(field.as_deref(), Some("headers"));
            assert_eq!(
                suggestion.as_deref(),
                Some("Use valid HTTP header names (alphanumeric and hyphens)")
            );
        }
        other => panic!("expected a configuration error, got {:?}", other),
    }

    let bad_value = Headers::new().insert("x-note".to_string(), "line\nbreak".to_string());
    match validate_headers(&bad_value) {
        Err(BlockProductionError::Config { message, field, suggestion }) => {
            assert_eq!(
                message,
                "Invalid header value 'line\nbreak': failed to parse header value"
            );
            assert_eq!(field.as_deref(), Some("headers"));
            assert_eq!(suggestion.as_deref(), Some("Header values must be valid ASCII"));
        }
        other => panic!("expected a configuration error, got {:?}", other),
    }

    // An empty name is refused, an empty value is not
    let empty_name = Headers::new().insert("".to_string(), "v".to_string());
    assert!(validate_headers(&empty_name).is_err());
    let empty_value = Headers::new().insert("x-empty".to_string(), "".to_string());
    assert!(validate_headers(&empty_value).is_ok());
    // Character 127 is refused in a value
    let delete = Headers::new().insert("x-del".to_string(), "a\u{7f}b".to_string());
    assert!(validate_headers(&delete).is_err());
}

#[test]
fn test_rate_limit_of_zero_is_no_limit() {
    assert_eq!(RateLimit::new(0), None);
    assert_eq!(RateLimit::new(1), Some(RateLimit { requests_per_second: 1 }));
    assert_eq!(RateLimit::new(u32::MAX), Some(RateLimit { requests_per_second: u32::MAX }));
}

#[test]
fn test_retry_backoff_is_off_by_default() {
    assert_eq!(ClientConfig::default().retry_backoff, None);
    assert_eq!(ClientConfig::public_rpc_config().build().retry_backoff, None);
    let config = ClientConfigBuilder::new().retry_backoff(Duration::from_millis(250)).build();
    assert_eq!(config.retry_backoff, Some(Duration::from_millis(250)));
    assert_eq!(config.clone().retry_backoff, Some(Duration::from_millis(250)));
    assert_eq!(config.retry_attempts, 3);
}
