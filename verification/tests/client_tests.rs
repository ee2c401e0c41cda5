use blocks_production_lib::analytics::analyze_block_production;
use blocks_production_lib::client::{build_rpc_request, health_request, range_request};
use blocks_production_lib::error::ErrorCategory;
use blocks_production_lib::transport::{Phase, TransportAction, TransportEvent};
use blocks_production_lib::types::{
    BlockProductionData, BlockProductionRequest, BlockProductionValue,
};
use blocks_production_lib::{
    BlockProductionClient, BlockProductionError, ErrorExt, SlotRange, ValidatorSkipRate,
};
use std::time::Duration;

fn names(records: &[ValidatorSkipRate]) -> Vec<&str> {
    records.iter().map(|v| v.pubkey.as_str()).collect()
}

fn data(entries: &[(&str, u64, u64)]) -> BlockProductionData {
    let logs: Vec<u32> =
        entries.iter().map(|(_, s, _)| ((*s as f64).ln().max(0.0) * 1_000_000.0) as u32).collect();
    analyze_block_production(
        BlockProductionValue {
            by_identity: entries.iter().map(|(k, s, p)| (k.to_string(), (*s, *p))).collect(),
            range: SlotRange { first_slot: 1000, last_slot: 2000 },
        },
        &logs,
        0,
    )
    .unwrap()
}

#[test]
fn test_client_creation() {
    let client = BlockProductionClient::builder()
        .rpc_endpoint("https://api.mainnet-beta.solana.com")
        .timeout(Duration::from_secs(30))
        .retry_attempts(3)
        .build();

    assert!(client.is_ok());
}

#[test]
fn test_client_builder_configuration() {
    let client = BlockProductionClient::builder()
        .rpc_endpoint("https://custom-rpc.com")
        .timeout(Duration::from_secs(60))
        .retry_attempts(5)
        .rate_limit(10)
        .max_concurrent_requests(20)
        .add_header("Authorization", "Bearer token")
        .build()
        .unwrap();

    let config = client.config();
    assert_eq!(config.rpc_endpoint, "https://custom-rpc.com");
    assert_eq!(config.timeout, Duration::from_secs(60));
    assert_eq!(config.retry_attempts, 5);
    assert_eq!(config.rate_limiter.map(|r| r.requests_per_second), Some(10));
    assert_eq!(config.max_concurrent_requests, 20);
    assert_eq!(config.headers.get("Authorization"), Some(&"Bearer token".to_string()));
}

#[test]
fn integration_tests_test_preset_configurations() {
    let configs = [
        BlockProductionClient::builder().public_rpc_config(),
        BlockProductionClient::builder().private_rpc_config(),
        BlockProductionClient::builder().high_frequency_config(),
        BlockProductionClient::builder().batch_processing_config(),
    ];

    for config_builder in configs {
        let client = config_builder.rpc_endpoint("https://test.com").build();
        assert!(client.is_ok());
    }
}

#[test]
fn integration_tests_test_validator_skip_rate_calculation() {
    // Test perfect performance
    let perfect = ValidatorSkipRate::new("perfect_validator".to_string(), 100, 100);
    assert_eq!(perfect.missed_slots, 0);
    assert_eq!(perfect.skip_rate_percent.micros as f64 / 1_000_000.0, 0.0);
    assert!(perfect.is_perfect());
    assert!(!perfect.is_concerning());

    // Test concerning performance
    let concerning = ValidatorSkipRate::new("bad_validator".to_string(), 100, 85);
    assert_eq!(concerning.missed_slots, 15);
    assert_eq!(concerning.skip_rate_percent.micros as f64 / 1_000_000.0, 15.0);
    assert!(!concerning.is_perfect());
    assert!(concerning.is_concerning());

    // Test edge case: no leader slots
    let no_slots = ValidatorSkipRate::new("no_slots_validator".to_string(), 0, 0);
    assert_eq!(no_slots.missed_slots, 0);
    assert_eq!(no_slots.skip_rate_percent.micros as f64 / 1_000_000.0, 0.0);
    assert!(!no_slots.is_perfect()); // not perfect because no slots
    assert!(!no_slots.is_concerning());
}

#[test]
fn test_slot_range_calculations() {
    let range = SlotRange { first_slot: 1000, last_slot: 2500 };
    assert_eq!(range.slot_count(), 1500);

    // Test edge case
    let same_slot = SlotRange { first_slot: 1000, last_slot: 1000 };
    assert_eq!(same_slot.slot_count(), 0);
}

#[test]
fn test_invalid_slot_range() {
    let client = BlockProductionClient::builder()
        .rpc_endpoint("http://127.0.0.1:1")
        .build()
        .unwrap();

    // Test invalid range (first_slot >= last_slot)
    let result = client.fetch_block_production_range(2000, 1000);
    assert!(matches!(result, Err(BlockProductionError::InvalidSlotRange { .. })));

    let result = client.fetch_block_production_range(1000, 1000);
    assert!(matches!(result, Err(BlockProductionError::InvalidSlotRange { .. })));

    match range_request(2000, 1000) {
        Err(e) => {
            assert!(e.is_config_error());
            assert!(!e.is_retryable());
            assert_eq!(e.category(), ErrorCategory::Validation);
            match e {
                BlockProductionError::InvalidSlotRange {
                    message,
                    provided_range,
                    valid_range,
                } => {
                    assert_eq!(
                        message,
                        "Invalid slot range: first_slot (2000) must be less than last_slot (1000)"
                    );
                    assert_eq!(provided_range, Some((2000, 1000)));
                    assert_eq!(valid_range, None);
                }
                other => panic!("Expected InvalidSlotRange error, got {:?}", other),
            }
        }
        Ok(params) => panic!("expected the range to be refused, got {:?}", params),
    }
}

#[test]
fn test_valid_slot_range_begins_an_exchange() {
    let client = BlockProductionClient::new("https://rpc.example").unwrap();
    let exchange = client.fetch_block_production_range(1000, 2000).unwrap();
    assert_eq!(exchange.request.jsonrpc, "2.0");
    assert_eq!(exchange.request.id, 1);
    assert_eq!(exchange.request.method, "getBlockProduction");
    let params = exchange.request.params.unwrap();
    assert_eq!(params.len(), 1);
    assert_eq!(params[0].range, Some(SlotRange { first_slot: 1000, last_slot: 2000 }));
    assert_eq!(params[0].commitment, None);
    assert!(matches!(exchange.action, TransportAction::Send { attempt: 1, delay: None }));
    assert_eq!(exchange.state.phase, Phase::Sending);
    assert_eq!(exchange.state.policy.max_attempts, 3);
    assert_eq!(exchange.state.policy.timeout, Duration::from_secs(30));
    assert_eq!(exchange.state.policy.backoff, None);
    assert_eq!(exchange.state.endpoint, "https://rpc.example");
    assert_eq!(exchange.state.method, "getBlockProduction");
}

#[test]
fn test_request_envelopes() {
    let plain = build_rpc_request(&BlockProductionRequest::default());
    assert_eq!(plain.jsonrpc, "2.0");
    assert_eq!(plain.id, 1);
    assert_eq!(plain.method, "getBlockProduction");
    assert_eq!(plain.params.map(|p| p.len()), Some(0));

    let committed = build_rpc_request(&BlockProductionRequest {
        range: None,
        commitment: Some("finalized".to_string()),
    });
    let params = committed.params.unwrap();
    assert_eq!(params.len(), 1);
    assert_eq!(params[0].range, None);
    assert_eq!(params[0].commitment.as_deref(), Some("finalized"));

    let both = build_rpc_request(&BlockProductionRequest {
        range: Some(SlotRange { first_slot: 5, last_slot: 9 }),
        commitment: Some("confirmed".to_string()),
    });
    let params = both.params.unwrap();
    assert_eq!(params[0].range, Some(SlotRange { first_slot: 5, last_slot: 9 }));
    assert_eq!(params[0].commitment.as_deref(), Some("confirmed"));

    let probe = health_request();
    assert_eq!(probe.jsonrpc, "2.0");
    assert_eq!(probe.id, 1);
    assert_eq!(probe.method, "getHealth");
    assert!(probe.params.is_none());
}

#[test]
fn test_connection_test() {
    let client = BlockProductionClient::builder()
        .rpc_endpoint("http://127.0.0.1:8899")
        .build()
        .unwrap();

    let exchange = client.test_connection();
    assert_eq!(exchange.request.method, "getHealth");
    assert!(exchange.request.params.is_none());
    assert!(matches!(exchange.action, TransportAction::Send { attempt: 1, delay: None }));
    let (state, action) = exchange.state.step(TransportEvent::Head {
        status: 200,
        retry_after: None,
        description: String::new(),
    });
    assert!(matches!(action, TransportAction::ReadBody));
    let (_, action) = state.step(TransportEvent::Body {
        error: None,
        raw: "{\"jsonrpc\":\"2.0\",\"result\":\"ok\",\"id\":1}".to_string(),
    });
    match action {
        TransportAction::Done { result } => {
            assert!(result.is_ok());
        }
        other => panic!("expected the probe to end, got {:?}", other),
    }
}

#[test]
fn test_error_handling_comprehensive() {
    // The only attempt of the probe runs out of time
    let client = BlockProductionClient::builder()
        .rpc_endpoint("http://127.0.0.1:8899")
        .timeout(Duration::from_millis(500))
        .retry_attempts(1)
        .build()
        .unwrap();

    let exchange = client.test_connection();
    let (_, action) = exchange.state.step(TransportEvent::Elapsed);
    let result = match action {
        TransportAction::Done { result } => result,
        other => panic!("expected the probe to end, got {:?}", other),
    };
    assert!(result.is_err());

    if let Err(e) = result {
        assert!(e.is_retryable());
        assert!(e.is_transient());
        assert!(!e.is_config_error());
        assert_eq!(e.category(), ErrorCategory::Network);
        match e {
            BlockProductionError::Timeout { duration, .. } => {
                assert_eq!(duration, Duration::from_millis(500));
            }
            other => panic!("Expected Timeout error, got {:?}", other),
        }
    }
}

#[test]
fn test_configuration_validation() {
    // Test empty endpoint
    let result = BlockProductionClient::new("");
    assert!(result.is_err());

    if let Err(e) = result {
        assert!(e.is_config_error());
        assert!(!e.is_retryable());
    }

    // Test invalid URL format
    let result = BlockProductionClient::new("not-a-url");
    assert!(result.is_err());

    if let Err(e) = result {
        assert!(e.is_config_error());
        assert!(!e.is_retryable());
    }
}

#[test]
fn test_custom_headers() {
    let client = BlockProductionClient::builder()
        .rpc_endpoint("http://127.0.0.1:8899")
        .add_header("Authorization", "Bearer test-token")
        .add_header("User-Agent", "test-client/1.0")
        .build()
        .unwrap();
    assert_eq!(client.config().headers.len(), 2);
    assert_eq!(
        client.config().headers.get("Authorization"),
        Some(&"Bearer test-token".to_string())
    );
    assert_eq!(client.config().headers.get("User-Agent"), Some(&"test-client/1.0".to_string()));

    let refused = BlockProductionClient::builder()
        .rpc_endpoint("http://127.0.0.1:8899")
        .add_header("Bad Header", "v")
        .build();
    match refused {
        Err(e) => {
            assert!(e.is_config_error());
            assert_eq!(e.category(), ErrorCategory::Configuration);
        }
        Ok(_) => panic!("expected the header to be refused"),
    }
}

#[test]
fn integration_tests_test_auto_config_detection() {
    let mainnet_client = BlockProductionClient::builder()
        .auto_config("https://api.mainnet-beta.solana.com")
        .build();
    assert!(mainnet_client.is_ok());

    let helius_client =
        BlockProductionClient::builder().auto_config("https://rpc.helius.xyz/test").build();
    assert!(helius_client.is_ok());

    let quicknode_client =
        BlockProductionClient::builder().auto_config("https://api.quicknode.com/test").build();
    assert!(quicknode_client.is_ok());

    let helius = helius_client.unwrap();
    assert_eq!(helius.config().rpc_endpoint, "https://rpc.helius.xyz/test");
    assert_eq!(helius.config().max_concurrent_requests, 25);
}

#[test]
fn test_builder_does_not_accept_a_bad_endpoint() {
    assert!(BlockProductionClient::builder().rpc_endpoint("not-a-url").build().is_err());
    assert!(BlockProductionClient::builder().rpc_endpoint("").build().is_err());
    assert!(BlockProductionClient::builder().build().is_ok());
}

#[test]
fn test_fetch_begins_with_an_empty_parameter_list() {
    let client = BlockProductionClient::new("https://rpc.example").unwrap();
    let exchange = client.fetch_block_production();
    assert_eq!(exchange.request.method, "getBlockProduction");
    assert_eq!(exchange.request.params.map(|p| p.len()), Some(0));
    assert!(exchange.state.error_history.is_empty());
    assert!(!exchange.state.rate_limited);

    let none = BlockProductionClient::builder()
        .rpc_endpoint("https://rpc.example")
        .retry_attempts(0)
        .build()
        .unwrap();
    let exchange = none.fetch_block_production();
    assert_eq!(exchange.state.phase, Phase::Finished);
    assert!(matches!(
        exchange.action,
        TransportAction::Done { result: Err(BlockProductionError::RetryExhausted { .. }) }
    ));
}

const FLEET: [(&str, u64, u64); 9] = [
    ("idle", 0, 0),
    ("dead", 100, 0),
    ("whale", 5000, 4990),
    ("solid", 2000, 2000),
    ("shaky", 60, 50),
    ("tiny", 5, 5),
    ("edge", 100, 95),
    ("big_bad", 1500, 1200),
    ("small_bad", 20, 10),
];

#[test]
fn test_views() {
    let data = data(&FLEET);
    assert_eq!(
        names(&data.validators),
        vec!["idle", "solid", "tiny", "whale", "edge", "shaky", "big_bad", "small_bad", "dead"]
    );
    assert_eq!(
        names(&BlockProductionClient::get_concerning_validators(&data)),
        vec!["shaky", "big_bad", "small_bad", "dead"]
    );
    assert_eq!(names(&BlockProductionClient::get_perfect_validators(&data)), vec!["solid", "tiny"]);
    assert_eq!(names(&BlockProductionClient::get_offline_validators(&data)), vec!["dead"]);
    assert_eq!(
        names(&BlockProductionClient::get_significant_validators(&data)),
        vec!["solid", "whale", "edge", "shaky", "big_bad", "dead"]
    );
    assert_eq!(
        names(&BlockProductionClient::get_moderate_performers(&data)),
        vec!["whale", "edge"]
    );
    assert_eq!(
        names(&BlockProductionClient::get_high_activity_validators(&data)),
        vec!["solid", "whale", "big_bad"]
    );
    // The 95th percentile of nine is the rate at place seven: fifty percent
    assert_eq!(
        names(&BlockProductionClient::get_worst_percentile_validators(&data)),
        vec!["small_bad"]
    );
}

#[test]
fn test_worst_percentile_leaves_out_the_dead() {
    let data = data(&[("a", 100, 100), ("b", 100, 0), ("c", 100, 0)]);
    // The percentile stands at one hundred percent; nobody below it reaches it
    assert!(BlockProductionClient::get_worst_percentile_validators(&data).is_empty());

    let data = data_of_equal_rates();
    assert_eq!(
        names(&BlockProductionClient::get_worst_percentile_validators(&data)),
        vec!["x", "y", "z"]
    );
}

fn data_of_equal_rates() -> BlockProductionData {
    data(&[("x", 10, 5), ("y", 20, 10), ("z", 40, 20)])
}

#[test]
fn test_fetch_validator_skip_rates() {
    let data = data(&FLEET);
    let wanted = vec!["dead".to_string(), "nobody".to_string(), "tiny".to_string()];
    assert_eq!(
        names(&BlockProductionClient::fetch_validator_skip_rates(&data, &wanted)),
        vec!["tiny", "dead"]
    );
    assert!(BlockProductionClient::fetch_validator_skip_rates(&data, &Vec::new()).is_empty());
}

#[test]
fn test_backoff_of_the_client_reaches_the_exchange() {
    let client = BlockProductionClient::builder()
        .rpc_endpoint("https://rpc.example")
        .retry_backoff(Duration::from_millis(40))
        .build()
        .unwrap();
    let exchange = client.fetch_block_production();
    assert_eq!(exchange.state.policy.backoff, Some(Duration::from_millis(40)));
    assert!(exchange.state.is_well_formed());
    let (state, action) = exchange.state.step(TransportEvent::Elapsed);
    assert!(state.is_well_formed());
    match action {
        TransportAction::Send { attempt, delay } => {
            assert_eq!(attempt, 2);
            assert_eq!(delay, Some(Duration::from_millis(40)));
        }
        other => panic!("expected another attempt, got {:?}", other),
    }
}

#[test]
fn test_state_made_by_hand_may_be_ill_formed() {
    let client = BlockProductionClient::new("https://rpc.example").unwrap();
    let mut state = client.fetch_block_production().state;
    state.attempt = 4;
    assert!(!state.is_well_formed());
    state.attempt = 0;
    assert!(!state.is_well_formed());
    state.phase = Phase::Finished;
    assert!(state.is_well_formed());
}
