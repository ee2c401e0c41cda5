use blocks_production_lib::percent::Percent;
use blocks_production_lib::{ClientConfig, SlotRange, ValidatorSkipRate};

fn percent(p: Percent) -> f64 {
    p.micros as f64 / 1_000_000.0
}

#[test]
fn lib_test_validator_skip_rate_calculation() {
    let validator = ValidatorSkipRate::new(
        "test_pubkey".to_string(),
        100, // leader slots
        95,  // blocks produced
    );

    assert_eq!(validator.missed_slots, 5);
    assert_eq!(percent(validator.skip_rate_percent), 5.0);
    assert!(!validator.is_perfect());
    assert!(!validator.is_concerning()); // exactly 5%, not > 5%
}

#[test]
fn test_validator_perfect_performance() {
    let validator = ValidatorSkipRate::new(
        "perfect_validator".to_string(),
        100, // leader slots
        100, // blocks produced
    );

    assert_eq!(validator.missed_slots, 0);
    assert_eq!(percent(validator.skip_rate_percent), 0.0);
    assert!(validator.is_perfect());
    assert!(!validator.is_concerning());
}

#[test]
fn test_validator_concerning_performance() {
    let validator = ValidatorSkipRate::new(
        "bad_validator".to_string(),
        100, // leader slots
        90,  // blocks produced
    );

    assert_eq!(validator.missed_slots, 10);
    assert_eq!(percent(validator.skip_rate_percent), 10.0);
    assert!(!validator.is_perfect());
    assert!(validator.is_concerning());
}

#[test]
fn lib_test_slot_range() {
    let range = SlotRange { first_slot: 1000, last_slot: 2000 };

    assert_eq!(range.slot_count(), 1000);
}

#[test]
fn test_config_builder() {
    let config = ClientConfig::builder()
        .rpc_endpoint("https://custom-rpc.com".to_string())
        .retry_attempts(5)
        .build();

    assert_eq!(config.rpc_endpoint, "https://custom-rpc.com");
    assert_eq!(config.retry_attempts, 5);
}
