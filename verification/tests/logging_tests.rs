use blocks_production_lib::{LogFormat, LoggingConfig};

#[test]
fn test_logging_config_builder() {
    let config = LoggingConfig::new()
        .level("debug")
        .format(LogFormat::Json)
        .include_location(true)
        .include_spans(false);

    assert_eq!(config.level, "debug");
    assert_eq!(config.format, LogFormat::Json);
    assert_eq!(config.include_location, true);
    assert_eq!(config.include_spans, false);
}

#[test]
fn test_logging_config_default() {
    let config = LoggingConfig::default();
    assert_eq!(config.level, "info");
    assert_eq!(config.format, LogFormat::Pretty);
    assert_eq!(config.include_location, false);
    assert_eq!(config.include_spans, true);
}

#[test]
fn test_log_format_equality() {
    assert_eq!(LogFormat::Json, LogFormat::Json);
    assert_eq!(LogFormat::Pretty, LogFormat::Pretty);
    assert_eq!(LogFormat::Compact, LogFormat::Compact);
    assert_ne!(LogFormat::Json, LogFormat::Pretty);
}

#[test]
fn test_log_format_debug() {
    let json_format = LogFormat::Json;
    let debug_str = format!("{:?}", json_format);
    assert_eq!(debug_str, "Json");
}

#[test]
fn test_log_format_clone() {
    let first = LogFormat::Json;
    let cloned = first.clone();
    assert_eq!(first, cloned);
}

#[test]
fn test_logging_config_chaining() {
    let config = LoggingConfig::new()
        .level("trace")
        .format(LogFormat::Compact)
        .include_location(true)
        .include_spans(false)
        .level("warn"); // Should override previous level

    assert_eq!(config.level, "warn");
    assert_eq!(config.format, LogFormat::Compact);
    assert_eq!(config.include_location, true);
    assert_eq!(config.include_spans, false);
}

#[test]
fn test_format_variants() {
    // Test all format variants exist and are different
    let json = LogFormat::Json;
    let pretty = LogFormat::Pretty;
    let compact = LogFormat::Compact;

    assert_ne!(json, pretty);
    assert_ne!(pretty, compact);
    assert_ne!(json, compact);
}
