use universal_bot::bedrock::config::{BedrockConfig, ConfigField, GenerationConfig};
use universal_bot::bedrock::error::BedrockError;

#[test]
fn test_default_config_validation() {
    let config = BedrockConfig::default();
    assert!(config.validate().is_ok());
}

#[test]
fn test_high_performance_config() {
    let config = BedrockConfig::high_performance();
    assert_eq!(config.pool_size, 20);
    assert_eq!(config.max_concurrent_requests, 500);
    assert!(config.validate().is_ok());
}

#[test]
fn test_generation_config_presets() {
    let code_config = GenerationConfig::code_generation();
    assert_eq!(code_config.temperature_permille, Some(100));

    let creative_config = GenerationConfig::creative_writing();
    assert_eq!(creative_config.temperature_permille, Some(900));

    let deterministic_config = GenerationConfig::deterministic();
    assert_eq!(deterministic_config.temperature_permille, Some(0));
}

#[test]
fn test_config_builder_pattern() {
    let config = BedrockConfig::default()
        .with_region("us-west-2")
        .with_pool_size(10)
        .with_metrics(false);

    assert_eq!(config.region, "us-west-2");
    assert_eq!(config.pool_size, 10);
    assert!(!config.enable_metrics);
}

#[test]
fn defaults_and_presets_hold_the_tabled_numbers() {
    let d = BedrockConfig::default();
    assert_eq!(d.region, "us-east-1");
    assert_eq!(
        (d.pool_size, d.timeout_seconds, d.retry_initial_interval_ms, d.retry_max_interval_seconds),
        (5, 120, 500, 30)
    );
    assert_eq!(
        (d.retry_max_elapsed_seconds, d.retry_multiplier_permille, d.max_concurrent_requests),
        (300, 2000, 100)
    );
    assert!(d.enable_metrics && !d.enable_logging);
    let l = BedrockConfig::low_latency();
    assert_eq!((l.pool_size, l.timeout_seconds, l.retry_multiplier_permille), (10, 30, 1200));
    assert!(l.validate().is_ok());
    let c = BedrockConfig::conservative();
    assert_eq!((c.pool_size, c.retry_max_elapsed_seconds), (2, 600));
    assert_eq!(c.find_invalid(), Some(ConfigField::RetryMaxElapsedSeconds));
    let copy = d.clone().with_timeout(7).with_logging(true);
    assert_eq!(copy.timeout_seconds, 7);
    assert!(copy.enable_logging);
    let g = GenerationConfig::default();
    assert_eq!((g.max_tokens, g.temperature_permille, g.top_p_permille), (Some(4096), Some(700), Some(900)));
    assert!(g.system_prompt.is_none());
    let a = GenerationConfig::analysis();
    assert_eq!(a.temperature_permille, Some(300));
    assert_eq!(
        a.system_prompt.as_deref(),
        Some("You are an expert analyst. Provide thorough, objective analysis.")
    );
    assert_eq!(GenerationConfig::code_generation().max_tokens, Some(8192));
    assert_eq!(GenerationConfig::deterministic().top_p_permille, Some(1000));
}

fn rejected(config: BedrockConfig, field: ConfigField) {
    assert_eq!(config.find_invalid(), Some(field));
    match config.validate() {
        Err(BedrockError::Configuration(message)) => {
            assert_eq!(message, format!("{} is out of range", field.as_str()))
        }
        _ => panic!("a configuration error is due"),
    }
}

#[test]
fn every_option_is_held_to_its_range() {
    let base = BedrockConfig::default;
    for (low, high) in [(1usize, 100usize)] {
        assert!(base().with_pool_size(low).validate().is_ok());
        assert!(base().with_pool_size(high).validate().is_ok());
        rejected(base().with_pool_size(low - 1), ConfigField::PoolSize);
        rejected(base().with_pool_size(high + 1), ConfigField::PoolSize);
    }
    assert!(base().with_timeout(1).validate().is_ok());
    assert!(base().with_timeout(300).validate().is_ok());
    rejected(base().with_timeout(0), ConfigField::TimeoutSeconds);
    rejected(base().with_timeout(301), ConfigField::TimeoutSeconds);
    let mut c = base();
    c.retry_initial_interval_ms = 99;
    rejected(c, ConfigField::RetryInitialIntervalMs);
    let mut c = base();
    c.retry_initial_interval_ms = 10_001;
    rejected(c, ConfigField::RetryInitialIntervalMs);
    let mut c = base();
    c.retry_max_interval_seconds = 0;
    rejected(c, ConfigField::RetryMaxIntervalSeconds);
    let mut c = base();
    c.retry_max_interval_seconds = 61;
    rejected(c, ConfigField::RetryMaxIntervalSeconds);
    let mut c = base();
    c.retry_max_elapsed_seconds = 9;
    rejected(c, ConfigField::RetryMaxElapsedSeconds);
    let mut c = base();
    c.retry_max_elapsed_seconds = 301;
    rejected(c, ConfigField::RetryMaxElapsedSeconds);
    let mut c = base();
    c.retry_multiplier_permille = 999;
    rejected(c, ConfigField::RetryMultiplier);
    let mut c = base();
    c.retry_multiplier_permille = 5001;
    rejected(c, ConfigField::RetryMultiplier);
    let mut c = base();
    c.max_concurrent_requests = 0;
    rejected(c, ConfigField::MaxConcurrentRequests);
    let mut c = base();
    c.max_concurrent_requests = 1001;
    rejected(c, ConfigField::MaxConcurrentRequests);
    let mut c = base();
    c.retry_multiplier_permille = 5000;
    c.max_concurrent_requests = 1000;
    c.retry_initial_interval_ms = 10_000;
    assert!(c.validate().is_ok());
}
