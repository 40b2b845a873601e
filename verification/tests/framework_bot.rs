use universal_bot::framework::bot::BotMetrics;
use universal_bot::framework::config::{
    validate_model, BotConfig, PipelineConfig, PluginConfig,
};
use universal_bot::framework::error::Error;

#[test]
fn test_metrics() {
    let mut metrics = BotMetrics::new();

    assert_eq!(metrics.requests_total(), 0);
    assert_eq!(metrics.success_total(), 0);
    assert_eq!(metrics.errors_total(), 0);
    assert_eq!(metrics.success_rate(), 100_000);

    metrics.increment_requests();
    metrics.increment_success();
    assert_eq!(metrics.requests_total(), 1);
    assert_eq!(metrics.success_total(), 1);
    assert_eq!(metrics.success_rate(), 100_000);

    metrics.increment_requests();
    metrics.increment_errors();
    assert_eq!(metrics.requests_total(), 2);
    assert_eq!(metrics.errors_total(), 1);
    assert_eq!(metrics.success_rate(), 50_000);
}

#[test]
fn test_metrics_response_time() {
    let mut metrics = BotMetrics::new();

    assert!(metrics.average_response_time().is_none());

    metrics.record_response_time(100);
    metrics.record_response_time(200);

    let avg = metrics.average_response_time().unwrap();
    assert_eq!(avg, 150);
}

#[test]
fn test_invalid_model() {
    let allowed = vec!["meta.llama3-70b-instruct".to_string()];
    let config = BotConfig::builder().model("invalid-model").build(&allowed);

    assert!(config.is_err());
}

#[test]
fn test_invalid_temperature() {
    let allowed = vec!["meta.llama3-70b-instruct".to_string()];
    let mut config = BotConfig::for_model("meta.llama3-70b-instruct");
    assert!(config.validate(&allowed).is_ok());
    config.temperature_permille = 1500;
    assert!(config.validate(&allowed).is_err());
}

#[test]
fn only_the_last_thousand_response_times_count() {
    let mut metrics = BotMetrics::new();
    metrics.record_response_time(1_000_000);
    for _ in 0..1000 {
        metrics.record_response_time(4);
    }
    assert_eq!(metrics.average_response_time(), Some(4));
}

#[test]
fn the_builder_fills_in_defaults_and_validates() {
    let allowed = vec!["amazon.titan-text-express".to_string(), "ai21.j2-mid".to_string()];
    let config = BotConfig::builder()
        .model("ai21.j2-mid")
        .temperature(500)
        .max_tokens(4096)
        .timeout(60_000)
        .build(&allowed)
        .ok()
        .unwrap();
    assert_eq!(config.model, "ai21.j2-mid");
    assert_eq!(config.temperature_permille, 500);
    assert_eq!(config.max_tokens, 4096);
    assert_eq!(config.timeout_ms, 60_000);
    assert_eq!(config.max_retries, 3);
    assert!(config.enable_logging && config.enable_cost_tracking);
    let defaults = BotConfig::builder().model("ai21.j2-mid").build(&allowed).ok().unwrap();
    assert_eq!(defaults.temperature_permille, 100);
    assert_eq!(defaults.max_tokens, 2048);
    assert_eq!(defaults.timeout_ms, 30_000);
    assert_eq!(defaults.context_config.max_context_tokens, 4096);
    assert_eq!(defaults.context_config.context_ttl_ms, 3_600_000);
    assert_eq!(defaults.plugin_config.plugin_dirs, vec!["plugins".to_string()]);
    assert_eq!(
        defaults.pipeline_config.enabled_stages,
        vec!["sanitize", "enrich", "route", "process", "format"]
    );
    match BotConfig::builder().build(&allowed) {
        Err(e @ Error::Other { .. }) => assert_eq!(e.to_string(), "model is required"),
        _ => panic!("a failure is due"),
    }
    for builder in [
        BotConfig::builder().model("ai21.j2-mid").temperature(1001),
        BotConfig::builder().model("ai21.j2-mid").max_tokens(0),
        BotConfig::builder().model("ai21.j2-mid").max_tokens(100_001),
        BotConfig::builder().model("ai21.j2-mid").max_retries(11),
        BotConfig::builder().model("unknown"),
    ] {
        assert!(matches!(builder.build(&allowed), Err(Error::Validation(_))));
    }
    let edge = BotConfig::builder()
        .model("ai21.j2-mid")
        .temperature(1000)
        .max_tokens(100_000)
        .max_retries(10)
        .enable_logging(false)
        .enable_cost_tracking(false)
        .pipeline_config(PipelineConfig::default())
        .plugin_config(PluginConfig::default())
        .build(&allowed);
    assert!(edge.is_ok());
    assert!(validate_model("ai21.j2-mid", &allowed).is_ok());
    assert!(validate_model("ai21.j2", &allowed).is_err());
    assert!(validate_model("", &vec![]).is_err());
}
