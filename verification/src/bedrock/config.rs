//! Configuration of the client and of single generation requests, with the
//! ranges that every numeric option has to lie in.

use vstd::prelude::*;
use vstd::string::*;
use crate::bedrock::error::BedrockError;

verus! {

/// Configuration for the Bedrock client. The retry multiplier is in
/// thousandths, so `2000` stands for a factor of two.
#[derive(Debug)]
pub struct BedrockConfig {
    /// AWS region
    pub region: String,
    /// Number of clients in the connection pool
    pub pool_size: usize,
    /// Request timeout in seconds
    pub timeout_seconds: u64,
    /// Initial retry interval in milliseconds
    pub retry_initial_interval_ms: u64,
    /// Maximum retry interval in seconds
    pub retry_max_interval_seconds: u64,
    /// Maximum total retry time in seconds
    pub retry_max_elapsed_seconds: u64,
    /// Retry backoff multiplier, in thousandths
    pub retry_multiplier_permille: u64,
    /// Maximum concurrent requests per client
    pub max_concurrent_requests: usize,
    /// Enable detailed metrics collection
    pub enable_metrics: bool,
    /// Enable request/response logging
    pub enable_logging: bool,
}

/// The numeric options of a configuration, in the order in which they are checked.
#[derive(Debug, Clone, Copy, PartialEq, Eq, Structural)]
pub enum ConfigField {
    /// `pool_size`, from 1 to 100
    PoolSize,
    /// `timeout_seconds`, from 1 to 300
    TimeoutSeconds,
    /// `retry_initial_interval_ms`, from 100 to 10000
    RetryInitialIntervalMs,
    /// `retry_max_interval_seconds`, from 1 to 60
    RetryMaxIntervalSeconds,
    /// `retry_max_elapsed_seconds`, from 10 to 300
    RetryMaxElapsedSeconds,
    /// `retry_multiplier_permille`, from 1000 to 5000
    RetryMultiplier,
    /// `max_concurrent_requests`, from 1 to 1000
    MaxConcurrentRequests,
}

impl ConfigField {
    /// The option's name.
    pub open spec fn name(self) -> Seq<char> {
        match self {
            ConfigField::PoolSize => "pool_size"@,
            ConfigField::TimeoutSeconds => "timeout_seconds"@,
            ConfigField::RetryInitialIntervalMs => "retry_initial_interval_ms"@,
            ConfigField::RetryMaxIntervalSeconds => "retry_max_interval_seconds"@,
            ConfigField::RetryMaxElapsedSeconds => "retry_max_elapsed_seconds"@,
            ConfigField::RetryMultiplier => "retry_multiplier"@,
            ConfigField::MaxConcurrentRequests => "max_concurrent_requests"@,
        }
    }

    /// The option's name.
    pub fn as_str(&self) -> (s: &'static str)
        ensures
            s@ == self.name(),
    {
        match self {
            ConfigField::PoolSize => "pool_size",
            ConfigField::TimeoutSeconds => "timeout_seconds",
            ConfigField::RetryInitialIntervalMs => "retry_initial_interval_ms",
            ConfigField::RetryMaxIntervalSeconds => "retry_max_interval_seconds",
            ConfigField::RetryMaxElapsedSeconds => "retry_max_elapsed_seconds",
            ConfigField::RetryMultiplier => "retry_multiplier",
            ConfigField::MaxConcurrentRequests => "max_concurrent_requests",
        }
    }
}

impl BedrockConfig {
    /// The numeric options of the default configuration.
    pub open spec fn has_default_numbers(&self) -> bool {
        &&& self.pool_size == 5
        &&& self.timeout_seconds == 120
        &&& self.retry_initial_interval_ms == 500
        &&& self.retry_max_interval_seconds == 30
        &&& self.retry_max_elapsed_seconds == 300
        &&& self.retry_multiplier_permille == 2000
        &&& self.max_concurrent_requests == 100
    }

    /// The first numeric option that lies outside its range, if any does.
    pub open spec fn first_invalid(&self) -> Option<ConfigField> {
        if !(1 <= self.pool_size <= 100) {
            Some(ConfigField::PoolSize)
        } else if !(1 <= self.timeout_seconds <= 300) {
            Some(ConfigField::TimeoutSeconds)
        } else if !(100 <= self.retry_initial_interval_ms <= 10000) {
            Some(ConfigField::RetryInitialIntervalMs)
        } else if !(1 <= self.retry_max_interval_seconds <= 60) {
            Some(ConfigField::RetryMaxIntervalSeconds)
        } else if !(10 <= self.retry_max_elapsed_seconds <= 300) {
            Some(ConfigField::RetryMaxElapsedSeconds)
        } else if !(1000 <= self.retry_multiplier_permille <= 5000) {
            Some(ConfigField::RetryMultiplier)
        } else if !(1 <= self.max_concurrent_requests <= 1000) {
            Some(ConfigField::MaxConcurrentRequests)
        } else {
            None
        }
    }

    /// Whether every numeric option lies in its range.
    pub open spec fn valid(&self) -> bool {
        self.first_invalid() is None
    }

    /// Create a new configuration with custom region
    pub fn with_region(self, region: &str) -> (c: Self)
        ensures
            c.region@ == region@,
            c == (BedrockConfig { region: c.region, ..self }),
    {
        let mut c = self;
        c.region = String::from_str(region);
        c
    }

    /// Set the connection pool size
    pub fn with_pool_size(self, size: usize) -> (c: Self)
        ensures
            c == (BedrockConfig { pool_size: size, ..self }),
    {
        let mut c = self;
        c.pool_size = size;
        c
    }

    /// Set the request timeout, in seconds
    pub fn with_timeout(self, timeout_seconds: u64) -> (c: Self)
        ensures
            c == (BedrockConfig { timeout_seconds, ..self }),
    {
        let mut c = self;
        c.timeout_seconds = timeout_seconds;
        c
    }

    /// Enable or disable metrics collection
    pub fn with_metrics(self, enable: bool) -> (c: Self)
        ensures
            c == (BedrockConfig { enable_metrics: enable, ..self }),
    {
        let mut c = self;
        c.enable_metrics = enable;
        c
    }

    /// Enable or disable request logging
    pub fn with_logging(self, enable: bool) -> (c: Self)
        ensures
            c == (BedrockConfig { enable_logging: enable, ..self }),
    {
        let mut c = self;
        c.enable_logging = enable;
        c
    }

    /// Create a high-performance configuration
    pub fn high_performance() -> (c: Self)
        ensures
            c.region@ == "us-east-1"@,
            c.pool_size == 20,
            c.max_concurrent_requests == 500,
            c.timeout_seconds == 60,
            c.retry_initial_interval_ms == 200,
            c.retry_max_interval_seconds == 10,
            c.retry_max_elapsed_seconds == 300,
            c.retry_multiplier_permille == 1500,
            c.enable_metrics && !c.enable_logging,
            c.valid(),
    {
        BedrockConfig {
            region: String::from_str("us-east-1"),
            pool_size: 20,
            timeout_seconds: 60,
            retry_initial_interval_ms: 200,
            retry_max_interval_seconds: 10,
            retry_max_elapsed_seconds: 300,
            retry_multiplier_permille: 1500,
            max_concurrent_requests: 500,
            enable_metrics: true,
            enable_logging: false,
        }
    }

    /// Create a low-latency configuration
    pub fn low_latency() -> (c: Self)
        ensures
            c.region@ == "us-east-1"@,
            c.pool_size == 10,
            c.max_concurrent_requests == 100,
            c.timeout_seconds == 30,
            c.retry_initial_interval_ms == 100,
            c.retry_max_interval_seconds == 5,
            c.retry_max_elapsed_seconds == 60,
            c.retry_multiplier_permille == 1200,
            c.enable_metrics && !c.enable_logging,
            c.valid(),
    {
        BedrockConfig {
            region: String::from_str("us-east-1"),
            pool_size: 10,
            timeout_seconds: 30,
            retry_initial_interval_ms: 100,
            retry_max_interval_seconds: 5,
            retry_max_elapsed_seconds: 60,
            retry_multiplier_permille: 1200,
            max_concurrent_requests: 100,
            enable_metrics: true,
            enable_logging: false,
        }
    }

    /// Create a conservative configuration for low-volume usage. Its retry
    /// budget of ten minutes lies outside the accepted range, so it does not
    /// pass validation as it stands.
    pub fn conservative() -> (c: Self)
        ensures
            c.region@ == "us-east-1"@,
            c.pool_size == 2,
            c.max_concurrent_requests == 10,
            c.timeout_seconds == 180,
            c.retry_initial_interval_ms == 1000,
            c.retry_max_interval_seconds == 60,
            c.retry_max_elapsed_seconds == 600,
            c.retry_multiplier_permille == 3000,
            c.enable_metrics && !c.enable_logging,
            c.first_invalid() == Some(ConfigField::RetryMaxElapsedSeconds),
    {
        BedrockConfig {
            region: String::from_str("us-east-1"),
            pool_size: 2,
            timeout_seconds: 180,
            retry_initial_interval_ms: 1000,
            retry_max_interval_seconds: 60,
            retry_max_elapsed_seconds: 600,
            retry_multiplier_permille: 3000,
            max_concurrent_requests: 10,
            enable_metrics: true,
            enable_logging: false,
        }
    }

    /// The first numeric option that lies outside its range, if any does.
    pub fn find_invalid(&self) -> (f: Option<ConfigField>)
        ensures
            f == self.first_invalid(),
    {
        if !(1 <= self.pool_size && self.pool_size <= 100) {
            Some(ConfigField::PoolSize)
        } else if !(1 <= self.timeout_seconds && self.timeout_seconds <= 300) {
            Some(ConfigField::TimeoutSeconds)
        } else if !(100 <= self.retry_initial_interval_ms && self.retry_initial_interval_ms
            <= 10000) {
            Some(ConfigField::RetryInitialIntervalMs)
        } else if !(1 <= self.retry_max_interval_seconds && self.retry_max_interval_seconds <= 60) {
            Some(ConfigField::RetryMaxIntervalSeconds)
        } else if !(10 <= self.retry_max_elapsed_seconds && self.retry_max_elapsed_seconds
            <= 300) {
            Some(ConfigField::RetryMaxElapsedSeconds)
        } else if !(1000 <= self.retry_multiplier_permille && self.retry_multiplier_permille
            <= 5000) {
            Some(ConfigField::RetryMultiplier)
        } else if !(1 <= self.max_concurrent_requests && self.max_concurrent_requests <= 1000) {
            Some(ConfigField::MaxConcurrentRequests)
        } else {
            None
        }
    }

    /// Validate the configuration: every numeric option must lie in its range.
    /// The error names the first option that does not.
    pub fn validate(&self) -> (r: Result<(), BedrockError>)
        ensures
            r is Ok <==> self.valid(),
            r matches Err(e) ==> e is Configuration && self.first_invalid() is Some
                && e.spec_detail() == self.first_invalid()->0.name() + " is out of range"@,
    {
        match self.find_invalid() {
            None => Ok(()),
            Some(field) => {
                let mut msg = String::from_str(field.as_str());
                msg.append(" is out of range");
                Err(BedrockError::Configuration(msg))
            },
        }
    }
}

impl Default for BedrockConfig {
    fn default() -> (c: Self)
        ensures
            c.region@ == "us-east-1"@,
            c.has_default_numbers(),
            c.enable_metrics && !c.enable_logging,
            c.valid(),
    {
        BedrockConfig {
            region: String::from_str("us-east-1"),
            pool_size: 5,
            timeout_seconds: 120,
            retry_initial_interval_ms: 500,
            retry_max_interval_seconds: 30,
            retry_max_elapsed_seconds: 300,
            retry_multiplier_permille: 2000,
            max_concurrent_requests: 100,
            enable_metrics: true,
            enable_logging: false,
        }
    }
}

impl Clone for BedrockConfig {
    fn clone(&self) -> (c: Self)
        ensures
            c == *self,
    {
        BedrockConfig {
            region: self.region.clone(),
            pool_size: self.pool_size,
            timeout_seconds: self.timeout_seconds,
            retry_initial_interval_ms: self.retry_initial_interval_ms,
            retry_max_interval_seconds: self.retry_max_interval_seconds,
            retry_max_elapsed_seconds: self.retry_max_elapsed_seconds,
            retry_multiplier_permille: self.retry_multiplier_permille,
            max_concurrent_requests: self.max_concurrent_requests,
            enable_metrics: self.enable_metrics,
            enable_logging: self.enable_logging,
        }
    }
}

/// Generation configuration for inference requests. Temperature and top-p are
/// in thousandths, so `700` stands for 0.7.
#[derive(Debug, Clone)]
pub struct GenerationConfig {
    /// Maximum number of tokens to generate
    pub max_tokens: Option<usize>,
    /// Temperature for randomness, in thousandths (0 to 1000)
    pub temperature_permille: Option<u32>,
    /// Top-p for nucleus sampling, in thousandths
    pub top_p_permille: Option<u32>,
    /// System prompt
    pub system_prompt: Option<String>,
}

impl GenerationConfig {
    /// Create a configuration optimized for code generation
    pub fn code_generation() -> (c: Self)
        ensures
            c.max_tokens == Some(8192usize),
            c.temperature_permille == Some(100u32),
            c.top_p_permille == Some(950u32),
            c.system_prompt is Some && c.system_prompt->0@ == "You are an expert programmer. Provide clean, efficient, and well-documented code."@,
    {
        GenerationConfig {
            max_tokens: Some(8192),
            temperature_permille: Some(100),
            top_p_permille: Some(950),
            system_prompt: Some(
                String::from_str(
                    "You are an expert programmer. Provide clean, efficient, and well-documented code.",
                ),
            ),
        }
    }

    /// Create a configuration optimized for creative writing
    pub fn creative_writing() -> (c: Self)
        ensures
            c.max_tokens == Some(4096usize),
            c.temperature_permille == Some(900u32),
            c.top_p_permille == Some(900u32),
            c.system_prompt is Some && c.system_prompt->0@ == "You are a creative writer. Be imaginative and engaging."@,
    {
        GenerationConfig {
            max_tokens: Some(4096),
            temperature_permille: Some(900),
            top_p_permille: Some(900),
            system_prompt: Some(
                String::from_str("You are a creative writer. Be imaginative and engaging."),
            ),
        }
    }

    /// Create a configuration optimized for analysis tasks
    pub fn analysis() -> (c: Self)
        ensures
            c.max_tokens == Some(4096usize),
            c.temperature_permille == Some(300u32),
            c.top_p_permille == Some(950u32),
            c.system_prompt is Some && c.system_prompt->0@ == "You are an expert analyst. Provide thorough, objective analysis."@,
    {
        GenerationConfig {
            max_tokens: Some(4096),
            temperature_permille: Some(300),
            top_p_permille: Some(950),
            system_prompt: Some(
                String::from_str("You are an expert analyst. Provide thorough, objective analysis."),
            ),
        }
    }

    /// Create a deterministic configuration (temperature = 0)
    pub fn deterministic() -> (c: Self)
        ensures
            c.max_tokens == Some(4096usize),
            c.temperature_permille == Some(0u32),
            c.top_p_permille == Some(1000u32),
            c.system_prompt is None,
    {
        GenerationConfig {
            max_tokens: Some(4096),
            temperature_permille: Some(0),
            top_p_permille: Some(1000),
            system_prompt: None,
        }
    }
}

impl Default for GenerationConfig {
    fn default() -> (c: Self)
        ensures
            c.max_tokens == Some(4096usize),
            c.temperature_permille == Some(700u32),
            c.top_p_permille == Some(900u32),
            c.system_prompt is None,
    {
        GenerationConfig {
            max_tokens: Some(4096),
            temperature_permille: Some(700),
            top_p_permille: Some(900),
            system_prompt: None,
        }
    }
}

} // verus!
