//! Configuration of the bot, with a builder and the ranges that its options
//! have to lie in. Temperatures are in thousandths, durations in milliseconds.

use vstd::prelude::*;
use vstd::string::*;
use crate::framework::error::Error;
use crate::text::str_eq;

verus! {

/// Storage backend for context persistence
#[derive(Debug, Clone)]
pub enum StorageBackend {
    /// In-memory storage (default)
    Memory,
    /// Redis storage
    Redis {
        /// Redis connection URL
        url: String,
    },
    /// PostgreSQL storage
    Postgres {
        /// PostgreSQL connection URL
        url: String,
    },
    /// SQLite storage
    Sqlite {
        /// SQLite database file path
        path: String,
    },
}

/// Configuration for context management
#[derive(Debug, Clone)]
pub struct ContextConfig {
    /// Maximum context size in tokens
    pub max_context_tokens: usize,
    /// Context TTL in milliseconds
    pub context_ttl_ms: u64,
    /// Enable context persistence
    pub persist_context: bool,
    /// Context storage backend
    pub storage_backend: StorageBackend,
}

impl ContextConfig {
    /// Whether the context size lies in its range, from a hundred to a
    /// hundred thousand tokens.
    pub open spec fn valid(&self) -> bool {
        100 <= self.max_context_tokens <= 100_000
    }

    /// Validate the configuration
    pub fn validate(&self) -> (r: Result<(), Error>)
        ensures
            r is Ok <==> self.valid(),
            r matches Err(e) ==> e is Validation,
    {
        if self.max_context_tokens < 100 || self.max_context_tokens > 100_000 {
            Err(Error::Validation(String::from_str("max_context_tokens: out of range")))
        } else {
            Ok(())
        }
    }
}

impl Default for ContextConfig {
    fn default() -> (c: Self)
        ensures
            c.max_context_tokens == 4096,
            c.context_ttl_ms == 3_600_000,
            !c.persist_context,
            c.storage_backend is Memory,
            c.valid(),
    {
        ContextConfig {
            max_context_tokens: 4096,
            context_ttl_ms: 3_600_000,
            persist_context: false,
            storage_backend: StorageBackend::Memory,
        }
    }
}

/// Configuration for the message pipeline
#[derive(Debug, Clone)]
pub struct PipelineConfig {
    /// Enable message sanitization
    pub enable_sanitization: bool,
    /// Enable message enrichment
    pub enable_enrichment: bool,
    /// Maximum pipeline processing time in milliseconds
    pub max_processing_time_ms: u64,
    /// Pipeline stages to enable
    pub enabled_stages: Vec<String>,
}

impl PipelineConfig {
    /// The stages of the default pipeline, in order.
    pub open spec fn default_stages() -> Seq<Seq<char>> {
        seq!["sanitize"@, "enrich"@, "route"@, "process"@, "format"@]
    }
}

impl Default for PipelineConfig {
    fn default() -> (c: Self)
        ensures
            c.enable_sanitization,
            c.enable_enrichment,
            c.max_processing_time_ms == 10_000,
            c.enabled_stages@.len() == 5,
            forall|i: int|
                0 <= i < 5 ==> (#[trigger] c.enabled_stages@[i])@ == PipelineConfig::default_stages()[i],
    {
        let mut stages: Vec<String> = Vec::new();
        stages.push(String::from_str("sanitize"));
        stages.push(String::from_str("enrich"));
        stages.push(String::from_str("route"));
        stages.push(String::from_str("process"));
        stages.push(String::from_str("format"));
        PipelineConfig {
            enable_sanitization: true,
            enable_enrichment: true,
            max_processing_time_ms: 10_000,
            enabled_stages: stages,
        }
    }
}

/// Configuration for plugins
#[derive(Debug, Clone)]
pub struct PluginConfig {
    /// Enable plugin system
    pub enable_plugins: bool,
    /// Plugin directories to scan
    pub plugin_dirs: Vec<String>,
    /// Plugins to auto-load
    pub auto_load: Vec<String>,
    /// Plugin timeout in milliseconds
    pub plugin_timeout_ms: u64,
}

impl Default for PluginConfig {
    fn default() -> (c: Self)
        ensures
            c.enable_plugins,
            c.plugin_dirs@.len() == 1,
            c.plugin_dirs@[0]@ == "plugins"@,
            c.auto_load@.len() == 0,
            c.plugin_timeout_ms == 5000,
    {
        let mut dirs: Vec<String> = Vec::new();
        dirs.push(String::from_str("plugins"));
        PluginConfig {
            enable_plugins: true,
            plugin_dirs: dirs,
            auto_load: Vec::new(),
            plugin_timeout_ms: 5000,
        }
    }
}

/// Whether one of the listed models is the given one.
pub open spec fn is_listed(model: Seq<char>, allowed: Seq<String>) -> bool {
    exists|i: int| 0 <= i < allowed.len() && (#[trigger] allowed[i])@ == model
}

/// Validate model name against the models that the deployment allows
pub fn validate_model(model: &str, allowed: &Vec<String>) -> (r: Result<(), Error>)
    ensures
        r is Ok <==> is_listed(model@, allowed@),
        r matches Err(e) ==> e is Validation && e.spec_detail() == Some("model: invalid_model"@),
{
    let mut i: usize = 0;
    while i < allowed.len()
        invariant
            i <= allowed.len(),
            forall|j: int| 0 <= j < i ==> (#[trigger] allowed@[j])@ != model@,
        decreases allowed.len() - i,
    {
        if str_eq(allowed[i].as_str(), model) {
            return Ok(());
        }
        i = i + 1;
    }
    Err(Error::Validation(String::from_str("model: invalid_model")))
}

/// Main bot configuration
#[derive(Debug, Clone)]
pub struct BotConfig {
    /// AI model to use for generation
    pub model: String,
    /// Temperature for generation, in thousandths (0 to 1000)
    pub temperature_permille: u32,
    /// Maximum tokens to generate
    pub max_tokens: usize,
    /// Request timeout in milliseconds
    pub timeout_ms: u64,
    /// Number of retries for failed requests
    pub max_retries: u32,
    /// Enable request logging
    pub enable_logging: bool,
    /// Enable cost tracking
    pub enable_cost_tracking: bool,
    /// Context configuration
    pub context_config: ContextConfig,
    /// Pipeline configuration
    pub pipeline_config: PipelineConfig,
    /// Plugin configuration
    pub plugin_config: PluginConfig,
}

impl BotConfig {
    /// Whether the numeric options lie in their ranges: the temperature
    /// between zero and one, the tokens between one and a hundred thousand,
    /// the retries not above ten.
    pub open spec fn numbers_valid(&self) -> bool {
        &&& self.temperature_permille <= 1000
        &&& 1 <= self.max_tokens <= 100_000
        &&& self.max_retries <= 10
    }

    /// Whether the configuration is valid for a deployment that allows the
    /// given models.
    pub open spec fn valid(&self, allowed: Seq<String>) -> bool {
        is_listed(self.model@, allowed) && self.numbers_valid()
    }

    /// Create a new configuration builder
    pub fn builder() -> (b: BotConfigBuilder)
        ensures
            b.model is None,
            b.temperature_permille is None,
            b.max_tokens is None,
            b.timeout_ms is None,
            b.max_retries is None,
            b.enable_logging is None,
            b.enable_cost_tracking is None,
            b.context_config is None,
            b.pipeline_config is None,
            b.plugin_config is None,
    {
        BotConfigBuilder {
            model: None,
            temperature_permille: None,
            max_tokens: None,
            timeout_ms: None,
            max_retries: None,
            enable_logging: None,
            enable_cost_tracking: None,
            context_config: None,
            pipeline_config: None,
            plugin_config: None,
        }
    }

    /// The default configuration for the given model.
    pub fn for_model(model: &str) -> (c: Self)
        ensures
            c.model@ == model@,
            c.temperature_permille == 100,
            c.max_tokens == 2048,
            c.timeout_ms == 30_000,
            c.max_retries == 3,
            c.enable_logging,
            c.enable_cost_tracking,
            c.numbers_valid(),
            c.context_config.valid(),
            c.pipeline_config.enabled_stages@.len() == 5,
            forall|i: int|
                0 <= i < 5 ==> (#[trigger] c.pipeline_config.enabled_stages@[i])@
                    == PipelineConfig::default_stages()[i],
    {
        BotConfig {
            model: String::from_str(model),
            temperature_permille: 100,
            max_tokens: 2048,
            timeout_ms: 30_000,
            max_retries: 3,
            enable_logging: true,
            enable_cost_tracking: true,
            context_config: ContextConfig::default(),
            pipeline_config: PipelineConfig::default(),
            plugin_config: PluginConfig::default(),
        }
    }

    /// Validate the configuration for a deployment that allows the given models
    pub fn validate(&self, allowed: &Vec<String>) -> (r: Result<(), Error>)
        ensures
            r is Ok <==> self.valid(allowed@),
            r matches Err(e) ==> e is Validation,
    {
        match validate_model(self.model.as_str(), allowed) {
            Err(e) => {
                return Err(e);
            },
            Ok(()) => {},
        }
        if self.temperature_permille > 1000 {
            return Err(Error::Validation(String::from_str("temperature: out of range")));
        }
        if self.max_tokens < 1 || self.max_tokens > 100_000 {
            return Err(Error::Validation(String::from_str("max_tokens: out of range")));
        }
        if self.max_retries > 10 {
            return Err(Error::Validation(String::from_str("max_retries: out of range")));
        }
        Ok(())
    }
}

/// Builder for `BotConfig`
#[derive(Debug)]
pub struct BotConfigBuilder {
    /// The model, once set
    pub model: Option<String>,
    /// The temperature in thousandths, once set
    pub temperature_permille: Option<u32>,
    /// The maximum tokens, once set
    pub max_tokens: Option<usize>,
    /// The timeout in milliseconds, once set
    pub timeout_ms: Option<u64>,
    /// The maximum retries, once set
    pub max_retries: Option<u32>,
    /// Whether to log, once set
    pub enable_logging: Option<bool>,
    /// Whether to track cost, once set
    pub enable_cost_tracking: Option<bool>,
    /// The context configuration, once set
    pub context_config: Option<ContextConfig>,
    /// The pipeline configuration, once set
    pub pipeline_config: Option<PipelineConfig>,
    /// The plugin configuration, once set
    pub plugin_config: Option<PluginConfig>,
}

impl BotConfigBuilder {
    /// Set the AI model
    pub fn model(self, model: &str) -> (b: Self)
        ensures
            b.model is Some,
            b.model->0@ == model@,
            b == (BotConfigBuilder { model: b.model, ..self }),
    {
        let mut b = self;
        b.model = Some(String::from_str(model));
        b
    }

    /// Set the temperature, in thousandths
    pub fn temperature(self, temperature_permille: u32) -> (b: Self)
        ensures
            b == (BotConfigBuilder { temperature_permille: Some(temperature_permille), ..self }),
    {
        let mut b = self;
        b.temperature_permille = Some(temperature_permille);
        b
    }

    /// Set the maximum tokens
    pub fn max_tokens(self, max_tokens: usize) -> (b: Self)
        ensures
            b == (BotConfigBuilder { max_tokens: Some(max_tokens), ..self }),
    {
        let mut b = self;
        b.max_tokens = Some(max_tokens);
        b
    }

    /// Set the timeout, in milliseconds
    pub fn timeout(self, timeout_ms: u64) -> (b: Self)
        ensures
            b == (BotConfigBuilder { timeout_ms: Some(timeout_ms), ..self }),
    {
        let mut b = self;
        b.timeout_ms = Some(timeout_ms);
        b
    }

    /// Set the maximum retries
    pub fn max_retries(self, max_retries: u32) -> (b: Self)
        ensures
            b == (BotConfigBuilder { max_retries: Some(max_retries), ..self }),
    {
        let mut b = self;
        b.max_retries = Some(max_retries);
        b
    }

    /// Enable or disable logging
    pub fn enable_logging(self, enable: bool) -> (b: Self)
        ensures
            b == (BotConfigBuilder { enable_logging: Some(enable), ..self }),
    {
        let mut b = self;
        b.enable_logging = Some(enable);
        b
    }

    /// Enable or disable cost tracking
    pub fn enable_cost_tracking(self, enable: bool) -> (b: Self)
        ensures
            b == (BotConfigBuilder { enable_cost_tracking: Some(enable), ..self }),
    {
        let mut b = self;
        b.enable_cost_tracking = Some(enable);
        b
    }

    /// Set the context configuration
    pub fn context_config(self, config: ContextConfig) -> (b: Self)
        ensures
            b == (BotConfigBuilder { context_config: Some(config), ..self }),
    {
        let mut b = self;
        b.context_config = Some(config);
        b
    }

    /// Set the pipeline configuration
    pub fn pipeline_config(self, config: PipelineConfig) -> (b: Self)
        ensures
            b == (BotConfigBuilder { pipeline_config: Some(config), ..self }),
    {
        let mut b = self;
        b.pipeline_config = Some(config);
        b
    }

    /// Set the plugin configuration
    pub fn plugin_config(self, config: PluginConfig) -> (b: Self)
        ensures
            b == (BotConfigBuilder { plugin_config: Some(config), ..self }),
    {
        let mut b = self;
        b.plugin_config = Some(config);
        b
    }

    /// Build the configuration for a deployment that allows the given models.
    /// A builder without a model is refused, and so is a configuration that
    /// does not pass validation; options that were not set take their defaults.
    pub fn build(self, allowed: &Vec<String>) -> (r: Result<BotConfig, Error>)
        ensures
            r matches Ok(c) ==> {
                &&& self.model == Some(c.model)
                &&& c.valid(allowed@)
                &&& c.temperature_permille == match self.temperature_permille {
                    Some(t) => t,
                    None => 100,
                }
                &&& c.max_tokens == match self.max_tokens {
                    Some(t) => t,
                    None => 2048,
                }
                &&& c.timeout_ms == match self.timeout_ms {
                    Some(t) => t,
                    None => 30_000,
                }
                &&& c.max_retries == match self.max_retries {
                    Some(t) => t,
                    None => 3,
                }
                &&& c.enable_logging == match self.enable_logging {
                    Some(t) => t,
                    None => true,
                }
                &&& c.enable_cost_tracking == match self.enable_cost_tracking {
                    Some(t) => t,
                    None => true,
                }
            },
            r is Ok <==> self.model is Some && is_listed(self.model->0@, allowed@) && (match self.temperature_permille {
                Some(t) => t <= 1000,
                None => true,
            }) && (match self.max_tokens {
                Some(t) => 1 <= t <= 100_000,
                None => true,
            }) && (match self.max_retries {
                Some(t) => t <= 10,
                None => true,
            }),
            self.model is None ==> (r matches Err(e) && e is Other && e.spec_detail() == Some(
                "model is required"@,
            )),
            self.model is Some ==> (r matches Err(e) ==> e is Validation),
    {
        let model = match self.model {
            Some(m) => m,
            None => {
                return Err(Error::new("model is required"));
            },
        };
        let config = BotConfig {
            model,
            temperature_permille: match self.temperature_permille {
                Some(t) => t,
                None => 100,
            },
            max_tokens: match self.max_tokens {
                Some(t) => t,
                None => 2048,
            },
            timeout_ms: match self.timeout_ms {
                Some(t) => t,
                None => 30_000,
            },
            max_retries: match self.max_retries {
                Some(t) => t,
                None => 3,
            },
            enable_logging: match self.enable_logging {
                Some(t) => t,
                None => true,
            },
            enable_cost_tracking: match self.enable_cost_tracking {
                Some(t) => t,
                None => true,
            },
            context_config: match self.context_config {
                Some(c) => c,
                None => ContextConfig::default(),
            },
            pipeline_config: match self.pipeline_config {
                Some(c) => c,
                None => PipelineConfig::default(),
            },
            plugin_config: match self.plugin_config {
                Some(c) => c,
                None => PluginConfig::default(),
            },
        };
        match config.validate(allowed) {
            Ok(()) => Ok(config),
            Err(e) => Err(e),
        }
    }
}

impl Default for BotConfigBuilder {
    fn default() -> (b: Self)
        ensures
            b.model is None,
            b.temperature_permille is None,
            b.max_tokens is None,
    {
        BotConfig::builder()
    }
}

} // verus!
