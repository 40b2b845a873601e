//! The bot framework around the inference client: messages, configuration,
//! conversation context, the processing pipeline and plugins.

pub mod bot;
pub mod config;
pub mod context;
pub mod error;
pub mod message;
pub mod pipeline;
pub mod plugin;
