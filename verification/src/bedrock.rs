//! The resilience core around the inference service.

pub mod client;
pub mod config;
pub mod error;
pub mod executor;
pub mod message;
pub mod metrics;
pub mod model;
pub mod pool;
pub mod retry;
pub mod streaming;
