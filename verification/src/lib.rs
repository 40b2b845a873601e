//! A client-side resilience layer for a managed model-inference service:
//! error classification, retry policies, circuit breaking, a bounded client
//! pool, streaming assembly and metrics, each with a machine-checked contract,
//! and the bot framework that sits on top of it.

use vstd::prelude::*;

pub mod bedrock;
pub mod framework;
pub mod json;
pub mod string_map;
pub mod system;
pub mod text;

verus! {

/// Library version
pub const VERSION: &'static str = "0.1.0";

} // verus!
