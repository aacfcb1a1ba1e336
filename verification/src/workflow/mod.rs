//! Workflow definitions and the machinery around them.
pub mod codegen;
pub mod compensation;
pub mod compiler;
pub mod engine;
pub mod error;
pub mod event_trigger;
pub mod execution;
pub mod generator;
pub mod llm_decision;
pub mod model;
pub mod persist;
pub mod schedule;
pub mod templates;
pub mod triggers;
pub mod versioning;

use vstd::prelude::*;

verus! {

/// The version of the workflow engine.
pub const VERSION: &'static str = "0.1.0";

} // verus!
