//! Tools that a language-model agent can call: their outputs, parameters and
//! schemas, and the descriptions handed to the model.
pub mod error;
pub mod tool;
pub mod simplified;
pub mod catalog;
pub mod builtin;
pub mod basic;
pub mod devices;
pub mod discovery;
pub mod control;
pub mod registry;
pub mod rule_context;
pub mod alerts;
pub mod config;
pub mod config_laws;
pub mod system;
pub mod workflow_status;

use vstd::prelude::*;

verus! {

/// The version of the tools.
pub const VERSION: &'static str = "0.1.0";

} // verus!
