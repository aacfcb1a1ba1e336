//! Verified core of the NeoTalk edge automation platform: workflow versioning,
//! templates, triggers, execution tracking and compensation, code generation
//! for WebAssembly steps, and the tool catalogue that language models call.
pub mod text;
pub mod strmap;
pub mod table;
pub mod json;
pub mod json_write;
pub mod clock;
pub mod ids;
pub mod tools;
pub mod workflow;
pub mod sort;
