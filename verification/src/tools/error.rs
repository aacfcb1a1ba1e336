//! Errors of tool calls.
use vstd::prelude::*;
use crate::text::cat;

verus! {

/// Why a tool call failed.
pub enum ToolError {
    /// No tool has the name.
    NotFound(String),
    /// The arguments do not fit the tool.
    InvalidArguments(String),
    /// The tool failed while running.
    Execution(String),
}

/// The message of an error.
pub open spec fn tool_error_message(e: ToolError) -> Seq<char> {
    match e {
        ToolError::NotFound(s) => "Tool not found: "@ + s@,
        ToolError::InvalidArguments(s) => "Invalid arguments: "@ + s@,
        ToolError::Execution(s) => "Execution failed: "@ + s@,
    }
}

impl ToolError {
    /// The message of the error.
    pub fn message(&self) -> (s: String)
        ensures
            s@ == tool_error_message(*self),
    {
        match self {
            ToolError::NotFound(s) => cat("Tool not found: ", s.as_str()),
            ToolError::InvalidArguments(s) => cat("Invalid arguments: ", s.as_str()),
            ToolError::Execution(s) => cat("Execution failed: ", s.as_str()),
        }
    }
}

} // verus!
