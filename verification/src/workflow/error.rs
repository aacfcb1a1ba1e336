//! Errors of the workflow engine.
use vstd::prelude::*;

verus! {

/// Errors of the workflow engine.
pub enum WorkflowError {
    /// A workflow with this id is not known.
    WorkflowNotFound(String),
    /// Running a workflow or one of its executions failed.
    ExecutionError(String),
    /// Compiling source code to WebAssembly failed.
    CompilationError(String),
    /// The WebAssembly runtime failed.
    WasmError(String),
}

impl WorkflowError {
    /// The detail text carried by the error.
    pub open spec fn detail(&self) -> Seq<char> {
        match self {
            WorkflowError::WorkflowNotFound(s) => s@,
            WorkflowError::ExecutionError(s) => s@,
            WorkflowError::CompilationError(s) => s@,
            WorkflowError::WasmError(s) => s@,
        }
    }

    /// The message of the error, as its `Display` writes it.
    pub fn message(&self) -> (m: String)
        ensures
            m@ == match self {
                WorkflowError::WorkflowNotFound(s) => "Workflow not found: "@ + s@,
                WorkflowError::ExecutionError(s) => "Execution error: "@ + s@,
                WorkflowError::CompilationError(s) => "Compilation error: "@ + s@,
                WorkflowError::WasmError(s) => "WASM error: "@ + s@,
            },
    {
        match self {
            WorkflowError::WorkflowNotFound(s) => crate::text::cat("Workflow not found: ", s.as_str()),
            WorkflowError::ExecutionError(s) => crate::text::cat("Execution error: ", s.as_str()),
            WorkflowError::CompilationError(s) => crate::text::cat("Compilation error: ", s.as_str()),
            WorkflowError::WasmError(s) => crate::text::cat("WASM error: ", s.as_str()),
        }
    }
}

} // verus!
