use crate::tool::Tool;
use vstd::prelude::*;

verus! {

/// Why a step of the pipeline failed.
#[derive(Debug, Clone, PartialEq, Eq)]
pub enum Error {
    /// Opening, reading, writing or renaming `path` failed.
    Io { path: String, detail: String },
    /// The executable of `tool` is absent from the component directory.
    ToolNotFound { tool: Tool },
    /// `tool` ran and did not report success.
    ToolFailed { tool: Tool, exit_code: Option<i32>, stdout: Vec<u8>, stderr: Vec<u8> },
    /// The partition at `index` could not be entered into the table.
    Partition { index: usize, name: String, detail: String },
}

} // verus!
