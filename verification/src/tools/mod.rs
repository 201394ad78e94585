//! Tools a server offers: an echo, a key-value memory and a random number
//! generator, and the errors calling a tool can raise.
use vstd::prelude::*;
use crate::text::{append_str, from_chars};

pub mod echo;
pub mod memory;
pub mod random;

verus! {

/// Errors that can occur during tool operations.
#[derive(Debug, Clone, PartialEq, Eq)]
pub enum ToolError {
    /// The arguments did not parse.
    ArgumentParse(String),
    /// The tool failed.
    Execution(String),
    /// The result did not serialize.
    ResultSerialize(String),
    /// Another failure.
    Custom(String),
}

impl ToolError {
    /// The error's message.
    pub fn to_string(&self) -> (s: String)
        ensures
            match self {
                ToolError::ArgumentParse(m) => s@ == "Failed to parse tool arguments: "@ + m@,
                ToolError::Execution(m) => s@ == "Tool execution failed: "@ + m@,
                ToolError::ResultSerialize(m) => s@ == "Failed to serialize tool result: "@ + m@,
                ToolError::Custom(m) => s@ == "Custom error: "@ + m@,
            },
    {
        let mut out: Vec<char> = Vec::new();
        match self {
            ToolError::ArgumentParse(m) => {
                append_str(&mut out, "Failed to parse tool arguments: ");
                append_str(&mut out, m.as_str());
            },
            ToolError::Execution(m) => {
                append_str(&mut out, "Tool execution failed: ");
                append_str(&mut out, m.as_str());
            },
            ToolError::ResultSerialize(m) => {
                append_str(&mut out, "Failed to serialize tool result: ");
                append_str(&mut out, m.as_str());
            },
            ToolError::Custom(m) => {
                append_str(&mut out, "Custom error: ");
                append_str(&mut out, m.as_str());
            },
        }
        from_chars(&out)
    }
}

} // verus!
