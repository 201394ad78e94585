//! Prompts a server offers, and the errors getting one can raise.
use vstd::prelude::*;
use crate::text::{append_str, from_chars};

pub mod greet;

verus! {

/// Errors that can occur during prompt operations.
#[derive(Debug, Clone, PartialEq, Eq)]
pub enum PromptError {
    /// The arguments did not parse.
    ArgumentParse(String),
    /// The prompt failed.
    Execution(String),
    /// The result did not serialize.
    ResultSerialize(String),
    /// Another failure.
    Custom(String),
}

impl PromptError {
    /// The error's message.
    pub fn to_string(&self) -> (s: String)
        ensures
            match self {
                PromptError::ArgumentParse(m) => s@ == "Failed to parse prompt arguments: "@ + m@,
                PromptError::Execution(m) => s@ == "Prompt execution failed: "@ + m@,
                PromptError::ResultSerialize(m) => s@ == "Failed to serialize prompt result: "@ + m@,
                PromptError::Custom(m) => s@ == "Custom error: "@ + m@,
            },
    {
        let mut out: Vec<char> = Vec::new();
        match self {
            PromptError::ArgumentParse(m) => {
                append_str(&mut out, "Failed to parse prompt arguments: ");
                append_str(&mut out, m.as_str());
            },
            PromptError::Execution(m) => {
                append_str(&mut out, "Prompt execution failed: ");
                append_str(&mut out, m.as_str());
            },
            PromptError::ResultSerialize(m) => {
                append_str(&mut out, "Failed to serialize prompt result: ");
                append_str(&mut out, m.as_str());
            },
            PromptError::Custom(m) => {
                append_str(&mut out, "Custom error: ");
                append_str(&mut out, m.as_str());
            },
        }
        from_chars(&out)
    }
}

} // verus!
