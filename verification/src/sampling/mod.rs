//! Sampling: a server asks the client's model to write a message.
use vstd::prelude::*;
use crate::text::{append_str, from_chars};

pub mod chat;

verus! {

/// Errors that can occur during sampling operations.
#[derive(Debug, Clone, PartialEq, Eq)]
pub enum SamplingError {
    /// The request's parameters did not parse.
    ParameterParse(String),
    /// Sampling failed.
    Execution(String),
    /// The result did not serialize.
    ResultSerialize(String),
    /// Another failure.
    Custom(String),
}

impl SamplingError {
    /// The error's message.
    pub fn to_string(&self) -> (s: String)
        ensures
            match self {
                SamplingError::ParameterParse(m) => s@ == "Failed to parse sampling parameters: "@ + m@,
                SamplingError::Execution(m) => s@ == "Sampling failed: "@ + m@,
                SamplingError::ResultSerialize(m) => s@ == "Failed to serialize sampling result: "@ + m@,
                SamplingError::Custom(m) => s@ == "Custom error: "@ + m@,
            },
    {
        let mut out: Vec<char> = Vec::new();
        match self {
            SamplingError::ParameterParse(m) => {
                append_str(&mut out, "Failed to parse sampling parameters: ");
                append_str(&mut out, m.as_str());
            },
            SamplingError::Execution(m) => {
                append_str(&mut out, "Sampling failed: ");
                append_str(&mut out, m.as_str());
            },
            SamplingError::ResultSerialize(m) => {
                append_str(&mut out, "Failed to serialize sampling result: ");
                append_str(&mut out, m.as_str());
            },
            SamplingError::Custom(m) => {
                append_str(&mut out, "Custom error: ");
                append_str(&mut out, m.as_str());
            },
        }
        from_chars(&out)
    }
}

} // verus!
