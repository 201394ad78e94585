//! Roots a client exposes, and the errors listing them can raise.
use vstd::prelude::*;
use crate::text::{append_str, from_chars};

pub mod readme;

verus! {

/// Errors that can occur during roots operations.
#[derive(Debug, Clone, PartialEq, Eq)]
pub enum RootsError {
    /// The parameters did not parse.
    ParameterParse(String),
    /// The operation failed.
    Execution(String),
    /// The result did not serialize.
    ResultSerialize(String),
    /// Access was refused.
    AccessError(String),
    /// Another failure.
    Custom(String),
}

impl RootsError {
    /// The error's message.
    pub fn to_string(&self) -> (s: String)
        ensures
            match self {
                RootsError::ParameterParse(m) => s@ == "Failed to parse roots parameters: "@ + m@,
                RootsError::Execution(m) => s@ == "Roots operation failed: "@ + m@,
                RootsError::ResultSerialize(m) => s@ == "Failed to serialize roots result: "@ + m@,
                RootsError::AccessError(m) => s@ == "Access error: "@ + m@,
                RootsError::Custom(m) => s@ == "Custom error: "@ + m@,
            },
    {
        let mut out: Vec<char> = Vec::new();
        match self {
            RootsError::ParameterParse(m) => {
                append_str(&mut out, "Failed to parse roots parameters: ");
                append_str(&mut out, m.as_str());
            },
            RootsError::Execution(m) => {
                append_str(&mut out, "Roots operation failed: ");
                append_str(&mut out, m.as_str());
            },
            RootsError::ResultSerialize(m) => {
                append_str(&mut out, "Failed to serialize roots result: ");
                append_str(&mut out, m.as_str());
            },
            RootsError::AccessError(m) => {
                append_str(&mut out, "Access error: ");
                append_str(&mut out, m.as_str());
            },
            RootsError::Custom(m) => {
                append_str(&mut out, "Custom error: ");
                append_str(&mut out, m.as_str());
            },
        }
        from_chars(&out)
    }
}

} // verus!
