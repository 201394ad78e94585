//! A tool that echoes its input message.
use vstd::prelude::*;
use crate::schema::{tool_text_result, CallToolResult, Tool};
use crate::tools::ToolError;

verus! {

/// The arguments of the echo tool.
#[derive(Debug, Clone, PartialEq, Eq)]
pub struct EchoArgs {
    /// The message to echo.
    pub message: String,
}

/// Echoes back the input message.
#[derive(Debug, Clone, Copy, PartialEq, Eq)]
pub struct Echo;

impl Echo {
    /// The tool's definition, with the input schema generated for
    /// `EchoArgs`.
    pub fn def(input_schema: String) -> (t: Tool)
        ensures
            t.name@ == "echo"@,
            t.description matches Some(d) && d@ == "Echoes back the input message"@,
            t.input_schema == input_schema,
    {
        Tool {
            name: "echo".to_owned(),
            description: Some("Echoes back the input message".to_owned()),
            input_schema,
        }
    }

    /// The message, as a successful text result.
    pub fn call(&self, args: EchoArgs) -> (r: Result<CallToolResult, ToolError>)
        ensures
            r matches Ok(res) && res.content.len() == 1 && res.content@[0].text == args.message
                && res.content@[0].type_@ == "text"@ && res.is_error == Some(false),
    {
        Ok(tool_text_result(args.message, false))
    }
}

} // verus!
