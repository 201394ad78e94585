//! A server process that a client starts and talks to over its stdin and
//! stdout.
use vstd::prelude::*;
use crate::text::{append_str, from_chars};

verus! {

/// The command that starts an MCP server process, with its arguments.
#[derive(Debug, Clone)]
pub struct McpServer {
    pub command: String,
    pub args: Vec<String>,
}

/// The bytes written to the server's stdin for an outgoing message: nothing
/// for an empty message, else the message and a newline.
pub fn stdin_frame(message: &str) -> (r: Option<String>)
    ensures
        message@.len() == 0 ==> r is None,
        message@.len() > 0 ==> (r matches Some(s) && s@ == message@.push('\n')),
{
    let mut out: Vec<char> = Vec::new();
    append_str(&mut out, message);
    if out.len() == 0 {
        None
    } else {
        out.push('\n');
        Some(from_chars(&out))
    }
}

} // verus!
