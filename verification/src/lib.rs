//! Model Context Protocol building blocks: message framing for the SSE and
//! WebSocket transports, the request dispatcher of an MCP server, request
//! correlation for an MCP client, resource subscriptions, the built-in tools,
//! prompts and resources, the pure parts of the cognition RAG server, and
//! the frame cutting of the ffmpeg agent tool.
use vstd::prelude::*;

pub mod text;
pub mod client;
pub mod client_id;
pub mod cognition;
pub mod discord;
pub mod ffmpeg;
pub mod json;
pub mod json_schema;
pub mod load_test;
pub mod prompts;
pub mod rag_server;
pub mod registry;
pub mod resources;
pub mod roots;
pub mod sampling;
pub mod schema;
pub mod server;
pub mod tools;
pub mod transport;
pub mod utils;

verus! {

} // verus!
