//! The cognition server: its configuration, its request schemas, the
//! building of conversations, the health of its services, uploads and
//! embeddings, and the conversion of tool schemas.
pub mod api_schema;
pub mod chat_tools;
pub mod config;
pub mod conversation;
pub mod health_check;
pub mod request_schemas;
pub mod tool_schema;
pub mod upload;
