//! The RAG server tool: its configuration, request schemas and tools.
pub mod config;
pub mod request_schemas;
pub mod tool;
