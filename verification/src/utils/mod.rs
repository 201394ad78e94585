//! Utilities around a connection: its health monitor.
pub mod ping;
