//! The agent side: what it reads from the host and reports to the server.
pub mod collectors;
pub mod config;
pub mod memory;
