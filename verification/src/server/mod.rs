//! The server side: monitors, check verdicts, the API's answers and configuration.
pub mod api;
pub mod config;
pub mod models;
pub mod monitors;
pub mod ssl;
