//! ZenMonitor: the verified core of an infrastructure monitoring server and
//! its metrics agent.
//!
//! - `agent`: the agent's configuration, the reading of `/proc/meminfo`, and
//!   what the agent reports of the host.
//! - `server`: the data model, configuration, the API's answers, the
//!   background probes' choices and verdicts, and certificate inspection.
//! - `text`: character-level parsing and formatting shared by both.
//! - `ids`: fresh random identifiers.
pub mod agent;
pub mod ids;
pub mod server;
pub mod text;
