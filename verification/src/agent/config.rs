//! Agent configuration.
use crate::ids::{is_v4_uuid_text, new_uuid_v4_string};
use vstd::prelude::*;

verus! {

/// Who the agent is, where it reports, and how much.
#[derive(Debug, PartialEq)]
pub struct AgentConfig {
    /// Unique agent identifier
    pub agent_id: String,
    /// ZenMonitor server URL (e.g., "http://monitor.example.com:3000")
    pub server_url: String,
    /// API key for authentication
    pub api_key: String,
    /// Reporting interval in seconds
    pub report_interval: u64,
    /// Number of top processes to report
    pub top_processes: usize,
}

impl Default for AgentConfig {
    /// The configuration used when no file is given: a fresh random agent id,
    /// the server at `http://localhost:3000`, a report every 30 s with the
    /// top 10 processes.
    fn default() -> (c: AgentConfig)
        ensures
            is_v4_uuid_text(c.agent_id@),
            c.server_url@ == "http://localhost:3000"@,
            c.api_key@ == "change-me-in-production"@,
            c.report_interval == 30,
            c.top_processes == 10,
    {
        AgentConfig {
            agent_id: new_uuid_v4_string(),
            server_url: String::from_str("http://localhost:3000"),
            api_key: String::from_str("change-me-in-production"),
            report_interval: 30,
            top_processes: 10,
        }
    }
}

} // verus!
