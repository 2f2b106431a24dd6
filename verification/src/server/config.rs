//! Server configuration.
use vstd::prelude::*;

verus! {

/// How the server listens, where it stores its data, how often it checks.
#[derive(Debug, PartialEq)]
pub struct ServerConfig {
    /// Address to listen on (e.g., "0.0.0.0:3000")
    pub listen_addr: String,
    /// Path to SQLite database file
    pub database_path: String,
    /// Interval in seconds for HTTP/HTTPS checks
    pub http_check_interval: u64,
    /// Interval in seconds for ping checks
    pub ping_check_interval: u64,
    /// Interval in seconds for TCP port checks
    pub tcp_check_interval: u64,
    /// Interval in seconds for SSL certificate checks
    pub ssl_check_interval: u64,
    /// HTTP request timeout in seconds
    pub http_timeout: u64,
    /// Agent API key for authentication
    pub agent_api_key: String,
}

impl Default for ServerConfig {
    /// The configuration used when no file is given: listen on `0.0.0.0:3000`,
    /// store in `zenmonitor.db`, check HTTP every 60 s, ping every 30 s,
    /// TCP every 60 s, certificates every hour, time HTTP out after 10 s.
    fn default() -> (c: ServerConfig)
        ensures
            c.listen_addr@ == "0.0.0.0:3000"@,
            c.database_path@ == "zenmonitor.db"@,
            c.http_check_interval == 60,
            c.ping_check_interval == 30,
            c.tcp_check_interval == 60,
            c.ssl_check_interval == 3600,
            c.http_timeout == 10,
            c.agent_api_key@ == "change-me-in-production"@,
    {
        ServerConfig {
            listen_addr: String::from_str("0.0.0.0:3000"),
            database_path: String::from_str("zenmonitor.db"),
            http_check_interval: 60,
            ping_check_interval: 30,
            tcp_check_interval: 60,
            ssl_check_interval: 3600,
            http_timeout: 10,
            agent_api_key: String::from_str("change-me-in-production"),
        }
    }
}

} // verus!
