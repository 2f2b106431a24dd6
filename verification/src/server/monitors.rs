//! The background probes: which monitors each one checks, how often, and
//! what verdict it gives on the outcome of a check.
use crate::server::config::ServerConfig;
use crate::server::models::{CheckStatus, Monitor, MonitorType, SslCertInfo};
use crate::text::{decimal, decimal_string, signed_decimal, signed_decimal_string};
use vstd::prelude::*;

verus! {

/// The four background probes.
#[derive(PartialEq, Eq, Structural, Clone, Copy, Debug)]
pub enum Probe {
    /// Fetches HTTP and HTTPS targets.
    Http,
    /// Sends an ICMP echo request.
    Ping,
    /// Opens a TCP connection.
    Tcp,
    /// Inspects the server's TLS certificate.
    Ssl,
}

/// The monitor types that a probe checks: HTTP and HTTPS monitors are
/// fetched, HTTPS and SSL monitors have their certificate inspected.
pub open spec fn checks_type(c: Probe, t: MonitorType) -> bool {
    match c {
        Probe::Http => t == MonitorType::Http || t == MonitorType::Https,
        Probe::Ping => t == MonitorType::Ping,
        Probe::Tcp => t == MonitorType::Tcp,
        Probe::Ssl => t == MonitorType::Ssl || t == MonitorType::Https,
    }
}

/// A probe takes a monitor when the monitor is enabled and of a type it checks.
pub open spec fn takes(c: Probe, m: Monitor) -> bool {
    m.enabled && checks_type(c, m.monitor_type)
}

/// The seconds a probe waits between rounds, as configured.
pub open spec fn round_interval(c: Probe, config: ServerConfig) -> u64 {
    match c {
        Probe::Http => config.http_check_interval,
        Probe::Ping => config.ping_check_interval,
        Probe::Tcp => config.tcp_check_interval,
        Probe::Ssl => config.ssl_check_interval,
    }
}

impl Probe {
    /// Whether this probe checks the monitor `m` in its rounds.
    pub fn takes(&self, m: &Monitor) -> (b: bool)
        ensures
            b == takes(*self, *m),
    {
        if !m.enabled {
            return false;
        }
        match self {
            Probe::Http => m.monitor_type == MonitorType::Http || m.monitor_type
                == MonitorType::Https,
            Probe::Ping => m.monitor_type == MonitorType::Ping,
            Probe::Tcp => m.monitor_type == MonitorType::Tcp,
            Probe::Ssl => m.monitor_type == MonitorType::Ssl || m.monitor_type
                == MonitorType::Https,
        }
    }

    /// The seconds this probe waits between rounds.
    pub fn interval(&self, config: &ServerConfig) -> (s: u64)
        ensures
            s == round_interval(*self, *config),
    {
        match self {
            Probe::Http => config.http_check_interval,
            Probe::Ping => config.ping_check_interval,
            Probe::Tcp => config.tcp_check_interval,
            Probe::Ssl => config.ssl_check_interval,
        }
    }

    /// The positions, in order, of the monitors that this probe checks in a round.
    pub fn due_monitors(&self, monitors: &Vec<Monitor>) -> (due: Vec<usize>)
        ensures
            forall|k: int| 0 <= k < due@.len() ==> #[trigger] due@[k] < monitors@.len(),
            forall|k: int| 0 <= k < due@.len() ==> takes(*self, monitors@[#[trigger] due@[k] as int]),
            forall|k: int, l: int| 0 <= k < l < due@.len() ==> #[trigger] due@[k] < #[trigger] due@[l],
            forall|i: int|
                0 <= i < monitors@.len() && takes(*self, #[trigger] monitors@[i]) ==> due@.contains(
                    i as usize,
                ),
    {
        let mut due: Vec<usize> = Vec::new();
        let mut i: usize = 0;
        while i < monitors.len()
            invariant
                i <= monitors@.len(),
                forall|k: int| 0 <= k < due@.len() ==> #[trigger] due@[k] < i,
                forall|k: int| 0 <= k < due@.len() ==> takes(*self, monitors@[#[trigger] due@[k] as int]),
                forall|k: int, l: int| 0 <= k < l < due@.len() ==> #[trigger] due@[k] < #[trigger] due@[l],
                forall|j: int|
                    0 <= j < i && takes(*self, #[trigger] monitors@[j]) ==> due@.contains(j as usize),
            decreases monitors@.len() - i,
        {
            if self.takes(&monitors[i]) {
                let ghost before = due@;
                due.push(i);
                proof {
                    assert forall|j: int|
                        0 <= j < i + 1 && takes(*self, #[trigger] monitors@[j]) implies due@.contains(
                        j as usize,
                    ) by {
                        if j < i {
                            let k = choose|k: int| 0 <= k < before.len() && before[k] == j as usize;
                            assert(due@[k] == j as usize);
                        } else {
                            assert(due@[before.len() as int] == i);
                        }
                    }
                }
            }
            i = i + 1;
        }
        due
    }
}

/// Every enabled monitor is checked by some probe, and no disabled one by any.
pub proof fn lemma_every_enabled_monitor_is_checked(m: Monitor)
    ensures
        m.enabled ==> exists|c: Probe| #[trigger] takes(c, m),
        !m.enabled ==> forall|c: Probe| !#[trigger] takes(c, m),
{
    if m.enabled {
        match m.monitor_type {
            MonitorType::Http => assert(takes(Probe::Http, m)),
            MonitorType::Https => assert(takes(Probe::Http, m)),
            MonitorType::Ping => assert(takes(Probe::Ping, m)),
            MonitorType::Tcp => assert(takes(Probe::Tcp, m)),
            MonitorType::Ssl => assert(takes(Probe::Ssl, m)),
        }
    }
}

/// The verdict of one check, before the time it took and the time it ran are attached.
#[derive(Debug, PartialEq)]
pub struct Verdict {
    pub status: CheckStatus,
    pub status_code: Option<u16>,
    pub message: String,
}

/// How an HTTP status code is judged: 2xx is up, 5xx is down, anything else degraded.
pub open spec fn http_status_of(code: u16) -> CheckStatus {
    if 200 <= code <= 299 {
        CheckStatus::Up
    } else if 500 <= code <= 599 {
        CheckStatus::Down
    } else {
        CheckStatus::Degraded
    }
}

/// Judges an HTTP status code: 2xx is up, 5xx is down, anything else degraded.
pub fn http_status(code: u16) -> (s: CheckStatus)
    ensures
        s == http_status_of(code),
{
    if 200 <= code && code <= 299 {
        CheckStatus::Up
    } else if 500 <= code && code <= 599 {
        CheckStatus::Down
    } else {
        CheckStatus::Degraded
    }
}

/// The verdict of an HTTP check: on a response with status `code`, the status
/// judged from it, the code, and `HTTP <code>`; on a failed request, down with
/// `Error: ` followed by the request error.
pub fn http_verdict(outcome: Result<u16, String>) -> (v: Verdict)
    ensures
        match outcome {
            Ok(code) => v.status == http_status_of(code) && v.status_code == Some(code)
                && v.message@ == "HTTP "@ + decimal(code as nat),
            Err(e) => v.status == CheckStatus::Down && v.status_code is None && v.message@
                == "Error: "@ + e@,
        },
{
    match outcome {
        Ok(code) => {
            let digits = decimal_string(code as u64);
            Verdict {
                status: http_status(code),
                status_code: Some(code),
                message: String::from_str("HTTP ").concat(digits.as_str()),
            }
        },
        Err(e) => Verdict {
            status: CheckStatus::Down,
            status_code: None,
            message: String::from_str("Error: ").concat(e.as_str()),
        },
    }
}

/// Why a ping check failed.
#[derive(Debug, PartialEq)]
pub enum PingFailure {
    /// The name resolved to no address.
    NoAddress,
    /// The name did not resolve; the resolver's error.
    Resolve(String),
    /// The echo request failed; the pinger's error.
    Echo(String),
}

/// The verdict of a ping check: on a reply, up with `Ping OK: <latency>ms`,
/// where `latency` is the round trip already written in milliseconds; on a
/// failure, down with a message that names the stage that failed.
pub fn ping_verdict(outcome: Result<String, PingFailure>) -> (v: Verdict)
    ensures
        v.status_code is None,
        match outcome {
            Ok(latency) => v.status == CheckStatus::Up && v.message@ == "Ping OK: "@ + latency@
                + "ms"@,
            Err(PingFailure::NoAddress) => v.status == CheckStatus::Down && v.message@
                == "DNS resolution failed: no addresses"@,
            Err(PingFailure::Resolve(e)) => v.status == CheckStatus::Down && v.message@
                == "DNS resolution failed: "@ + e@,
            Err(PingFailure::Echo(e)) => v.status == CheckStatus::Down && v.message@
                == "Ping failed: "@ + e@,
        },
{
    match outcome {
        Ok(latency) => Verdict {
            status: CheckStatus::Up,
            status_code: None,
            message: String::from_str("Ping OK: ").concat(latency.as_str()).concat("ms"),
        },
        Err(PingFailure::NoAddress) => Verdict {
            status: CheckStatus::Down,
            status_code: None,
            message: String::from_str("DNS resolution failed: no addresses"),
        },
        Err(PingFailure::Resolve(e)) => Verdict {
            status: CheckStatus::Down,
            status_code: None,
            message: String::from_str("DNS resolution failed: ").concat(e.as_str()),
        },
        Err(PingFailure::Echo(e)) => Verdict {
            status: CheckStatus::Down,
            status_code: None,
            message: String::from_str("Ping failed: ").concat(e.as_str()),
        },
    }
}

/// Seconds a TCP check waits for the connection.
pub const TCP_CONNECT_TIMEOUT_SECS: u64 = 5;

/// The port a TCP check connects to: the monitor's, 80 when it has none.
pub fn tcp_port(m: &Monitor) -> (p: u16)
    ensures
        p == match m.port {
            Some(p) => p,
            None => 80u16,
        },
{
    match m.port {
        Some(p) => p,
        None => 80,
    }
}

/// The address a TCP check connects to: `<target>:<port>`.
pub fn tcp_address(m: &Monitor) -> (a: String)
    ensures
        a@ == m.target@ + ":"@ + decimal(
            match m.port {
                Some(p) => p,
                None => 80u16,
            } as nat,
        ),
{
    let port = tcp_port(m);
    let digits = decimal_string(port as u64);
    m.target.clone().concat(":").concat(digits.as_str())
}

/// Why a TCP check failed.
#[derive(Debug, PartialEq)]
pub enum TcpFailure {
    /// The connection was refused or failed; the error.
    Connect(String),
    /// No connection within `TCP_CONNECT_TIMEOUT_SECS`.
    TimedOut,
}

/// The verdict of a TCP check on `port`: when the connection opened, up with
/// `TCP port <port> open (<elapsed>ms)`, where `elapsed` is the connection
/// time already written in milliseconds; otherwise down with the reason.
pub fn tcp_verdict(port: u16, outcome: Result<String, TcpFailure>) -> (v: Verdict)
    ensures
        v.status_code is None,
        match outcome {
            Ok(elapsed) => v.status == CheckStatus::Up && v.message@ == "TCP port "@ + decimal(
                port as nat,
            ) + " open ("@ + elapsed@ + "ms)"@,
            Err(TcpFailure::Connect(e)) => v.status == CheckStatus::Down && v.message@
                == "TCP connection failed: "@ + e@,
            Err(TcpFailure::TimedOut) => v.status == CheckStatus::Down && v.message@
                == "TCP connection timed out ("@ + decimal(TCP_CONNECT_TIMEOUT_SECS as nat) + "s)"@,
        },
{
    match outcome {
        Ok(elapsed) => {
            let digits = decimal_string(port as u64);
            Verdict {
                status: CheckStatus::Up,
                status_code: None,
                message: String::from_str("TCP port ").concat(digits.as_str()).concat(
                    " open (",
                ).concat(elapsed.as_str()).concat("ms)"),
            }
        },
        Err(TcpFailure::Connect(e)) => Verdict {
            status: CheckStatus::Down,
            status_code: None,
            message: String::from_str("TCP connection failed: ").concat(e.as_str()),
        },
        Err(TcpFailure::TimedOut) => {
            let secs = decimal_string(TCP_CONNECT_TIMEOUT_SECS);
            Verdict {
                status: CheckStatus::Down,
                status_code: None,
                message: String::from_str("TCP connection timed out (").concat(
                    secs.as_str(),
                ).concat("s)"),
            }
        },
    }
}

/// How a certificate's remaining validity is judged: more than 30 days is up,
/// more than 7 days is degraded, 7 days or less (or expired) is down.
pub open spec fn ssl_status_of(days: i64) -> CheckStatus {
    if days > 30 {
        CheckStatus::Up
    } else if days > 7 {
        CheckStatus::Degraded
    } else {
        CheckStatus::Down
    }
}

/// Judges a certificate's remaining validity in days.
pub fn ssl_status(days: i64) -> (s: CheckStatus)
    ensures
        s == ssl_status_of(days),
{
    if days > 30 {
        CheckStatus::Up
    } else if days > 7 {
        CheckStatus::Degraded
    } else {
        CheckStatus::Down
    }
}

/// The port a certificate check connects to: the monitor's, 443 when it has none.
pub fn ssl_port(m: &Monitor) -> (p: u16)
    ensures
        p == match m.port {
            Some(p) => p,
            None => 443u16,
        },
{
    match m.port {
        Some(p) => p,
        None => 443,
    }
}

/// Why a certificate check failed.
#[derive(Debug, PartialEq)]
pub enum SslFailure {
    /// The check ran and failed; its message.
    Check(String),
    /// The task running the check failed; its error.
    Task(String),
}

/// The verdict of a certificate check: on success, the status judged from the
/// days left and `SSL cert expires in <days> days (<not after>)`; on failure,
/// down with the reason.
pub fn ssl_verdict(outcome: Result<SslCertInfo, SslFailure>) -> (v: Verdict)
    ensures
        v.status_code is None,
        match outcome {
            Ok(info) => v.status == ssl_status_of(info.days_until_expiry) && v.message@
                == "SSL cert expires in "@ + signed_decimal(info.days_until_expiry as int)
                + " days ("@ + info.not_after@ + ")"@,
            Err(SslFailure::Check(e)) => v.status == CheckStatus::Down && v.message@
                == "SSL check failed: "@ + e@,
            Err(SslFailure::Task(e)) => v.status == CheckStatus::Down && v.message@
                == "Task error: "@ + e@,
        },
{
    match outcome {
        Ok(info) => {
            let days = signed_decimal_string(info.days_until_expiry);
            Verdict {
                status: ssl_status(info.days_until_expiry),
                status_code: None,
                message: String::from_str("SSL cert expires in ").concat(days.as_str()).concat(
                    " days (",
                ).concat(info.not_after.as_str()).concat(")"),
            }
        },
        Err(SslFailure::Check(e)) => Verdict {
            status: CheckStatus::Down,
            status_code: None,
            message: String::from_str("SSL check failed: ").concat(e.as_str()),
        },
        Err(SslFailure::Task(e)) => Verdict {
            status: CheckStatus::Down,
            status_code: None,
            message: String::from_str("Task error: ").concat(e.as_str()),
        },
    }
}


/// How bad a status is: up, then degraded, then down (unknown last).
pub open spec fn severity(s: CheckStatus) -> int {
    match s {
        CheckStatus::Up => 0,
        CheckStatus::Degraded => 1,
        CheckStatus::Down => 2,
        CheckStatus::Unknown => 3,
    }
}

/// A certificate with more days left is never judged worse.
pub proof fn lemma_ssl_status_monotone(fewer: i64, more: i64)
    requires
        fewer <= more,
    ensures
        severity(ssl_status_of(more)) <= severity(ssl_status_of(fewer)),
{
}


/// A status code is judged up exactly when it is a success (2xx), down
/// exactly when it is a server error (5xx), and degraded otherwise (1xx, 3xx,
/// 4xx and codes above 599).
pub proof fn lemma_http_status_classes(code: u16)
    ensures
        (http_status_of(code) == CheckStatus::Up) <==> (200 <= code && code <= 299),
        (http_status_of(code) == CheckStatus::Down) <==> (500 <= code && code <= 599),
        (http_status_of(code) == CheckStatus::Degraded) <==> !(200 <= code && code <= 299) && !(
        500 <= code && code <= 599),
        http_status_of(code) != CheckStatus::Unknown,
{
}

/// Each probe waits the interval configured for its own kind: the HTTP probe
/// `http_check_interval`, the ping probe `ping_check_interval`, the TCP probe
/// `tcp_check_interval`, the certificate probe `ssl_check_interval`.
pub proof fn lemma_probe_intervals(config: ServerConfig)
    ensures
        round_interval(Probe::Http, config) == config.http_check_interval,
        round_interval(Probe::Ping, config) == config.ping_check_interval,
        round_interval(Probe::Tcp, config) == config.tcp_check_interval,
        round_interval(Probe::Ssl, config) == config.ssl_check_interval,
{
}

/// A probe's interval depends only on its own setting: two configurations
/// that agree on it give the same interval, whatever the other settings.
pub proof fn lemma_probe_interval_is_its_own(p: Probe, c: ServerConfig, d: ServerConfig)
    requires
        p == Probe::Http ==> c.http_check_interval == d.http_check_interval,
        p == Probe::Ping ==> c.ping_check_interval == d.ping_check_interval,
        p == Probe::Tcp ==> c.tcp_check_interval == d.tcp_check_interval,
        p == Probe::Ssl ==> c.ssl_check_interval == d.ssl_check_interval,
    ensures
        round_interval(p, c) == round_interval(p, d),
{
}

/// Which monitor types each probe checks: HTTP fetches HTTP and HTTPS
/// targets, ping only ping targets, TCP only TCP targets, and the
/// certificate probe SSL and HTTPS targets; a disabled monitor is taken by none.
pub proof fn lemma_probe_types(m: Monitor)
    ensures
        takes(Probe::Http, m) <==> m.enabled && (m.monitor_type == MonitorType::Http
            || m.monitor_type == MonitorType::Https),
        takes(Probe::Ping, m) <==> m.enabled && m.monitor_type == MonitorType::Ping,
        takes(Probe::Tcp, m) <==> m.enabled && m.monitor_type == MonitorType::Tcp,
        takes(Probe::Ssl, m) <==> m.enabled && (m.monitor_type == MonitorType::Ssl
            || m.monitor_type == MonitorType::Https),
{
}

/// A certificate is judged up exactly when more than 30 days are left, down
/// exactly when 7 days or fewer are left (or it has expired), degraded in between.
pub proof fn lemma_ssl_status_thresholds(days: i64)
    ensures
        (ssl_status_of(days) == CheckStatus::Up) <==> days > 30,
        (ssl_status_of(days) == CheckStatus::Degraded) <==> 7 < days && days <= 30,
        (ssl_status_of(days) == CheckStatus::Down) <==> days <= 7,
{
}

} // verus!
