//! The data model: monitors, their kinds, check statuses, agents and API answers.
use crate::text::{ascii_lower, ascii_lower_eq, ascii_lower_equals};
use vstd::prelude::*;

verus! {

/// What a monitor checks.
#[derive(PartialEq, Eq, Structural, Clone, Copy, Debug)]
pub enum MonitorType {
    Http,
    Https,
    Ping,
    Tcp,
    Ssl,
}

/// The name under which a monitor type is stored and accepted.
pub open spec fn monitor_type_name(t: MonitorType) -> Seq<char> {
    match t {
        MonitorType::Http => "http"@,
        MonitorType::Https => "https"@,
        MonitorType::Ping => "ping"@,
        MonitorType::Tcp => "tcp"@,
        MonitorType::Ssl => "ssl"@,
    }
}

/// The monitor type that `s` names, compared without regard to case;
/// any other text is read as `Http`.
///
/// Lower-casing `s` in full Unicode (`str::to_lowercase`) gives one of the
/// five names exactly when lower-casing its ASCII letters does: no name holds
/// a `k`, the one ASCII letter that a non-ASCII character lower-cases to.
pub open spec fn monitor_type_named(s: Seq<char>) -> MonitorType {
    if ascii_lower_eq(s, "http"@) {
        MonitorType::Http
    } else if ascii_lower_eq(s, "https"@) {
        MonitorType::Https
    } else if ascii_lower_eq(s, "ping"@) {
        MonitorType::Ping
    } else if ascii_lower_eq(s, "tcp"@) {
        MonitorType::Tcp
    } else if ascii_lower_eq(s, "ssl"@) {
        MonitorType::Ssl
    } else {
        MonitorType::Http
    }
}

impl MonitorType {
    /// The stored name of the type: `http`, `https`, `ping`, `tcp` or `ssl`.
    pub fn as_str(&self) -> (s: &str)
        ensures
            s@ == monitor_type_name(*self),
    {
        match self {
            MonitorType::Http => "http",
            MonitorType::Https => "https",
            MonitorType::Ping => "ping",
            MonitorType::Tcp => "tcp",
            MonitorType::Ssl => "ssl",
        }
    }

    /// Reads a monitor type, ignoring case; unknown names give `Http`.
    pub fn from_str(s: &str) -> (t: MonitorType)
        ensures
            t == monitor_type_named(s@),
    {
        if ascii_lower_equals(s, "http") {
            MonitorType::Http
        } else if ascii_lower_equals(s, "https") {
            MonitorType::Https
        } else if ascii_lower_equals(s, "ping") {
            MonitorType::Ping
        } else if ascii_lower_equals(s, "tcp") {
            MonitorType::Tcp
        } else if ascii_lower_equals(s, "ssl") {
            MonitorType::Ssl
        } else {
            MonitorType::Http
        }
    }
}

/// The outcome of one check.
#[derive(PartialEq, Eq, Structural, Clone, Copy, Debug)]
pub enum CheckStatus {
    Up,
    Down,
    Degraded,
    Unknown,
}

/// The name under which a check status is stored.
pub open spec fn check_status_name(s: CheckStatus) -> Seq<char> {
    match s {
        CheckStatus::Up => "up"@,
        CheckStatus::Down => "down"@,
        CheckStatus::Degraded => "degraded"@,
        CheckStatus::Unknown => "unknown"@,
    }
}

/// The status that `s` names, compared without regard to case; any other
/// text (`unknown` among it) is read as `Unknown`. As for monitor types, no
/// name holds a `k`, so ASCII lower-casing decides as `str::to_lowercase` does.
pub open spec fn check_status_named(s: Seq<char>) -> CheckStatus {
    if ascii_lower_eq(s, "up"@) {
        CheckStatus::Up
    } else if ascii_lower_eq(s, "down"@) {
        CheckStatus::Down
    } else if ascii_lower_eq(s, "degraded"@) {
        CheckStatus::Degraded
    } else {
        CheckStatus::Unknown
    }
}

impl CheckStatus {
    /// The stored name of the status: `up`, `down`, `degraded` or `unknown`.
    pub fn as_str(&self) -> (s: &str)
        ensures
            s@ == check_status_name(*self),
    {
        match self {
            CheckStatus::Up => "up",
            CheckStatus::Down => "down",
            CheckStatus::Degraded => "degraded",
            CheckStatus::Unknown => "unknown",
        }
    }

    /// Reads a status, ignoring case; unknown names give `Unknown`.
    pub fn from_str(s: &str) -> (st: CheckStatus)
        ensures
            st == check_status_named(s@),
    {
        if ascii_lower_equals(s, "up") {
            CheckStatus::Up
        } else if ascii_lower_equals(s, "down") {
            CheckStatus::Down
        } else if ascii_lower_equals(s, "degraded") {
            CheckStatus::Degraded
        } else {
            CheckStatus::Unknown
        }
    }
}

/// Reading back the stored name of a monitor type gives the type again.
pub proof fn lemma_monitor_type_name_round_trip(t: MonitorType)
    ensures
        monitor_type_named(monitor_type_name(t)) == t,
{
    reveal_strlit("http");
    reveal_strlit("https");
    reveal_strlit("ping");
    reveal_strlit("tcp");
    reveal_strlit("ssl");
    let n = monitor_type_name(t);
    let names = seq!["http"@, "https"@, "ping"@, "tcp"@, "ssl"@];
    assert forall|i: int, j: int| 0 <= i < 5 && 0 <= j < 5 && i != j
        implies !ascii_lower_eq(#[trigger] names[i], #[trigger] names[j]) by {
        if names[i].len() == names[j].len() {
            assert(ascii_lower(names[i][0]) != names[j][0] || ascii_lower(names[i][1]) != names[j][1]);
        }
    }
    assert(ascii_lower_eq(n, n));
    match t {
        MonitorType::Http => assert(n == names[0]),
        MonitorType::Https => {
            assert(n == names[1]);
            assert(!ascii_lower_eq(names[1], names[0]));
        },
        MonitorType::Ping => {
            assert(n == names[2]);
            assert(!ascii_lower_eq(names[2], names[0]));
            assert(!ascii_lower_eq(names[2], names[1]));
        },
        MonitorType::Tcp => {
            assert(n == names[3]);
            assert(!ascii_lower_eq(names[3], names[0]));
            assert(!ascii_lower_eq(names[3], names[1]));
            assert(!ascii_lower_eq(names[3], names[2]));
        },
        MonitorType::Ssl => {
            assert(n == names[4]);
            assert(!ascii_lower_eq(names[4], names[0]));
            assert(!ascii_lower_eq(names[4], names[1]));
            assert(!ascii_lower_eq(names[4], names[2]));
            assert(!ascii_lower_eq(names[4], names[3]));
        },
    }
}

/// Reading back the stored name of a check status gives the status again.
pub proof fn lemma_check_status_name_round_trip(s: CheckStatus)
    ensures
        check_status_named(check_status_name(s)) == s,
{
    reveal_strlit("up");
    reveal_strlit("down");
    reveal_strlit("degraded");
    reveal_strlit("unknown");
    let n = check_status_name(s);
    match s {
        CheckStatus::Up => {
            assert(ascii_lower_eq(n, "up"@));
        },
        CheckStatus::Down => {
            assert(!ascii_lower_eq(n, "up"@));
            assert(ascii_lower_eq(n, "down"@));
        },
        CheckStatus::Degraded => {
            assert(!ascii_lower_eq(n, "down"@));
            assert(ascii_lower_eq(n, "degraded"@));
        },
        CheckStatus::Unknown => {
            assert(!ascii_lower_eq(n, "degraded"@));
        },
    }
}


/// Reading a monitor type does not depend on the case of ASCII letters.
pub proof fn lemma_monitor_type_ignores_case(s: Seq<char>, t: Seq<char>)
    requires
        s.len() == t.len(),
        forall|i: int| 0 <= i < s.len() ==> ascii_lower(#[trigger] s[i]) == ascii_lower(t[i]),
    ensures
        monitor_type_named(s) == monitor_type_named(t),
{
    assert forall|w: Seq<char>| ascii_lower_eq(s, w) == ascii_lower_eq(t, w) by {
        if ascii_lower_eq(s, w) {
            assert forall|i: int| 0 <= i < t.len() implies ascii_lower(#[trigger] t[i]) == w[i] by {
                assert(ascii_lower(s[i]) == ascii_lower(t[i]));
            }
        }
        if ascii_lower_eq(t, w) {
            assert forall|i: int| 0 <= i < s.len() implies ascii_lower(#[trigger] s[i]) == w[i] by {
                assert(ascii_lower(s[i]) == ascii_lower(t[i]));
            }
        }
    }
}

/// Reading a check status does not depend on the case of ASCII letters.
pub proof fn lemma_check_status_ignores_case(s: Seq<char>, t: Seq<char>)
    requires
        s.len() == t.len(),
        forall|i: int| 0 <= i < s.len() ==> ascii_lower(#[trigger] s[i]) == ascii_lower(t[i]),
    ensures
        check_status_named(s) == check_status_named(t),
{
    assert forall|w: Seq<char>| ascii_lower_eq(s, w) == ascii_lower_eq(t, w) by {
        if ascii_lower_eq(s, w) {
            assert forall|i: int| 0 <= i < t.len() implies ascii_lower(#[trigger] t[i]) == w[i] by {
                assert(ascii_lower(s[i]) == ascii_lower(t[i]));
            }
        }
        if ascii_lower_eq(t, w) {
            assert forall|i: int| 0 <= i < s.len() implies ascii_lower(#[trigger] s[i]) == w[i] by {
                assert(ascii_lower(s[i]) == ascii_lower(t[i]));
            }
        }
    }
}

/// A monitored target.
#[derive(Debug, PartialEq)]
pub struct Monitor {
    pub id: String,
    pub name: String,
    pub monitor_type: MonitorType,
    pub target: String,
    pub port: Option<u16>,
    pub interval_seconds: u64,
    pub enabled: bool,
}

impl Monitor {
    /// A monitor as stored: the type by its stored name (read as `from_str`
    /// reads it) and the enabled flag as an integer (any non-zero value is enabled).
    pub fn from_row(
        id: String,
        name: String,
        monitor_type: &str,
        target: String,
        port: Option<u16>,
        interval_seconds: u64,
        enabled: i32,
    ) -> (m: Monitor)
        ensures
            m.id == id,
            m.name == name,
            m.monitor_type == monitor_type_named(monitor_type@),
            m.target == target,
            m.port == port,
            m.interval_seconds == interval_seconds,
            m.enabled == (enabled != 0),
    {
        Monitor {
            id,
            name,
            monitor_type: MonitorType::from_str(monitor_type),
            target,
            port,
            interval_seconds,
            enabled: enabled != 0,
        }
    }

    /// The enabled flag as stored: 1 for enabled, 0 for disabled.
    pub fn enabled_column(&self) -> (v: i32)
        ensures
            v == (if self.enabled { 1i32 } else { 0i32 }),
    {
        if self.enabled {
            1
        } else {
            0
        }
    }
}

/// A request to create a monitor; the type is given by name.
#[derive(Debug, PartialEq)]
pub struct CreateMonitorRequest {
    pub name: String,
    pub monitor_type: String,
    pub target: String,
    pub port: Option<u16>,
    pub interval_seconds: Option<u64>,
}

/// What a check learned of a server's leaf certificate.
#[derive(Debug, PartialEq)]
pub struct SslCertInfo {
    pub monitor_id: String,
    pub subject: String,
    pub issuer: String,
    pub not_before: String,
    pub not_after: String,
    pub days_until_expiry: i64,
}

/// A registered agent, as the server stores it.
#[derive(Debug, PartialEq)]
pub struct AgentInfo {
    pub id: String,
    pub hostname: String,
    pub os: Option<String>,
    pub kernel: Option<String>,
    pub ip_address: Option<String>,
}

/// The answer of every API endpoint: `data` on success, `error` otherwise.
#[derive(Debug, PartialEq)]
pub struct ApiResponse<T> {
    pub success: bool,
    pub data: Option<T>,
    pub error: Option<String>,
}

/// `o` holds a string whose characters are `t`.
pub open spec fn holds_text(o: Option<String>, t: Seq<char>) -> bool {
    match o {
        Some(s) => s@ == t,
        None => false,
    }
}

/// `a` is a successful answer carrying `v`.
pub open spec fn answers_ok<T>(a: ApiResponse<T>, v: T) -> bool {
    a.success && a.data == Some(v) && a.error is None
}

/// `a` is a successful answer carrying the text `t`.
pub open spec fn answers_text(a: ApiResponse<String>, t: Seq<char>) -> bool {
    a.success && holds_text(a.data, t) && a.error is None
}

/// `a` is a failed answer with the message `msg`.
pub open spec fn answers_error<T>(a: ApiResponse<T>, msg: Seq<char>) -> bool {
    !a.success && a.data is None && holds_text(a.error, msg)
}

impl<T> ApiResponse<T> {
    /// A successful answer carrying `data`.
    pub fn ok(data: T) -> (r: ApiResponse<T>)
        ensures
            answers_ok(r, data),
    {
        ApiResponse { success: true, data: Some(data), error: None }
    }

    /// A failed answer carrying the message `msg`.
    pub fn err(msg: String) -> (r: ApiResponse<T>)
        ensures
            answers_error(r, msg@),
    {
        ApiResponse { success: false, data: None, error: Some(msg) }
    }
}


/// An answer is a success or a failure, never both, and it carries one
/// value or one message: the data of a success and the message of a failure
/// are determined by the answer.
pub proof fn lemma_answers_are_determined<T>(a: ApiResponse<T>, v: T, w: T, m: Seq<char>, n: Seq<char>)
    ensures
        answers_ok(a, v) ==> !answers_error(a, m),
        answers_ok(a, v) && answers_ok(a, w) ==> v == w,
        answers_error(a, m) && answers_error(a, n) ==> m == n,
        answers_error(a, m) ==> !a.success && a.data is None,
        answers_ok(a, v) ==> a.success && a.error is None,
{
}


/// A text that, ignoring the case of ASCII letters, is none of the five type
/// names reads as `Http`; one that is none of the three status names
/// `up`, `down`, `degraded` reads as `Unknown`.
pub proof fn lemma_unknown_names_read_as_defaults(s: Seq<char>)
    ensures
        !ascii_lower_eq(s, "http"@) && !ascii_lower_eq(s, "https"@) && !ascii_lower_eq(s, "ping"@)
            && !ascii_lower_eq(s, "tcp"@) && !ascii_lower_eq(s, "ssl"@) ==> monitor_type_named(s)
            == MonitorType::Http,
        !ascii_lower_eq(s, "up"@) && !ascii_lower_eq(s, "down"@) && !ascii_lower_eq(s, "degraded"@)
            ==> check_status_named(s) == CheckStatus::Unknown,
{
}

} // verus!
