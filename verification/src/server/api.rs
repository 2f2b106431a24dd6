//! What the API answers, and what it announces to live dashboards, given the
//! outcome of the storage operation behind each endpoint.
use crate::ids::{is_v4_uuid_text, new_uuid_v4_string};
use crate::server::models::{
    answers_error, answers_ok, answers_text, ApiResponse, CreateMonitorRequest,
    Monitor, MonitorType, monitor_type_named,
};
use vstd::prelude::*;

verus! {

/// A monitor was created or deleted: the announcement sent to dashboards.
#[derive(Debug, PartialEq)]
pub struct MonitorUpdate {
    /// `created` or `deleted`.
    pub action: String,
    pub monitor_id: String,
}

/// `u` announces the `action` on the monitor `id`.
pub open spec fn announces(u: Option<MonitorUpdate>, action: Seq<char>, id: Seq<char>) -> bool {
    match u {
        Some(x) => x.action@ == action && x.monitor_id@ == id,
        None => false,
    }
}

/// Query parameters of the results endpoint.
#[derive(Debug, PartialEq)]
pub struct ResultsQuery {
    pub limit: Option<u32>,
}

impl ResultsQuery {
    /// How many results to return: the given limit, 50 when none is given.
    pub fn effective_limit(&self) -> (n: u32)
        ensures
            n == match self.limit {
                Some(l) => l,
                None => 50,
            },
    {
        match self.limit {
            Some(l) => l,
            None => 50,
        }
    }
}

/// The answer to a read from storage: the rows on success, otherwise the
/// message `Database error: ` followed by the storage error.
pub fn answer_query<T>(r: Result<T, String>) -> (a: ApiResponse<T>)
    ensures
        match r {
            Ok(v) => answers_ok(a, v),
            Err(e) => answers_error(a, "Database error: "@ + e@),
        },
{
    match r {
        Ok(v) => ApiResponse::ok(v),
        Err(e) => ApiResponse::err(String::from_str("Database error: ").concat(e.as_str())),
    }
}

/// The monitor that a create request describes, under the identifier `id`:
/// the type read by name (unknown names give `Http`), checked every 60 s
/// unless the request says otherwise, enabled.
pub fn monitor_from_request(id: String, req: CreateMonitorRequest) -> (m: Monitor)
    ensures
        m.id@ == id@,
        m.name@ == req.name@,
        m.monitor_type == monitor_type_named(req.monitor_type@),
        m.target@ == req.target@,
        m.port == req.port,
        m.interval_seconds == match req.interval_seconds {
            Some(s) => s,
            None => 60,
        },
        m.enabled,
{
    let monitor_type = MonitorType::from_str(req.monitor_type.as_str());
    let interval_seconds = match req.interval_seconds {
        Some(s) => s,
        None => 60,
    };
    Monitor {
        id,
        name: req.name,
        monitor_type,
        target: req.target,
        port: req.port,
        interval_seconds,
        enabled: true,
    }
}

/// The monitor that a create request describes, under a fresh random identifier.
pub fn new_monitor(req: CreateMonitorRequest) -> (m: Monitor)
    ensures
        is_v4_uuid_text(m.id@),
        m.name@ == req.name@,
        m.monitor_type == monitor_type_named(req.monitor_type@),
        m.target@ == req.target@,
        m.port == req.port,
        m.interval_seconds == match req.interval_seconds {
            Some(s) => s,
            None => 60,
        },
        m.enabled,
{
    let id = new_uuid_v4_string();
    monitor_from_request(id, req)
}

/// After storing a new monitor: on success the monitor is answered and its
/// creation announced; on failure the answer is
/// `Failed to create monitor: ` followed by the storage error, and nothing is announced.
pub fn answer_create(monitor: Monitor, stored: Result<(), String>) -> (r: (
    ApiResponse<Monitor>,
    Option<MonitorUpdate>,
))
    ensures
        match stored {
            Ok(_) => answers_ok(r.0, monitor) && announces(r.1, "created"@, monitor.id@),
            Err(e) => answers_error(r.0, "Failed to create monitor: "@ + e@) && r.1 is None,
        },
{
    match stored {
        Ok(_) => {
            let update = MonitorUpdate {
                action: String::from_str("created"),
                monitor_id: monitor.id.clone(),
            };
            (ApiResponse::ok(monitor), Some(update))
        },
        Err(e) => (
            ApiResponse::err(String::from_str("Failed to create monitor: ").concat(e.as_str())),
            None,
        ),
    }
}

/// After deleting the monitor `id`: if a row went, the answer is
/// `Monitor deleted` and the deletion is announced; if none did, the answer
/// is the error `Monitor not found`; if storage failed, the error is
/// `Database error: ` followed by the storage error. Only a deletion is announced.
pub fn answer_delete(id: String, deleted: Result<bool, String>) -> (r: (
    ApiResponse<String>,
    Option<MonitorUpdate>,
))
    ensures
        match deleted {
            Ok(true) => answers_text(r.0, "Monitor deleted"@) && announces(r.1, "deleted"@, id@),
            Ok(false) => answers_error(r.0, "Monitor not found"@) && r.1 is None,
            Err(e) => answers_error(r.0, "Database error: "@ + e@) && r.1 is None,
        },
{
    match deleted {
        Ok(true) => {
            let update = MonitorUpdate { action: String::from_str("deleted"), monitor_id: id };
            (ApiResponse::ok(String::from_str("Monitor deleted")), Some(update))
        },
        Ok(false) => (ApiResponse::err(String::from_str("Monitor not found")), None),
        Err(e) => (
            ApiResponse::err(String::from_str("Database error: ").concat(e.as_str())),
            None,
        ),
    }
}

/// First step of an agent report, after registering the agent: a failure
/// ends the report with `Failed to upsert agent: ` followed by the storage
/// error; a success lets it go on (`None`).
pub fn answer_agent_upsert(upserted: Result<(), String>) -> (r: Option<ApiResponse<String>>)
    ensures
        match upserted {
            Ok(_) => r is None,
            Err(e) => r is Some && answers_error(r.unwrap(), "Failed to upsert agent: "@ + e@),
        },
{
    match upserted {
        Ok(_) => None,
        Err(e) => Some(
            ApiResponse::err(String::from_str("Failed to upsert agent: ").concat(e.as_str())),
        ),
    }
}

/// Last step of an agent report, after storing its metrics: on success the
/// answer is `Report received` and the metrics are to be announced (`true`);
/// on failure the answer is `Failed to store metrics: ` followed by the
/// storage error, and nothing is announced.
pub fn answer_agent_metrics(stored: Result<i64, String>) -> (r: (ApiResponse<String>, bool))
    ensures
        match stored {
            Ok(_) => answers_text(r.0, "Report received"@) && r.1,
            Err(e) => answers_error(r.0, "Failed to store metrics: "@ + e@) && !r.1,
        },
{
    match stored {
        Ok(_) => (ApiResponse::ok(String::from_str("Report received")), true),
        Err(e) => (
            ApiResponse::err(String::from_str("Failed to store metrics: ").concat(e.as_str())),
            false,
        ),
    }
}


/// Admission of an agent report: agents present the configured API key in
/// the `X-API-Key` header. A report whose key is missing or different is
/// refused with `Invalid or missing API key`; a report with the key goes on (`None`).
pub fn admit_agent_report(presented: Option<&str>, expected: &str) -> (r: Option<ApiResponse<String>>)
    ensures
        (r is None) == (presented is Some && presented.unwrap()@ == expected@),
        r is Some ==> answers_error(r.unwrap(), "Invalid or missing API key"@),
{
    let ok = match presented {
        Some(k) => {
            let kc = crate::text::chars_of(k);
            crate::text::same_chars(&kc, expected)
        },
        None => false,
    };
    if ok {
        None
    } else {
        Some(ApiResponse::err(String::from_str("Invalid or missing API key")))
    }
}

} // verus!
