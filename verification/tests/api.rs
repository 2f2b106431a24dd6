use zenmonitor::server::api::{
    admit_agent_report,
    answer_agent_metrics, answer_agent_upsert, answer_create, answer_delete, answer_query,
    monitor_from_request, new_monitor, ResultsQuery,
};
use zenmonitor::server::models::{CreateMonitorRequest, MonitorType};

fn request(t: &str, interval: Option<u64>) -> CreateMonitorRequest {
    CreateMonitorRequest {
        name: "My Website".to_string(),
        monitor_type: t.to_string(),
        target: "https://example.com".to_string(),
        port: None,
        interval_seconds: interval,
    }
}

#[test]
fn results_limit_defaults_to_fifty() {
    assert_eq!(ResultsQuery { limit: None }.effective_limit(), 50);
    assert_eq!(ResultsQuery { limit: Some(10) }.effective_limit(), 10);
    assert_eq!(ResultsQuery { limit: Some(0) }.effective_limit(), 0);
}

#[test]
fn query_answers() {
    let a = answer_query(Ok(vec![1, 2]));
    assert!(a.success);
    assert_eq!(a.data, Some(vec![1, 2]));
    assert_eq!(a.error, None);
    let a: zenmonitor::server::models::ApiResponse<Vec<u8>> = answer_query(Err("disk I/O error".to_string()));
    assert!(!a.success);
    assert_eq!(a.data, None);
    assert_eq!(a.error.as_deref(), Some("Database error: disk I/O error"));
}

#[test]
fn monitor_from_request_defaults() {
    let m = monitor_from_request("id-1".to_string(), request("https", None));
    assert_eq!(m.id, "id-1");
    assert_eq!(m.name, "My Website");
    assert_eq!(m.monitor_type, MonitorType::Https);
    assert_eq!(m.target, "https://example.com");
    assert_eq!(m.port, None);
    assert_eq!(m.interval_seconds, 60);
    assert!(m.enabled);
    let m = monitor_from_request("id-2".to_string(), request("Whatever", Some(15)));
    assert_eq!(m.monitor_type, MonitorType::Http);
    assert_eq!(m.interval_seconds, 15);
}

#[test]
fn new_monitors_get_fresh_v4_ids() {
    let a = new_monitor(request("tcp", None));
    let b = new_monitor(request("tcp", None));
    assert_ne!(a.id, b.id);
    assert_eq!(a.id.len(), 36);
    assert_eq!(&a.id[14..15], "4");
    assert_eq!(a.monitor_type, MonitorType::Tcp);
}

#[test]
fn create_answers() {
    let m = monitor_from_request("id-1".to_string(), request("ping", None));
    let (a, u) = answer_create(m, Ok(()));
    assert!(a.success);
    assert_eq!(a.data.unwrap().id, "id-1");
    let u = u.unwrap();
    assert_eq!(u.action, "created");
    assert_eq!(u.monitor_id, "id-1");
    let m = monitor_from_request("id-1".to_string(), request("ping", None));
    let (a, u) = answer_create(m, Err("UNIQUE constraint failed".to_string()));
    assert!(!a.success);
    assert_eq!(a.error.as_deref(), Some("Failed to create monitor: UNIQUE constraint failed"));
    assert!(u.is_none());
}

#[test]
fn delete_answers() {
    let (a, u) = answer_delete("id-9".to_string(), Ok(true));
    assert!(a.success);
    assert_eq!(a.data.as_deref(), Some("Monitor deleted"));
    let u = u.unwrap();
    assert_eq!(u.action, "deleted");
    assert_eq!(u.monitor_id, "id-9");
    let (a, u) = answer_delete("id-9".to_string(), Ok(false));
    assert!(!a.success);
    assert_eq!(a.error.as_deref(), Some("Monitor not found"));
    assert!(u.is_none());
    let (a, u) = answer_delete("id-9".to_string(), Err("locked".to_string()));
    assert_eq!(a.error.as_deref(), Some("Database error: locked"));
    assert!(u.is_none());
}

#[test]
fn agent_report_answers() {
    assert!(answer_agent_upsert(Ok(())).is_none());
    let a = answer_agent_upsert(Err("readonly".to_string())).unwrap();
    assert!(!a.success);
    assert_eq!(a.error.as_deref(), Some("Failed to upsert agent: readonly"));
    let (a, announce) = answer_agent_metrics(Ok(7));
    assert!(a.success);
    assert_eq!(a.data.as_deref(), Some("Report received"));
    assert!(announce);
    let (a, announce) = answer_agent_metrics(Err("full".to_string()));
    assert_eq!(a.error.as_deref(), Some("Failed to store metrics: full"));
    assert!(!announce);
}

#[test]
fn agent_reports_need_the_api_key() {
    assert!(admit_agent_report(Some("secret"), "secret").is_none());
    let r = admit_agent_report(Some("wrong"), "secret").unwrap();
    assert!(!r.success);
    assert_eq!(r.error.as_deref(), Some("Invalid or missing API key"));
    assert!(admit_agent_report(None, "secret").is_some());
    assert!(admit_agent_report(Some(""), "secret").is_some());
}
