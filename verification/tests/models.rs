use zenmonitor::server::models::{ApiResponse, CheckStatus, MonitorType};

#[test]
fn monitor_type_names_round_trip() {
    for t in [MonitorType::Http, MonitorType::Https, MonitorType::Ping, MonitorType::Tcp, MonitorType::Ssl] {
        assert_eq!(MonitorType::from_str(t.as_str()), t);
    }
    assert_eq!(MonitorType::Https.as_str(), "https");
    assert_eq!(MonitorType::Ssl.as_str(), "ssl");
}

#[test]
fn monitor_type_from_str_ignores_case_and_defaults_to_http() {
    assert_eq!(MonitorType::from_str("HTTPS"), MonitorType::Https);
    assert_eq!(MonitorType::from_str("Ping"), MonitorType::Ping);
    assert_eq!(MonitorType::from_str("tCp"), MonitorType::Tcp);
    assert_eq!(MonitorType::from_str("SSL"), MonitorType::Ssl);
    assert_eq!(MonitorType::from_str("dns"), MonitorType::Http);
    assert_eq!(MonitorType::from_str(""), MonitorType::Http);
    assert_eq!(MonitorType::from_str("ping "), MonitorType::Http);
    assert_eq!(MonitorType::from_str("pıng"), MonitorType::Http);
}

#[test]
fn check_status_names_round_trip() {
    for s in [CheckStatus::Up, CheckStatus::Down, CheckStatus::Degraded, CheckStatus::Unknown] {
        assert_eq!(CheckStatus::from_str(s.as_str()), s);
    }
    assert_eq!(CheckStatus::Degraded.as_str(), "degraded");
}

#[test]
fn check_status_from_str_ignores_case_and_defaults_to_unknown() {
    assert_eq!(CheckStatus::from_str("UP"), CheckStatus::Up);
    assert_eq!(CheckStatus::from_str("Down"), CheckStatus::Down);
    assert_eq!(CheckStatus::from_str("DeGrAdEd"), CheckStatus::Degraded);
    assert_eq!(CheckStatus::from_str("sideways"), CheckStatus::Unknown);
}

#[test]
fn from_str_agrees_with_unicode_lowercase() {
    let samples = ["HTTP", "Https", "\u{212A}", "PİNG", "TCP", "ſsl", "UP", "DOWN", "ß"];
    for s in samples {
        let lower = s.to_lowercase();
        let expected_type = match lower.as_str() {
            "http" => MonitorType::Http,
            "https" => MonitorType::Https,
            "ping" => MonitorType::Ping,
            "tcp" => MonitorType::Tcp,
            "ssl" => MonitorType::Ssl,
            _ => MonitorType::Http,
        };
        assert_eq!(MonitorType::from_str(s), expected_type, "{}", s);
        let expected_status = match lower.as_str() {
            "up" => CheckStatus::Up,
            "down" => CheckStatus::Down,
            "degraded" => CheckStatus::Degraded,
            _ => CheckStatus::Unknown,
        };
        assert_eq!(CheckStatus::from_str(s), expected_status, "{}", s);
    }
}

#[test]
fn api_response_ok_and_err() {
    let ok = ApiResponse::ok(5u32);
    assert!(ok.success);
    assert_eq!(ok.data, Some(5));
    assert_eq!(ok.error, None);
    let err: ApiResponse<u32> = ApiResponse::err("boom".to_string());
    assert!(!err.success);
    assert_eq!(err.data, None);
    assert_eq!(err.error.as_deref(), Some("boom"));
}

#[test]
fn monitors_from_stored_rows() {
    let m = zenmonitor::server::models::Monitor::from_row(
        "id".to_string(),
        "db".to_string(),
        "TCP",
        "db-server".to_string(),
        Some(5432),
        30,
        2,
    );
    assert_eq!(m.monitor_type, MonitorType::Tcp);
    assert!(m.enabled);
    assert_eq!(m.enabled_column(), 1);
    let off = zenmonitor::server::models::Monitor::from_row(
        "id".to_string(),
        "x".to_string(),
        "bogus",
        "t".to_string(),
        None,
        60,
        0,
    );
    assert_eq!(off.monitor_type, MonitorType::Http);
    assert!(!off.enabled);
    assert_eq!(off.enabled_column(), 0);
}
