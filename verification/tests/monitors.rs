use zenmonitor::server::config::ServerConfig;
use zenmonitor::server::models::{CheckStatus, Monitor, MonitorType, SslCertInfo};
use zenmonitor::server::monitors::{
    http_status, http_verdict, ping_verdict, ssl_port, ssl_status, ssl_verdict, tcp_address, tcp_port,
    tcp_verdict, Probe, PingFailure, TcpFailure, TCP_CONNECT_TIMEOUT_SECS,
};

fn monitor(id: &str, t: MonitorType, enabled: bool, port: Option<u16>) -> Monitor {
    Monitor {
        id: id.to_string(),
        name: format!("monitor {}", id),
        monitor_type: t,
        target: "example.com".to_string(),
        port,
        interval_seconds: 60,
        enabled,
    }
}

#[test]
fn probes_select_enabled_monitors_of_their_types() {
    let ms = vec![
        monitor("a", MonitorType::Http, true, None),
        monitor("b", MonitorType::Https, true, None),
        monitor("c", MonitorType::Ping, true, None),
        monitor("d", MonitorType::Tcp, true, Some(5432)),
        monitor("e", MonitorType::Ssl, true, None),
        monitor("f", MonitorType::Https, false, None),
        monitor("g", MonitorType::Ping, false, None),
    ];
    assert_eq!(Probe::Http.due_monitors(&ms), vec![0, 1]);
    assert_eq!(Probe::Ping.due_monitors(&ms), vec![2]);
    assert_eq!(Probe::Tcp.due_monitors(&ms), vec![3]);
    assert_eq!(Probe::Ssl.due_monitors(&ms), vec![1, 4]);
    assert_eq!(Probe::Http.due_monitors(&vec![]), Vec::<usize>::new());
}

#[test]
fn every_enabled_monitor_is_taken_by_some_probe() {
    let all = [Probe::Http, Probe::Ping, Probe::Tcp, Probe::Ssl];
    for t in [MonitorType::Http, MonitorType::Https, MonitorType::Ping, MonitorType::Tcp, MonitorType::Ssl] {
        let on = monitor("x", t, true, None);
        let off = monitor("y", t, false, None);
        assert!(all.iter().any(|c| c.takes(&on)));
        assert!(!all.iter().any(|c| c.takes(&off)));
    }
}

#[test]
fn probe_intervals_follow_the_configuration() {
    let c = ServerConfig::default();
    assert_eq!(Probe::Http.interval(&c), 60);
    assert_eq!(Probe::Ping.interval(&c), 30);
    assert_eq!(Probe::Tcp.interval(&c), 60);
    assert_eq!(Probe::Ssl.interval(&c), 3600);
}

#[test]
fn http_status_classes() {
    assert_eq!(http_status(200), CheckStatus::Up);
    assert_eq!(http_status(204), CheckStatus::Up);
    assert_eq!(http_status(299), CheckStatus::Up);
    assert_eq!(http_status(301), CheckStatus::Degraded);
    assert_eq!(http_status(404), CheckStatus::Degraded);
    assert_eq!(http_status(199), CheckStatus::Degraded);
    assert_eq!(http_status(500), CheckStatus::Down);
    assert_eq!(http_status(503), CheckStatus::Down);
    assert_eq!(http_status(599), CheckStatus::Down);
    assert_eq!(http_status(600), CheckStatus::Degraded);
}

#[test]
fn http_verdicts() {
    let v = http_verdict(Ok(503));
    assert_eq!(v.status, CheckStatus::Down);
    assert_eq!(v.status_code, Some(503));
    assert_eq!(v.message, "HTTP 503");
    let v = http_verdict(Ok(200));
    assert_eq!(v.message, "HTTP 200");
    let v = http_verdict(Err("connection refused".to_string()));
    assert_eq!(v.status, CheckStatus::Down);
    assert_eq!(v.status_code, None);
    assert_eq!(v.message, "Error: connection refused");
}

#[test]
fn ping_verdicts() {
    let v = ping_verdict(Ok("12.34".to_string()));
    assert_eq!(v.status, CheckStatus::Up);
    assert_eq!(v.message, "Ping OK: 12.34ms");
    let v = ping_verdict(Err(PingFailure::NoAddress));
    assert_eq!(v.status, CheckStatus::Down);
    assert_eq!(v.message, "DNS resolution failed: no addresses");
    let v = ping_verdict(Err(PingFailure::Resolve("no such host".to_string())));
    assert_eq!(v.message, "DNS resolution failed: no such host");
    let v = ping_verdict(Err(PingFailure::Echo("timeout".to_string())));
    assert_eq!(v.message, "Ping failed: timeout");
    assert_eq!(v.status_code, None);
}

#[test]
fn tcp_ports_and_addresses() {
    assert_eq!(tcp_port(&monitor("a", MonitorType::Tcp, true, None)), 80);
    assert_eq!(tcp_port(&monitor("a", MonitorType::Tcp, true, Some(5432))), 5432);
    assert_eq!(tcp_address(&monitor("a", MonitorType::Tcp, true, Some(5432))), "example.com:5432");
    assert_eq!(tcp_address(&monitor("a", MonitorType::Tcp, true, None)), "example.com:80");
    assert_eq!(tcp_address(&monitor("a", MonitorType::Tcp, true, Some(0))), "example.com:0");
}

#[test]
fn tcp_verdicts() {
    let v = tcp_verdict(5432, Ok("1.50".to_string()));
    assert_eq!(v.status, CheckStatus::Up);
    assert_eq!(v.message, "TCP port 5432 open (1.50ms)");
    let v = tcp_verdict(80, Err(TcpFailure::Connect("refused".to_string())));
    assert_eq!(v.status, CheckStatus::Down);
    assert_eq!(v.message, "TCP connection failed: refused");
    let v = tcp_verdict(80, Err(TcpFailure::TimedOut));
    assert_eq!(v.message, "TCP connection timed out (5s)");
    assert_eq!(TCP_CONNECT_TIMEOUT_SECS, 5);
}

#[test]
fn ssl_ports() {
    assert_eq!(ssl_port(&monitor("a", MonitorType::Ssl, true, None)), 443);
    assert_eq!(ssl_port(&monitor("a", MonitorType::Ssl, true, Some(8443))), 8443);
}

#[test]
fn ssl_status_thresholds() {
    assert_eq!(ssl_status(365), CheckStatus::Up);
    assert_eq!(ssl_status(31), CheckStatus::Up);
    assert_eq!(ssl_status(30), CheckStatus::Degraded);
    assert_eq!(ssl_status(8), CheckStatus::Degraded);
    assert_eq!(ssl_status(7), CheckStatus::Down);
    assert_eq!(ssl_status(0), CheckStatus::Down);
    assert_eq!(ssl_status(-5), CheckStatus::Down);
}

#[test]
fn ssl_verdict_messages() {
    let info = SslCertInfo {
        monitor_id: String::new(),
        subject: "CN=example.com".to_string(),
        issuer: "CN=CA".to_string(),
        not_before: "Mon, 1 Jan 2024 00:00:00 +0000".to_string(),
        not_after: "Tue, 1 Apr 2025 00:00:00 +0000".to_string(),
        days_until_expiry: -12,
    };
    let v = ssl_verdict(Ok(info));
    assert_eq!(v.status, CheckStatus::Down);
    assert_eq!(v.message, "SSL cert expires in -12 days (Tue, 1 Apr 2025 00:00:00 +0000)");
}
