use zenmonitor::server::models::CheckStatus;
use zenmonitor::server::monitors::{ssl_verdict, SslFailure};
use zenmonitor::server::ssl::{extract_hostname, inspect_peer_certificates, leaf_certificate_info};

/// A self-signed root certificate (TUBITAK Kamu SM SSL Kok Sertifikasi - Surum 1),
/// valid until 2043-10-25 08:25:55 UTC, in DER.
const ROOT_DER_HEX: [&str; 24] = [
    "308204633082034ba003020102020101300d06092a864886f70d01010b05003081d2310b300906035504061302545231",
    "1830160603550407130f4765627a65202d204b6f6361656c6931423040060355040a13395475726b6979652042696c69",
    "6d73656c2076652054656b6e6f6c6f6a696b20417261737469726d61204b7572756d75202d205455424954414b312d30",
    "2b060355040b13244b616d7520536572746966696b6173796f6e204d65726b657a69202d204b616d7520534d31363034",
    "0603550403132d5455424954414b204b616d7520534d2053534c204b6f6b20536572746966696b617369202d20537572",
    "756d2031301e170d3133313132353038323535355a170d3433313032353038323535355a3081d2310b30090603550406",
    "13025452311830160603550407130f4765627a65202d204b6f6361656c6931423040060355040a13395475726b697965",
    "2042696c696d73656c2076652054656b6e6f6c6f6a696b20417261737469726d61204b7572756d75202d205455424954",
    "414b312d302b060355040b13244b616d7520536572746966696b6173796f6e204d65726b657a69202d204b616d752053",
    "4d313630340603550403132d5455424954414b204b616d7520534d2053534c204b6f6b20536572746966696b61736920",
    "2d20537572756d203130820122300d06092a864886f70d01010105000382010f003082010a0282010100af753033aabb",
    "6bd3992c123784d98d7b9780d36ee7ff9b50953e90955642d7197c26848d92fa011d3a0fe26438b78cbce888f98b24ab",
    "2ea3f537e4408e18257983751f3bff6ca8c5c656f8b4ed8a44a3ab6c4cfc1dd0dcef68bdcfe4aacef055f7a234d4836b",
    "377c1cc2feb503ec57cebcb4b5c5ed000f53372a4df44f0c83fb86cfcbfe8c4ebd87f9a78b21579c7adf0367892c9d97",
    "61a710b855907f0e2d273874dfe7fdda4e12e34d152202c8e0e0fc0fad8ad7c95450cc3b0fca168084d05156c38e567f",
    "8922332fe6850abda5a81b36ded3dc2c6d3bc713bd59232ce6e5a4f7d80bedea904044a895bb93d5d08034b646780e1f",
    "009346e1eee9f9ec4f170203010001a3423040301d0603551d0e04160414653fc78a86c63cdd3c545c35f83aed520c47",
    "57c8300e0603551d0f0101ff040403020106300f0603551d130101ff040530030101ff300d06092a864886f70d01010b",
    "050003820101002a3fe1f1328eaee1985c4b5ecf6b1e6a09d222a912c75e577d73566480847a93e409b910cd9f2a27e1",
    "0077be48c835a8819fe4b82cc97f0eb0d24b375deab9d50b5e34bdf47329c3ed26159c7e08538a588dd04b28dfc1b3df",
    "20f3f9e3e33adfcc9c94d84e4fc36b17b7f772e8ad6633b52553abe0f84ca99dfdf20dbaaeb9d9aac66bf993bbaeabb8",
    "973c031aba43c696b9457238b3a7a1963d917b7ec021534c87edf20b54955193d522a50d8af1930e3e540eb0d8c94edc",
    "f2313256ea64f9eab59d16664272f37fd3b13143fca48e17f16d23ab9466f8adfb0f086e262d7f170709b28cfb50c09f",
    "968dcfb6fd009d5a149abf0244f5c1c29f225ea20fa1e3",
];

const ROOT_NOT_AFTER: i64 = 2329374355;

fn root_der() -> Vec<u8> {
    let hex: String = ROOT_DER_HEX.concat();
    (0..hex.len() / 2)
        .map(|i| u8::from_str_radix(&hex[2 * i..2 * i + 2], 16).unwrap())
        .collect()
}

#[test]
fn hostname_of_url_targets() {
    assert_eq!(extract_hostname("https://example.com/path?q=1"), "example.com");
    assert_eq!(extract_hostname("http://10.0.0.1:8443/"), "10.0.0.1");
}

#[test]
fn hostname_of_plain_targets_is_the_target() {
    assert_eq!(extract_hostname("example.com"), "example.com");
    assert_eq!(extract_hostname("db-server"), "db-server");
}

#[test]
fn hostname_of_url_without_host_is_the_target() {
    assert_eq!(extract_hostname("example.com:443"), "example.com:443");
    assert_eq!(extract_hostname("mailto:ops@example.com"), "mailto:ops@example.com");
}

#[test]
fn no_peer_certificates() {
    assert_eq!(leaf_certificate_info(None, 0).unwrap_err(), "No peer certificates found");
    assert_eq!(inspect_peer_certificates(None).unwrap_err(), "No peer certificates found");
}

#[test]
fn empty_certificate_chain() {
    assert_eq!(leaf_certificate_info(Some(vec![]), 0).unwrap_err(), "Empty certificate chain");
    assert_eq!(inspect_peer_certificates(Some(vec![])).unwrap_err(), "Empty certificate chain");
}

#[test]
fn unparsable_leaf_certificate() {
    let e = leaf_certificate_info(Some(vec![vec![1, 2, 3]]), 0).unwrap_err();
    assert!(e.starts_with("Failed to parse certificate: "), "{}", e);
}

#[test]
fn certificate_days_until_expiry() {
    let der = root_der();
    let info = leaf_certificate_info(Some(vec![der.clone()]), ROOT_NOT_AFTER - 10 * 86400 - 5).unwrap();
    assert_eq!(info.days_until_expiry, 10);
    assert_eq!(info.monitor_id, "");
    assert!(info.subject.contains("TUBITAK Kamu SM SSL Kok Sertifikasi - Surum 1"), "{}", info.subject);
    assert_eq!(info.subject, info.issuer);
    assert!(info.not_after.contains("2043"), "{}", info.not_after);
    assert!(info.not_before.contains("2013"), "{}", info.not_before);
    let expired = leaf_certificate_info(Some(vec![der]), ROOT_NOT_AFTER + 3 * 86400 + 1).unwrap();
    assert_eq!(expired.days_until_expiry, -3);
}

#[test]
fn certificate_expiry_out_of_range() {
    let e = leaf_certificate_info(Some(vec![root_der()]), i64::MIN).unwrap_err();
    assert_eq!(e, "Certificate expiry out of range");
}

#[test]
fn certificate_checked_against_the_clock() {
    let info = inspect_peer_certificates(Some(vec![root_der()])).unwrap();
    assert!(info.days_until_expiry > 0);
    assert!(info.days_until_expiry < 20 * 366);
}

#[test]
fn ssl_verdict_thresholds_and_message() {
    let der = root_der();
    let info = leaf_certificate_info(Some(vec![der]), ROOT_NOT_AFTER - 31 * 86400).unwrap();
    let v = ssl_verdict(Ok(info));
    assert_eq!(v.status, CheckStatus::Up);
    assert!(v.message.starts_with("SSL cert expires in 31 days ("), "{}", v.message);
    assert_eq!(v.status_code, None);
}

#[test]
fn ssl_verdict_failures() {
    let v = ssl_verdict(Err(SslFailure::Check("TCP connection error: refused".to_string())));
    assert_eq!(v.status, CheckStatus::Down);
    assert_eq!(v.message, "SSL check failed: TCP connection error: refused");
    let v = ssl_verdict(Err(SslFailure::Task("panicked".to_string())));
    assert_eq!(v.message, "Task error: panicked");
}
