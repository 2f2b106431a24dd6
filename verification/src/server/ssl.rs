//! Reading a server's leaf certificate: the host to connect to, and what the
//! certificate says of its subject, issuer and validity.
use crate::server::models::SslCertInfo;
use vstd::prelude::*;

verus! {

/// What `url::Url::parse` followed by `Url::host_str` gives for `target`:
/// `None` where the text is no URL, otherwise the URL's host if it has one.
pub uninterp spec fn url_host_of(target: Seq<char>) -> Option<Option<Seq<char>>>;

/// The plain view of an optional optional string.
pub open spec fn nested_text(r: Option<Option<String>>) -> Option<Option<Seq<char>>> {
    match r {
        Some(Some(h)) => Some(Some(h@)),
        Some(None) => Some(None),
        None => None,
    }
}

/// Calls `url::Url::parse` on `target` and, where it parses, `Url::host_str`.
/// The contract names the result (`url_host_of`); URL parsing is not restated.
#[verifier::external_body]
fn parse_url_host(target: &str) -> (r: Option<Option<String>>)
    ensures
        nested_text(r) == url_host_of(target@),
{
    match url::Url::parse(target) {
        Ok(url) => match url.host_str() {
            Some(h) => Some(Some(h.to_string())),
            None => Some(None),
        },
        Err(_) => None,
    }
}

/// The host of a monitor's target: the host of the URL where the target is a
/// URL with a host, otherwise the target itself.
pub fn extract_hostname(target: &str) -> (h: String)
    ensures
        h@ == match url_host_of(target@) {
            Some(Some(host)) => host,
            _ => target@,
        },
{
    match parse_url_host(target) {
        Some(Some(host)) => host,
        _ => String::from_str(target),
    }
}

/// The fields of a parsed certificate that a check reads: subject, issuer,
/// the validity bounds written as RFC 2822 dates (or the error that writing
/// them gave), and the end of validity as a Unix timestamp.
#[derive(Debug, PartialEq)]
pub struct CertFields {
    pub subject: String,
    pub issuer: String,
    pub not_before: Result<String, String>,
    pub not_after: Result<String, String>,
    pub not_after_ts: i64,
}

/// The plain view of a text or an error text.
pub open spec fn text_result(r: Result<String, String>) -> Result<Seq<char>, Seq<char>> {
    match r {
        Ok(s) => Ok(s@),
        Err(e) => Err(e@),
    }
}

/// The plain view of a certificate parse: the fields, or the parser's error text.
pub open spec fn cert_parse_view(r: Result<CertFields, String>) -> Result<
    (Seq<char>, Seq<char>, Result<Seq<char>, Seq<char>>, Result<Seq<char>, Seq<char>>, i64),
    Seq<char>,
> {
    match r {
        Ok(f) => Ok(
            (f.subject@, f.issuer@, text_result(f.not_before), text_result(f.not_after), f.not_after_ts),
        ),
        Err(e) => Err(e@),
    }
}

/// What `x509_parser::parse_x509_certificate` gives for the DER bytes `der`,
/// read as `cert_parse_view` lays it out.
pub uninterp spec fn x509_leaf_of(der: Seq<u8>) -> Result<
    (Seq<char>, Seq<char>, Result<Seq<char>, Seq<char>>, Result<Seq<char>, Seq<char>>, i64),
    Seq<char>,
>;

/// Calls `x509_parser::parse_x509_certificate` on `der` and reads the parsed
/// certificate's subject and issuer (`Display`), its validity bounds
/// (`ASN1Time::to_rfc2822`) and the end of validity (`ASN1Time::timestamp`);
/// a parse error is written with `Debug`. The contract names the result
/// (`x509_leaf_of`); X.509 parsing is not restated.
#[verifier::external_body]
fn parse_leaf_certificate(der: &[u8]) -> (r: Result<CertFields, String>)
    ensures
        cert_parse_view(r) == x509_leaf_of(der@),
{
    match x509_parser::parse_x509_certificate(der) {
        Ok((_, cert)) => Ok(CertFields {
            subject: cert.subject().to_string(),
            issuer: cert.issuer().to_string(),
            not_before: cert.validity().not_before.to_rfc2822(),
            not_after: cert.validity().not_after.to_rfc2822(),
            not_after_ts: cert.validity().not_after.timestamp(),
        }),
        Err(e) => Err(format!("{:?}", e)),
    }
}

/// A Unix time, in seconds, that chrono can represent: `DateTime::from_timestamp`
/// gives a date only for years -262143 to 262142, less than 2^43 seconds
/// either side of 1970.
pub open spec fn is_clock_reading(t: int) -> bool {
    -8_796_093_022_208 < t < 8_796_093_022_208
}

/// Calls `chrono::Utc::now().timestamp()`: the current Unix time, in seconds.
/// The value is the clock's; what is claimed is its range: `Utc::now` unwraps
/// `DateTime::from_timestamp`, which returns a date only within chrono's years
/// (see `is_clock_reading`), and `timestamp` gives back those seconds.
#[verifier::external_body]
fn unix_time_now() -> (t: i64)
    ensures
        is_clock_reading(t as int),
{
    chrono::Utc::now().timestamp()
}

/// `a / b` rounded toward zero, as Rust's integer division is.
pub open spec fn div_toward_zero(a: int, b: int) -> int {
    if a >= 0 {
        a / b
    } else {
        -((-a) / b)
    }
}

/// The whole days from the clock reading `now` to the end of validity `ts`,
/// rounded toward zero (negative once expired).
pub open spec fn days_left_at(ts: i64, now: i64) -> int {
    div_toward_zero(ts - now, 86400)
}

/// A date as written, or `unknown` where it could not be written.
pub open spec fn date_or_unknown(r: Result<String, String>) -> Seq<char> {
    match r {
        Ok(s) => s@,
        Err(_) => "unknown"@,
    }
}

/// The seconds from `now` to the end of validity fit in an `i64`.
pub open spec fn expiry_in_range(not_after_ts: i64, now: i64) -> bool {
    i64::MIN <= not_after_ts - now <= i64::MAX
}

/// What a check reports of a certificate at the time `now`: its subject,
/// issuer and validity dates (`unknown` where a date could not be written),
/// and the whole days left until it expires, rounded toward zero (negative
/// once expired). The monitor is not filled in.
pub fn certificate_facts(fields: CertFields, now: i64) -> (info: SslCertInfo)
    requires
        expiry_in_range(fields.not_after_ts, now),
    ensures
        info.monitor_id@ == Seq::<char>::empty(),
        info.subject@ == fields.subject@,
        info.issuer@ == fields.issuer@,
        info.not_before@ == date_or_unknown(fields.not_before),
        info.not_after@ == date_or_unknown(fields.not_after),
        info.days_until_expiry == days_left_at(fields.not_after_ts, now),
{
    let not_before = match fields.not_before {
        Ok(s) => s,
        Err(_) => String::from_str("unknown"),
    };
    let not_after = match fields.not_after {
        Ok(s) => s,
        Err(_) => String::from_str("unknown"),
    };
    let days = (fields.not_after_ts - now) / 86400;
    SslCertInfo {
        monitor_id: String::new(),
        subject: fields.subject,
        issuer: fields.issuer,
        not_before,
        not_after,
        days_until_expiry: days,
    }
}

/// `r` is the error with the message `msg`.
pub open spec fn fails_with(r: Result<SslCertInfo, String>, msg: Seq<char>) -> bool {
    match r {
        Err(e) => e@ == msg,
        Ok(_) => false,
    }
}

/// What the leaf certificate among the peer certificates `certs` (DER, leaf
/// first) says at the time `now`. Errors: no certificates, an empty chain, a
/// leaf that does not parse, and an end of validity so far from `now` that
/// the seconds between them leave the `i64` range.
pub fn leaf_certificate_info(certs: Option<Vec<Vec<u8>>>, now: i64) -> (r: Result<
    SslCertInfo,
    String,
>)
    ensures
        match certs {
            None => fails_with(r, "No peer certificates found"@),
            Some(cs) => if cs@.len() == 0 {
                fails_with(r, "Empty certificate chain"@)
            } else {
                match x509_leaf_of(cs@[0]@) {
                    Err(e) => fails_with(r, "Failed to parse certificate: "@ + e),
                    Ok(f) => if expiry_in_range(f.4, now) {
                        r matches Ok(info) && info.monitor_id@ == Seq::<char>::empty()
                            && info.subject@ == f.0 && info.issuer@ == f.1 && info.not_before@ == (
                        match f.2 {
                            Ok(s) => s,
                            Err(_) => "unknown"@,
                        }) && info.not_after@ == (match f.3 {
                            Ok(s) => s,
                            Err(_) => "unknown"@,
                        }) && info.days_until_expiry == days_left_at(f.4, now)
                    } else {
                        fails_with(r, "Certificate expiry out of range"@)
                    },
                }
            },
        },
{
    let cs = match certs {
        Some(cs) => cs,
        None => {
            return Err(String::from_str("No peer certificates found"));
        },
    };
    if cs.len() == 0 {
        return Err(String::from_str("Empty certificate chain"));
    }
    match parse_leaf_certificate(cs[0].as_slice()) {
        Err(e) => Err(String::from_str("Failed to parse certificate: ").concat(e.as_str())),
        Ok(fields) => {
            let ts = fields.not_after_ts;
            if (now >= 0 && ts < i64::MIN + now) || (now < 0 && ts > i64::MAX + now) {
                Err(String::from_str("Certificate expiry out of range"))
            } else {
                Ok(certificate_facts(fields, now))
            }
        },
    }
}

/// The seconds from every clock reading to `ts` fit in an `i64`: `ts` lies at
/// least 2^43 seconds inside the `i64` range.
pub open spec fn expiry_fits_any_reading(ts: i64) -> bool {
    i64::MIN + 8_796_093_022_208 <= ts <= i64::MAX - 8_796_093_022_208
}

/// What the leaf certificate among `certs` says now (the clock is read once).
/// Which error comes, and the subject, issuer and dates, do not depend on the
/// clock; the days left are those from some clock reading `t` (the one taken).
/// The range error comes only for a reading too far from the end of validity,
/// so never for an end of validity that `expiry_fits_any_reading`.
pub fn inspect_peer_certificates(certs: Option<Vec<Vec<u8>>>) -> (r: Result<SslCertInfo, String>)
    ensures
        match certs {
            None => fails_with(r, "No peer certificates found"@),
            Some(cs) => if cs@.len() == 0 {
                fails_with(r, "Empty certificate chain"@)
            } else {
                match x509_leaf_of(cs@[0]@) {
                    Err(e) => fails_with(r, "Failed to parse certificate: "@ + e),
                    Ok(f) => (fails_with(r, "Certificate expiry out of range"@) && exists|t: i64|
                        is_clock_reading(t as int) && !#[trigger] expiry_in_range(f.4, t)) || (r matches Ok(info) && info.monitor_id@ == Seq::<char>::empty()
                        && info.subject@ == f.0 && info.issuer@ == f.1 && info.not_before@ == (
                    match f.2 {
                        Ok(s) => s,
                        Err(_) => "unknown"@,
                    }) && info.not_after@ == (match f.3 {
                        Ok(s) => s,
                        Err(_) => "unknown"@,
                    }) && exists|t: i64|
                        is_clock_reading(t as int) && #[trigger] expiry_in_range(f.4, t)
                            && days_left_at(f.4, t) == info.days_until_expiry),
                }
            },
        },
        match certs {
            Some(cs) => cs@.len() > 0 && x509_leaf_of(cs@[0]@) is Ok && expiry_fits_any_reading(
                x509_leaf_of(cs@[0]@)->Ok_0.4,
            ) ==> r is Ok,
            None => true,
        },
{
    let now = unix_time_now();
    let ghost given = certs;
    let r = leaf_certificate_info(certs, now);
    proof {
        if given is Some && given.unwrap()@.len() > 0 {
            match x509_leaf_of(given.unwrap()@[0]@) {
                Ok(f) => {
                    assert(expiry_in_range(f.4, now) || !expiry_in_range(f.4, now));
                },
                Err(_) => {},
            }
        }
    }
    r
}


/// The days left are the whole days in the seconds between the clock reading
/// and the end of validity, rounded toward zero: before expiry they count the
/// complete days remaining, after it (negated) the complete days since.
pub proof fn lemma_days_left_are_whole_days(ts: i64, now: i64)
    ensures
        ts >= now ==> days_left_at(ts, now) >= 0 && days_left_at(ts, now) * 86400 <= ts - now && ts
            - now < (days_left_at(ts, now) + 1) * 86400,
        ts < now ==> days_left_at(ts, now) <= 0 && (days_left_at(ts, now) - 1) * 86400 < ts - now
            && ts - now <= days_left_at(ts, now) * 86400,
{
    let d = ts - now;
    if d >= 0 {
        assert((d / 86400) * 86400 <= d && d < (d / 86400 + 1) * 86400) by (nonlinear_arith)
            requires
                d >= 0,
        ;
    } else {
        let e = -d;
        assert((e / 86400) * 86400 <= e && e < (e / 86400 + 1) * 86400 && e / 86400 >= 0) by (nonlinear_arith)
            requires
                e > 0,
        ;
    }
}

} // verus!
