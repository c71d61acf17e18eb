//! Building update requests and capturing responses as plain values.
use vstd::prelude::*;

use base64::Engine;
use std::time::{Duration, SystemTime, SystemTimeError};

use crate::types::{DomainResult, ResponseJson};

verus! {

#[verifier::external_type_specification]
#[verifier::external_body]
pub struct ExSystemTime(SystemTime);

#[verifier::external_type_specification]
#[verifier::external_body]
pub struct ExSystemTimeError(SystemTimeError);

/// What `str::trim` gives: the text without leading and trailing whitespace.
pub uninterp spec fn trim_of(s: Seq<char>) -> Seq<char>;

/// What base64's standard engine, with padding, gives for the UTF-8 bytes of a text.
pub uninterp spec fn base64_of(s: Seq<char>) -> Seq<char>;

/// Relies on `str::trim`: leading and trailing whitespace removed.
#[verifier::external_body]
pub(crate) fn trim_text(s: &str) -> (r: String)
    ensures
        r@ == trim_of(s@),
{
    s.trim().to_string()
}

/// Relies on base64's `general_purpose::STANDARD.encode` over the text's bytes.
#[verifier::external_body]
fn encode_base64(s: &str) -> (r: String)
    ensures
        r@ == base64_of(s@),
{
    base64::engine::general_purpose::STANDARD.encode(s.as_bytes())
}

/// Relies on `SystemTime::now`: the time of the call, nothing more is known.
pub assume_specification[ SystemTime::now ]() -> SystemTime;

/// Relies on `Duration::as_millis`: whole milliseconds of a duration.
pub assume_specification[ Duration::as_millis ](d: &Duration) -> u128;

/// Relies on `SystemTime::duration_since(UNIX_EPOCH)`: the time elapsed since
/// the epoch, or an error for a time before it.
#[verifier::external_body]
fn since_unix_epoch(t: &SystemTime) -> (r: Result<Duration, SystemTimeError>) {
    t.duration_since(SystemTime::UNIX_EPOCH)
}

/// Client identifier sent as `User-Agent` with update requests.
pub open spec fn client_id() -> Seq<char> {
    "update_ip/0.1"@
}

/// Decimal digit `d` as a character.
pub open spec fn digit_char(d: nat) -> char {
    "0123456789"@[d as int]
}

/// Decimal notation of `n`, without leading zeros.
pub open spec fn decimal(n: nat) -> Seq<char>
    decreases n,
{
    if n < 10 {
        seq![digit_char(n)]
    } else {
        decimal(n / 10).push(digit_char(n % 10))
    }
}

/// Port used when a url names none: 80 for `http`, 443 otherwise.
pub open spec fn default_port(scheme: Option<Seq<char>>) -> nat {
    if scheme == Some("http"@) {
        80
    } else {
        443
    }
}

/// `host:port` with the explicit port or the scheme's default.
pub open spec fn authority_of(host: Seq<char>, scheme: Option<Seq<char>>, port: Option<u16>) -> Seq<char> {
    let p = match port {
        Some(p) => p as nat,
        None => default_port(scheme),
    };
    host + ":"@ + decimal(p)
}

/// Value of the `Authorization` header for these credentials.
pub open spec fn basic_auth(username: Seq<char>, password: Seq<char>) -> Seq<char> {
    "Basic "@ + base64_of(username + ":"@ + password)
}

/// dyndns2 update url of `hostname` to `address` at `service_domain`.
pub open spec fn update_url(service_domain: Seq<char>, address: Seq<char>, hostname: Seq<char>) -> Seq<char> {
    "https://"@ + service_domain + "/nic/update?hostname="@ + hostname + "&myip="@ + address
}

/// The headers whose value is text, in order, with their values.
pub open spec fn text_headers(raw: Seq<(String, Option<String>)>) -> Seq<(String, String)>
    decreases raw.len(),
{
    if raw.len() == 0 {
        seq![]
    } else {
        let rest = text_headers(raw.drop_last());
        match raw.last().1 {
            Some(v) => rest.push((raw.last().0, v)),
            None => rest,
        }
    }
}

/// An update request as plain values: where to send it and its headers.
pub struct Dyndns2Request {
    pub url: String,
    pub authorization: String,
    pub user_agent: String,
}

fn digit_text(d: u16) -> (r: &'static str)
    requires
        d < 10,
    ensures
        r@ == seq![digit_char(d as nat)],
{
    let digits = "0123456789";
    proof {
        reveal_strlit("0123456789");
    }
    let r = digits.substring_char(d as usize, d as usize + 1);
    assert(r@ =~= seq![digit_char(d as nat)]);
    r
}

/// Decimal notation of a port number.
pub fn decimal_text(n: u16) -> (r: String)
    ensures
        r@ == decimal(n as nat),
    decreases n,
{
    let d = digit_text(n % 10);
    if n < 10 {
        String::from_str(d)
    } else {
        let head = decimal_text(n / 10);
        let r = head.concat(d);
        assert(r@ =~= decimal(n as nat));
        r
    }
}

fn text_equals(a: &str, b: &str) -> (r: bool)
    ensures
        r == (a@ == b@),
{
    String::from_str(a) == String::from_str(b)
}

/// The host to connect to and the `host:port` authority, from the parts of a
/// url. No host gives nothing; a missing port is 80 for `http`, else 443.
pub fn create_host_and_authority(host: Option<&str>, scheme: Option<&str>, port: Option<u16>) -> (r: Option<(String, String)>)
    ensures
        host is None ==> r is None,
        host matches Some(h) ==> r matches Some(p) && p.0@ == h@ && p.1@ == authority_of(
            h@,
            match scheme {
                Some(s) => Some(s@),
                None => None,
            },
            port,
        ),
{
    let h = match host {
        Some(h) => h,
        None => return None,
    };
    let port_number: u16 = match port {
        Some(p) => p,
        None => match scheme {
            Some(s) => {
                proof {
                    reveal_strlit("http");
                }
                if text_equals(s, "http") {
                    80
                } else {
                    443
                }
            },
            None => 443,
        },
    };
    let authority = String::from_str(h).concat(":").concat(decimal_text(port_number).as_str());
    Some((String::from_str(h), authority))
}

/// `"Basic "` followed by the base64 of `username:password`.
pub fn basic_auth_value(username: &str, password: &str) -> (r: String)
    ensures
        r@ == basic_auth(username@, password@),
{
    let credentials = String::from_str(username).concat(":").concat(password);
    let encoded = encode_base64(credentials.as_str());
    String::from_str("Basic ").concat(encoded.as_str())
}

/// The dyndns2 update request for one record: its url, `Authorization` and
/// `User-Agent` values. Hostname and address are taken verbatim.
pub fn get_https_dyndns2_subset_request(
    service_domain: &str,
    ip_addr: &str,
    hostname: &str,
    username: &str,
    password: &str,
) -> (r: Dyndns2Request)
    ensures
        r.url@ == update_url(service_domain@, ip_addr@, hostname@),
        r.authorization@ == basic_auth(username@, password@),
        r.user_agent@ == client_id(),
{
    let url = String::from_str("https://").concat(service_domain).concat(
        "/nic/update?hostname=",
    ).concat(hostname).concat("&myip=").concat(ip_addr);
    Dyndns2Request {
        url,
        authorization: basic_auth_value(username, password),
        user_agent: String::from_str("update_ip/0.1"),
    }
}

/// Keeps the headers whose value is text, in order; the others are dropped.
pub fn keep_text_headers(raw: &Vec<(String, Option<String>)>) -> (r: Vec<(String, String)>)
    ensures
        r@ == text_headers(raw@),
{
    let mut headers: Vec<(String, String)> = Vec::new();
    let mut i: usize = 0;
    while i < raw.len()
        invariant
            0 <= i <= raw@.len(),
            headers@ == text_headers(raw@.subrange(0, i as int)),
        decreases raw@.len() - i,
    {
        assert(raw@.subrange(0, i as int + 1).drop_last() =~= raw@.subrange(0, i as int));
        let (key, value) = &raw[i];
        match value {
            Some(v) => headers.push((key.clone(), v.clone())),
            None => {},
        }
        i = i + 1;
    }
    assert(raw@.subrange(0, raw@.len() as int) =~= raw@);
    headers
}

/// Milliseconds since the Unix epoch, or the clock's error as text.
pub fn get_timestamp() -> (r: Result<u128, String>) {
    let now = SystemTime::now();
    match since_unix_epoch(&now) {
        Ok(n) => Ok(n.as_millis()),
        Err(e) => Err(e.to_string()),
    }
}

/// A response as plain values: status, text headers, trimmed body and the
/// capture time. A clock error comes first, then a body error.
pub fn convert_response_parts(
    status_code: u16,
    raw_headers: &Vec<(String, Option<String>)>,
    body: Result<String, String>,
    timestamp: Result<u128, String>,
) -> (r: Result<ResponseJson, String>)
    ensures
        match (timestamp, body) {
            (Err(e), _) => r == Err::<ResponseJson, String>(e),
            (Ok(_), Err(e)) => r == Err::<ResponseJson, String>(e),
            (Ok(t), Ok(b)) => r matches Ok(j) && j.status_code == status_code && j.body@ == trim_of(
                b@,
            ) && j.headers@ == text_headers(raw_headers@) && j.timestamp == t,
        },
{
    let timestamp = match timestamp {
        Ok(n) => n,
        Err(e) => return Err(e),
    };
    let headers = keep_text_headers(raw_headers);
    let body = match body {
        Ok(b) => trim_text(b.as_str()),
        Err(e) => return Err(e),
    };
    Ok(ResponseJson { status_code, body, headers, timestamp })
}

/// The result of updating `hostname`: the response, or the error that
/// prevented it.
pub fn create_domain_result(hostname: &str, outcome: Result<ResponseJson, String>) -> (r: DomainResult)
    ensures
        r.hostname@ == hostname@,
        match outcome {
            Ok(j) => r.response == Some(j) && r.errors@.len() == 0,
            Err(e) => r.response is None && r.errors@ == seq![e],
        },
{
    let mut errors: Vec<String> = Vec::new();
    let response = match outcome {
        Ok(j) => Some(j),
        Err(e) => {
            errors.push(e);
            None
        },
    };
    assert(errors@ =~= match outcome {
        Ok(_) => Seq::<String>::empty(),
        Err(e) => seq![e],
    });
    DomainResult { hostname: String::from_str(hostname), response, errors }
}

} // verus!
