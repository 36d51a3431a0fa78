//! The decisions behind the JSON API: which targets may be scanned (SSRF
//! defence), who may read the history, how requests are throttled, what an
//! error answers, and what the free tier of a report shows.

pub mod client;
pub mod gate;
pub mod public;
pub mod rate_limiter;

pub use public::{PublicScanReport, Upgrade};
pub use rate_limiter::{ClientIp, RateLimiter};

use vstd::prelude::*;

use crate::target::{
    host_port_of, ipv4_of, parse_ipv4, split_target, split_target_chars, TargetError, TargetFault,
};
use crate::text::{
    chars_of, decimal, ends_with_str, eq_str, is_ascii_alphanumeric, lower_chars, owned,
    push_chars, push_decimal, push_str, split_chars, split_on, string_of, to_lower, trim,
    trim_chars, utf8_len, utf8_len_chars, char_is_alphanumeric,
};

verus! {

/// Requests each client may make per window.
pub const RATE_LIMIT_MAX_REQUESTS: usize = 10;
/// Length of the rate-limit window, in seconds.
pub const RATE_LIMIT_WINDOW_SECS: u64 = 60;
/// Wall-clock limit on one scan, in seconds.
pub const SCAN_TIMEOUT_SECS: u64 = 30;
/// Seconds between prunes of the rate limiter.
pub const RATE_LIMIT_CLEANUP_INTERVAL_SECS: u64 = 120;
/// Scans that may run at the same time across all clients.
pub const MAX_CONCURRENT_SCANS: usize = 20;
/// Seconds a cached scan result is served without re-scanning.
pub const SCAN_CACHE_TTL_SECS: u64 = 300;
/// Largest request body accepted, in bytes.
pub const MAX_BODY_BYTES: usize = 4096;
/// Scan requests accepted per minute across all clients.
pub const GLOBAL_SCAN_CEILING: usize = 120;
/// Throttled requests after which a client is banned.
pub const REPEAT_OFFENDER_THRESHOLD: usize = 3;
/// Seconds a banned client stays banned.
pub const REPEAT_OFFENDER_BAN_SECS: u64 = 3600;
/// Rows a history endpoint returns by default.
pub const HISTORY_DEFAULT_LIMIT: i64 = 50;
/// Most rows a history endpoint returns.
pub const HISTORY_MAX_LIMIT: i64 = 500;
/// Longest target accepted, in bytes.
pub const MAX_TARGET_BYTES: usize = 253;

/// Why an API request was refused.
#[derive(Clone, Debug)]
pub enum ApiError {
    InvalidTarget(String),
    Unauthorized,
    RateLimited,
    ServerBusy,
    ScanTimeout,
    Internal(String),
}

impl ApiError {
    /// The error that stands for any internal fault; its message gives no detail.
    pub fn internal() -> (res: ApiError)
        ensures
            res matches ApiError::Internal(m) && m@ == "internal server error"@,
    {
        ApiError::Internal(owned("internal server error"))
    }

    /// HTTP status answered for this error.
    pub fn status_code(&self) -> (res: u16)
        ensures
            res == match self {
                ApiError::InvalidTarget(_) => 400u16,
                ApiError::Unauthorized => 401u16,
                ApiError::RateLimited => 429u16,
                ApiError::ServerBusy => 503u16,
                ApiError::ScanTimeout => 504u16,
                ApiError::Internal(_) => 500u16,
            },
    {
        match self {
            ApiError::InvalidTarget(_) => 400,
            ApiError::Unauthorized => 401,
            ApiError::RateLimited => 429,
            ApiError::ServerBusy => 503,
            ApiError::ScanTimeout => 504,
            ApiError::Internal(_) => 500,
        }
    }

    /// Machine-readable error code of the JSON body.
    pub fn error_code(&self) -> (res: &'static str)
        ensures
            res@ == match self {
                ApiError::InvalidTarget(_) => "invalid_target"@,
                ApiError::Unauthorized => "unauthorized"@,
                ApiError::RateLimited => "rate_limited"@,
                ApiError::ServerBusy => "server_busy"@,
                ApiError::ScanTimeout => "scan_timeout"@,
                ApiError::Internal(_) => "internal_error"@,
            },
    {
        match self {
            ApiError::InvalidTarget(_) => "invalid_target",
            ApiError::Unauthorized => "unauthorized",
            ApiError::RateLimited => "rate_limited",
            ApiError::ServerBusy => "server_busy",
            ApiError::ScanTimeout => "scan_timeout",
            ApiError::Internal(_) => "internal_error",
        }
    }

    /// Human-readable message of the JSON body.
    pub fn message(&self) -> (res: String)
        ensures
            res@ == match self {
                ApiError::InvalidTarget(m) => m@,
                ApiError::Unauthorized => "valid Authorization: Bearer <token> header required"@,
                ApiError::RateLimited => "rate limit: "@ + decimal(RATE_LIMIT_MAX_REQUESTS as nat)
                    + " requests per "@ + decimal(RATE_LIMIT_WINDOW_SECS as nat) + " seconds"@,
                ApiError::ServerBusy => "server is handling "@ + decimal(MAX_CONCURRENT_SCANS as nat)
                    + " concurrent scans; retry shortly"@,
                ApiError::ScanTimeout => "scan exceeded "@ + decimal(SCAN_TIMEOUT_SECS as nat)
                    + " seconds"@,
                ApiError::Internal(m) => m@,
            },
    {
        match self {
            ApiError::InvalidTarget(m) => m.clone(),
            ApiError::Unauthorized => owned("valid Authorization: Bearer <token> header required"),
            ApiError::RateLimited => {
                let mut s = owned("rate limit: ");
                push_decimal(&mut s, RATE_LIMIT_MAX_REQUESTS as u64);
                push_str(&mut s, " requests per ");
                push_decimal(&mut s, RATE_LIMIT_WINDOW_SECS);
                push_str(&mut s, " seconds");
                s
            },
            ApiError::ServerBusy => {
                let mut s = owned("server is handling ");
                push_decimal(&mut s, MAX_CONCURRENT_SCANS as u64);
                push_str(&mut s, " concurrent scans; retry shortly");
                s
            },
            ApiError::ScanTimeout => {
                let mut s = owned("scan exceeded ");
                push_decimal(&mut s, SCAN_TIMEOUT_SECS);
                push_str(&mut s, " seconds");
                s
            },
            ApiError::Internal(m) => m.clone(),
        }
    }
}

// ─────────────────────────── target validation ───────────────────────────

/// One DNS label: 1–63 bytes of ASCII letters, digits and hyphens, not
/// starting or ending with a hyphen.
pub open spec fn valid_label(l: Seq<char>) -> bool {
    &&& l.len() > 0
    &&& utf8_len(l) <= 63
    &&& l[0] != '-'
    &&& l.last() != '-'
    &&& forall|i: int| 0 <= i < l.len() ==> is_ascii_alphanumeric(#[trigger] l[i]) || l[i] == '-'
}

/// A non-empty host of at most 253 bytes that is an IPv4 literal or a
/// dot-separated list of valid labels.
pub open spec fn valid_hostname_or_ip(h: Seq<char>) -> bool {
    &&& h.len() > 0
    &&& utf8_len(h) <= 253
    &&& (ipv4_of(h) is Some || forall|i: int|
        0 <= i < split_on(h, '.').len() ==> valid_label(#[trigger] split_on(h, '.')[i]))
}

/// Names that resolve to the local machine or to non-routable space.
pub open spec fn hostname_disallowed(h: Seq<char>) -> bool {
    let l = to_lower(h);
    ||| l == "localhost"@
    ||| l == "localhost.localdomain"@
    ||| l == "ip6-localhost"@
    ||| l == "ip6-loopback"@
    ||| l == "broadcasthost"@
    ||| ".localhost"@.is_suffix_of(l)
    ||| ".local"@.is_suffix_of(l)
    ||| ".internal"@.is_suffix_of(l)
    ||| ".lan"@.is_suffix_of(l)
    ||| ".home"@.is_suffix_of(l)
    ||| ".corp"@.is_suffix_of(l)
}

/// IPv4 addresses that are not public: loopback, private, link-local,
/// broadcast, documentation, unspecified, multicast, CGNAT (100.64/10),
/// IETF protocol assignments (192.0.0/24), benchmarking (198.18/15) and
/// reserved (240/4).
pub open spec fn ipv4_disallowed(a: u8, b: u8, c: u8, d: u8) -> bool {
    ||| a == 127
    ||| a == 10
    ||| (a == 172 && 16 <= b <= 31)
    ||| (a == 192 && b == 168)
    ||| (a == 169 && b == 254)
    ||| (a == 255 && b == 255 && c == 255 && d == 255)
    ||| (a == 192 && b == 0 && c == 2)
    ||| (a == 198 && b == 51 && c == 100)
    ||| (a == 203 && b == 0 && c == 113)
    ||| (a == 0 && b == 0 && c == 0 && d == 0)
    ||| (224 <= a <= 239)
    ||| (a == 100 && 64 <= b <= 127)
    ||| (a == 192 && b == 0 && c == 0)
    ||| (a == 198 && (b == 18 || b == 19))
    ||| a >= 240
}

/// The port to scan: an explicit override, else the inline port, else 443.
pub open spec fn chosen_port(port_override: Option<u16>, inline: Option<u16>) -> u16 {
    match port_override {
        Some(p) => p,
        None => match inline {
            Some(p) => p,
            None => 443,
        },
    }
}

/// The message for a target that could not be split into host and port.
pub open spec fn split_message(f: TargetFault) -> Seq<char> {
    match f {
        TargetFault::Empty => "target is required"@,
        TargetFault::NoHost => "target host is empty"@,
        TargetFault::Ipv6Unsupported => "IPv6 literals not supported in v1"@,
        TargetFault::InvalidPort(p) => "invalid port: "@ + p,
        TargetFault::ZeroPort => "port must be > 0"@,
    }
}

/// The verdict on a target submitted to the API: the host and port to scan,
/// or the message explaining why the target is refused.
pub open spec fn target_verdict(raw: Seq<char>, port_override: Option<u16>) -> Result<
    (Seq<char>, u16),
    Seq<char>,
> {
    let t = trim(raw);
    if t.len() == 0 {
        Err("target is required"@)
    } else if utf8_len(t) > 253 {
        Err("target exceeds 253 characters"@)
    } else {
        match split_target(t) {
            Err(f) => Err(split_message(f)),
            Ok((host, inline)) => if !valid_hostname_or_ip(host) {
                Err("invalid host: "@ + host)
            } else {
                match ipv4_of(host) {
                    Some((a, b, c, d)) => if ipv4_disallowed(a, b, c, d) {
                        Err("target "@ + host + " is a private / reserved address"@)
                    } else {
                        Ok((host, chosen_port(port_override, inline)))
                    },
                    None => if hostname_disallowed(host) {
                        Err("hostname "@ + host + " resolves to a private network"@)
                    } else {
                        Ok((host, chosen_port(port_override, inline)))
                    },
                }
            },
        }
    }
}

/// Normalises a submitted target into `(host, port)` and refuses anything
/// that is malformed or names a private, loopback, link-local or reserved
/// address, so that the API cannot be pointed at internal infrastructure.
pub fn validate_target(raw: &str, port_override: Option<u16>) -> (res: Result<(String, u16), ApiError>)
    ensures
        res matches Ok((h, p)) ==> target_verdict(raw@, port_override) == Ok::<(Seq<char>, u16), Seq<char>>((h@, p)),
        res matches Err(e) ==> e matches ApiError::InvalidTarget(m) && target_verdict(raw@, port_override) == Err::<(Seq<char>, u16), Seq<char>>(m@),
{
    let raw_chars = chars_of(raw);
    let t = trim_chars(raw_chars.as_slice());
    if t.len() == 0 {
        return Err(ApiError::InvalidTarget(owned("target is required")));
    }
    if utf8_len_chars(t.as_slice()) > MAX_TARGET_BYTES {
        return Err(ApiError::InvalidTarget(owned("target exceeds 253 characters")));
    }
    let (host, inline) = match split_target_chars(t.as_slice()) {
        Ok(pair) => pair,
        Err(e) => {
            let m = match e {
                TargetError::Empty => owned("target is required"),
                TargetError::NoHost => owned("target host is empty"),
                TargetError::Ipv6Unsupported => owned("IPv6 literals not supported in v1"),
                TargetError::InvalidPort(p) => {
                    let mut s = owned("invalid port: ");
                    push_str(&mut s, p.as_str());
                    s
                },
                TargetError::ZeroPort => owned("port must be > 0"),
            };
            return Err(ApiError::InvalidTarget(m));
        },
    };
    if !is_valid_hostname_or_ip(host.as_slice()) {
        let mut s = owned("invalid host: ");
        push_chars(&mut s, host.as_slice());
        return Err(ApiError::InvalidTarget(s));
    }
    let port = match port_override {
        Some(p) => p,
        None => match inline {
            Some(p) => p,
            None => 443,
        },
    };
    match parse_ipv4(host.as_slice()) {
        Some((a, b, c, d)) => {
            if is_disallowed_ipv4(a, b, c, d) {
                let mut s = owned("target ");
                push_chars(&mut s, host.as_slice());
                push_str(&mut s, " is a private / reserved address");
                return Err(ApiError::InvalidTarget(s));
            }
        },
        None => {
            if is_disallowed_hostname(host.as_slice()) {
                let mut s = owned("hostname ");
                push_chars(&mut s, host.as_slice());
                push_str(&mut s, " resolves to a private network");
                return Err(ApiError::InvalidTarget(s));
            }
        },
    }
    Ok((string_of(host.as_slice()), port))
}

fn is_valid_label(l: &[char]) -> (res: bool)
    ensures
        res == valid_label(l@),
{
    if l.len() == 0 || utf8_len_chars(l) > 63 {
        return false;
    }
    if l[0] == '-' || l[l.len() - 1] == '-' {
        return false;
    }
    for i in 0..l.len()
        invariant
            forall|j: int| 0 <= j < i ==> is_ascii_alphanumeric(#[trigger] l@[j]) || l@[j] == '-',
    {
        if !(char_is_alphanumeric(l[i]) || l[i] == '-') {
            return false;
        }
    }
    true
}

/// A cheap sanity check on a host: an IPv4 literal, or labels of letters,
/// digits and hyphens. Nothing is resolved.
fn is_valid_hostname_or_ip(host: &[char]) -> (res: bool)
    ensures
        res == valid_hostname_or_ip(host@),
{
    if host.len() == 0 || utf8_len_chars(host) > MAX_TARGET_BYTES {
        return false;
    }
    let ip = parse_ipv4(host);
    if ip.is_some() {
        return true;
    }
    assert(ipv4_of(host@) is None);
    let labels = split_chars(host, '.');
    let ghost views = labels@.map_values(|p: Vec<char>| p@);
    for i in 0..labels.len()
        invariant
            views == labels@.map_values(|p: Vec<char>| p@),
            views == split_on(host@, '.'),
            ipv4_of(host@) is None,
            host@.len() > 0,
            utf8_len(host@) <= 253,
            forall|j: int| 0 <= j < i ==> valid_label(#[trigger] views[j]),
    {
        assert(views[i as int] == labels@[i as int]@);
        if !is_valid_label(labels[i].as_slice()) {
            assert(!valid_label(split_on(host@, '.')[i as int]));
            return false;
        }
    }
    true
}

/// Whether a host name is local or internal (`localhost`, `*.local`, ...).
fn is_disallowed_hostname(host: &[char]) -> (res: bool)
    ensures
        res == hostname_disallowed(host@),
{
    let lower = lower_chars(host);
    let l = lower.as_slice();
    eq_str(l, "localhost") || eq_str(l, "localhost.localdomain") || eq_str(l, "ip6-localhost")
        || eq_str(l, "ip6-loopback") || eq_str(l, "broadcasthost") || ends_with_str(
        l,
        ".localhost",
    ) || ends_with_str(l, ".local") || ends_with_str(l, ".internal") || ends_with_str(l, ".lan")
        || ends_with_str(l, ".home") || ends_with_str(l, ".corp")
}

/// Whether an IPv4 address is private, loopback, link-local or reserved.
pub fn is_disallowed_ipv4(a: u8, b: u8, c: u8, d: u8) -> (res: bool)
    ensures
        res == ipv4_disallowed(a, b, c, d),
{
    a == 127 || a == 10 || (a == 172 && 16 <= b && b <= 31) || (a == 192 && b == 168) || (a == 169
        && b == 254) || (a == 255 && b == 255 && c == 255 && d == 255) || (a == 192 && b == 0 && c
        == 2) || (a == 198 && b == 51 && c == 100) || (a == 203 && b == 0 && c == 113) || (a == 0
        && b == 0 && c == 0 && d == 0) || (224 <= a && a <= 239) || (a == 100 && 64 <= b && b
        <= 127) || (a == 192 && b == 0 && c == 0) || (a == 198 && (b == 18 || b == 19)) || a >= 240
}

/// Accepted targets are public: an accepted IPv4 literal is outside every
/// private, loopback, link-local and reserved range, an accepted name is not
/// a local or internal one, and the port is never 0.
pub proof fn law_accepted_targets_are_public(raw: Seq<char>, port_override: Option<u16>)
    requires
        target_verdict(raw, port_override) is Ok,
        port_override != Some(0u16),
    ensures
        ({
            let (host, port) = target_verdict(raw, port_override)->Ok_0;
            &&& valid_hostname_or_ip(host)
            &&& port != 0
            &&& match ipv4_of(host) {
                Some((a, b, c, d)) => !ipv4_disallowed(a, b, c, d),
                None => !hostname_disallowed(host),
            }
        }),
{
}

// ─────────────────────────── admin access ───────────────────────────

/// Compares two tokens byte by byte without stopping at the first
/// difference, so the time taken does not reveal a matching prefix.
pub fn constant_time_eq(a: &str, b: &str) -> (res: bool)
    ensures
        res == (a@ == b@),
{
    broadcast use vstd::string::group_string_axioms;

    let x = a.as_bytes();
    let y = b.as_bytes();
    if x.len() != y.len() {
        return false;
    }
    let mut acc: u8 = 0;
    for i in 0..x.len()
        invariant
            x@.len() == y@.len(),
            (acc == 0) == (forall|j: int| 0 <= j < i ==> x@[j] == y@[j]),
    {
        let p = x[i];
        let q = y[i];
        let next = acc | (p ^ q);
        assert((next == 0) == (acc == 0 && p == q)) by (bit_vector)
            requires
                next == acc | (p ^ q),
        ;
        acc = next;
    }
    proof {
        vstd::utf8::encode_utf8_decode_utf8(a@);
        vstd::utf8::encode_utf8_decode_utf8(b@);
        if acc == 0 {
            assert(x@ =~= y@);
        }
    }
    acc == 0
}

/// Admits a history request: the history is public while no admin token is
/// configured; once one is, the `Authorization` header must read
/// `Bearer <token>` with exactly that token.
pub open spec fn admin_granted(authorization: Option<Seq<char>>, token: Option<Seq<char>>) -> bool {
    match token {
        None => true,
        Some(expected) => {
            let provided = match authorization {
                Some(h) => if "Bearer "@.is_prefix_of(h) {
                    h.skip(7)
                } else {
                    Seq::<char>::empty()
                },
                None => Seq::<char>::empty(),
            };
            provided == expected
        },
    }
}

/// Checks the `Authorization` header value (when present and readable as
/// text) against the configured admin token; without a configured token
/// every request is admitted.
pub fn require_admin(authorization: Option<&str>, token: Option<&str>) -> (res: Result<(), ApiError>)
    ensures
        res is Ok == admin_granted(
            match authorization {
                Some(h) => Some(h@),
                None => None,
            },
            match token {
                Some(t) => Some(t@),
                None => None,
            },
        ),
        res matches Err(e) ==> e is Unauthorized,
{
    let expected = match token {
        None => return Ok(()),
        Some(t) => t,
    };
    let provided: Vec<char> = match authorization {
        Some(h) => {
            let v = chars_of(h);
            if crate::text::starts_with_str(v.as_slice(), "Bearer ") {
                proof {
                    reveal_strlit("Bearer ");
                }
                crate::text::slice_chars(v.as_slice(), 7, v.len())
            } else {
                Vec::new()
            }
        },
        None => Vec::new(),
    };
    let provided_text = string_of(provided.as_slice());
    if constant_time_eq(provided_text.as_str(), expected) {
        Ok(())
    } else {
        Err(ApiError::Unauthorized)
    }
}

/// Rows a history endpoint returns: the requested limit (50 when absent),
/// clamped to 1..=500.
pub fn clamp_limit(limit: Option<i64>) -> (res: i64)
    ensures
        res == ({
            let l = match limit {
                Some(l) => l,
                None => HISTORY_DEFAULT_LIMIT,
            };
            if l < 1 {
                1
            } else if l > HISTORY_MAX_LIMIT {
                HISTORY_MAX_LIMIT
            } else {
                l
            }
        }),
        1 <= res <= HISTORY_MAX_LIMIT,
{
    let l = match limit {
        Some(l) => l,
        None => HISTORY_DEFAULT_LIMIT,
    };
    if l < 1 {
        1
    } else if l > HISTORY_MAX_LIMIT {
        HISTORY_MAX_LIMIT
    } else {
        l
    }
}

/// Rows to skip: the requested offset, never negative.
pub fn history_offset(offset: Option<i64>) -> (res: i64)
    ensures
        res == match offset {
            Some(o) => if o < 0 {
                0
            } else {
                o
            },
            None => 0,
        },
{
    match offset {
        Some(o) => if o < 0 {
            0
        } else {
            o
        },
        None => 0,
    }
}

// ─────────────────────────── request admission ───────────────────────────

/// Whether a ban imposed `ban_age_secs` seconds ago still holds.
pub fn ban_active(ban_age_secs: u64) -> (res: bool)
    ensures
        res == (ban_age_secs < REPEAT_OFFENDER_BAN_SECS),
{
    ban_age_secs < REPEAT_OFFENDER_BAN_SECS
}

/// Whether a new scan request must be turned away because `in_flight`
/// requests were already counted this minute.
pub fn over_global_ceiling(in_flight: usize) -> (res: bool)
    ensures
        res == (in_flight >= GLOBAL_SCAN_CEILING),
{
    in_flight >= GLOBAL_SCAN_CEILING
}

/// Whether a client throttled `times` times is to be banned.
pub fn is_repeat_offender(times: usize) -> (res: bool)
    ensures
        res == (times >= REPEAT_OFFENDER_THRESHOLD),
{
    times >= REPEAT_OFFENDER_THRESHOLD
}

/// Whether a cached report `age_secs` seconds old may still be served.
pub fn cache_fresh(age_secs: u64) -> (res: bool)
    ensures
        res == (age_secs < SCAN_CACHE_TTL_SECS),
{
    age_secs < SCAN_CACHE_TTL_SECS
}

} // verus!
