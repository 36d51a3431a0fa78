//! Target validation, client attribution, rate limiting, admin access and
//! the scan endpoint's decisions.

use reqwest::header::HeaderMap;
use ronway_scanner::models::finding::Recommendation;
use ronway_scanner::RonwayScanner;
use ronway_scanner::server::client::{client_ip, forwarded_for, real_ip};
use ronway_scanner::server::gate::{GateAction, GateEvent, GateState, ScanGate};
use ronway_scanner::server::{
    clamp_limit, constant_time_eq, require_admin, validate_target, ApiError, ClientIp,
    PublicScanReport, RateLimiter,
};

#[test]
fn validate_target_accepts_plain_domain() {
    let (host, port) = validate_target("example.com", None).unwrap();
    assert_eq!(host, "example.com");
    assert_eq!(port, 443);
}

#[test]
fn validate_target_strips_https_scheme() {
    let (host, port) = validate_target("https://example.com", None).unwrap();
    assert_eq!(host, "example.com");
    assert_eq!(port, 443);
}

#[test]
fn validate_target_strips_path_and_query() {
    let (host, _) = validate_target("https://example.com/foo?q=1", None).unwrap();
    assert_eq!(host, "example.com");
}

#[test]
fn validate_target_parses_inline_port() {
    let (host, port) = validate_target("example.com:8443", None).unwrap();
    assert_eq!(host, "example.com");
    assert_eq!(port, 8443);
}

#[test]
fn validate_target_port_override_wins() {
    let (_, port) = validate_target("example.com:8443", Some(9000)).unwrap();
    assert_eq!(port, 9000);
}

#[test]
fn validate_target_rejects_empty() {
    assert!(matches!(
        validate_target("", None),
        Err(ApiError::InvalidTarget(_))
    ));
    assert!(matches!(
        validate_target("   ", None),
        Err(ApiError::InvalidTarget(_))
    ));
}

#[test]
fn validate_target_rejects_localhost() {
    assert!(matches!(
        validate_target("localhost", None),
        Err(ApiError::InvalidTarget(_))
    ));
    assert!(matches!(
        validate_target("https://localhost:8080", None),
        Err(ApiError::InvalidTarget(_))
    ));
}

#[test]
fn validate_target_rejects_mdns_and_internal_tlds() {
    for h in [
        "printer.local",
        "server.internal",
        "host.lan",
        "router.home",
        "host.corp",
        "foo.localhost",
    ] {
        assert!(
            matches!(validate_target(h, None), Err(ApiError::InvalidTarget(_))),
            "should reject: {}",
            h
        );
    }
}

#[test]
fn validate_target_rejects_private_ipv4() {
    for ip in [
        "127.0.0.1",
        "10.0.0.5",
        "172.16.5.1",
        "192.168.1.1",
        "169.254.169.254",
        "100.64.1.1",
        "0.0.0.0",
        "255.255.255.255",
        "240.0.0.1",
        "198.18.0.1",
    ] {
        assert!(
            matches!(validate_target(ip, None), Err(ApiError::InvalidTarget(_))),
            "should reject {}",
            ip
        );
    }
}

#[test]
fn validate_target_rejects_private_ipv6() {
    for ip in ["::1", "fc00::1", "fe80::1", "::"] {
        assert!(
            matches!(validate_target(ip, None), Err(ApiError::InvalidTarget(_))),
            "should reject {}",
            ip
        );
    }
}

#[test]
fn validate_target_accepts_public_ipv4() {
    let (host, _) = validate_target("8.8.8.8", None).unwrap();
    assert_eq!(host, "8.8.8.8");
}

#[test]
fn validate_target_rejects_garbage_characters() {
    for bad in [
        "example.com space",
        "exam ple.com",
        "host with spaces",
        "-leading.hyphen.com",
        "trailing-.com",
        "exa$mple.com",
    ] {
        assert!(
            matches!(validate_target(bad, None), Err(ApiError::InvalidTarget(_))),
            "should reject: {}",
            bad
        );
    }
}

#[test]
fn validate_target_rejects_huge_input() {
    let huge = "a".repeat(300);
    assert!(matches!(
        validate_target(&huge, None),
        Err(ApiError::InvalidTarget(_))
    ));
}

#[test]
fn validate_target_rejects_ipv6_literal() {
    assert!(matches!(
        validate_target("2001:db8::1:443", None),
        Err(ApiError::InvalidTarget(_))
    ));
}

#[test]
fn validate_target_error_messages() {
    match validate_target("example.com:99999", None) {
        Err(ApiError::InvalidTarget(m)) => assert_eq!(m, "invalid port: 99999"),
        _ => panic!("expected an invalid port"),
    }
    match validate_target("10.1.2.3", None) {
        Err(ApiError::InvalidTarget(m)) => {
            assert_eq!(m, "target 10.1.2.3 is a private / reserved address")
        }
        _ => panic!("expected a private address"),
    }
    match validate_target("example.com:0", None) {
        Err(ApiError::InvalidTarget(m)) => assert_eq!(m, "port must be > 0"),
        _ => panic!("expected a zero port"),
    }
}

fn v4(a: u8, b: u8, c: u8, d: u8) -> ClientIp {
    ClientIp::V4(u32::from_be_bytes([a, b, c, d]))
}

fn parse_v4(s: &str) -> Option<ClientIp> {
    let p: Vec<u8> = s.split('.').map(|x| x.parse().unwrap()).collect();
    Some(v4(p[0], p[1], p[2], p[3]))
}

#[test]
fn client_ip_prefers_x_forwarded_for() {
    let mut h = HeaderMap::new();
    h.insert("x-forwarded-for", "203.0.113.7, 10.0.0.1".parse().unwrap());
    let socket = v4(127, 0, 0, 1);
    let forwarded = forwarded_for(&h).and_then(|s| parse_v4(&s));
    let real = real_ip(&h).and_then(|s| parse_v4(&s));
    assert_eq!(client_ip(socket, forwarded, real), v4(203, 0, 113, 7));
}

#[test]
fn client_ip_falls_back_to_x_real_ip_then_socket() {
    let mut h = HeaderMap::new();
    h.insert("x-real-ip", "198.51.100.9".parse().unwrap());
    let socket = v4(127, 0, 0, 1);
    let forwarded = forwarded_for(&h).and_then(|s| parse_v4(&s));
    let real = real_ip(&h).and_then(|s| parse_v4(&s));
    assert_eq!(client_ip(socket, forwarded, real), v4(198, 51, 100, 9));

    let empty = HeaderMap::new();
    assert!(forwarded_for(&empty).is_none());
    assert!(real_ip(&empty).is_none());
    assert_eq!(client_ip(socket, None, None), socket);
}

#[test]
fn client_ip_ignores_headers_from_other_peers() {
    let socket = v4(8, 8, 4, 4);
    assert_eq!(client_ip(socket, Some(v4(1, 2, 3, 4)), None), socket);
    assert_eq!(client_ip(ClientIp::V6(1), Some(v4(1, 2, 3, 4)), None), v4(1, 2, 3, 4));
}

fn ip(v: u8) -> ClientIp {
    v4(8, 8, 8, v)
}

const SEC: u64 = 1_000_000_000;

#[test]
fn rate_limiter_allows_up_to_max() {
    let mut rl = RateLimiter::new(3, 60 * SEC);
    let now = 5 * SEC;
    assert!(rl.check_and_record(ip(1), now));
    assert!(rl.check_and_record(ip(1), now));
    assert!(rl.check_and_record(ip(1), now));
    assert!(!rl.check_and_record(ip(1), now));
}

#[test]
fn rate_limiter_buckets_per_ip() {
    let mut rl = RateLimiter::new(1, 60 * SEC);
    let now = 5 * SEC;
    assert!(rl.check_and_record(ip(1), now));
    assert!(rl.check_and_record(ip(2), now));
    assert!(!rl.check_and_record(ip(1), now));
    assert!(rl.check_and_record(ip(3), now));
}

#[test]
fn rate_limiter_releases_after_window() {
    let mut rl = RateLimiter::new(2, 60 * SEC);
    let t0 = 5 * SEC;
    assert!(rl.check_and_record(ip(1), t0));
    assert!(rl.check_and_record(ip(1), t0));
    assert!(!rl.check_and_record(ip(1), t0));

    let t1 = t0 + 61 * SEC;
    assert!(
        rl.check_and_record(ip(1), t1),
        "old hits should have aged out"
    );
}

#[test]
fn rate_limiter_prune_drops_empty_ips() {
    let mut rl = RateLimiter::new(5, 60 * SEC);
    let t0 = 5 * SEC;
    rl.check_and_record(ip(1), t0);
    rl.check_and_record(ip(2), t0);
    assert_eq!(rl.tracked_ips(), 2);

    rl.prune(t0 + 120 * SEC);
    assert_eq!(rl.tracked_ips(), 0);
}

#[test]
fn rate_limiter_counts_throttles() {
    let mut rl = RateLimiter::new(1, 60 * SEC);
    assert!(rl.check_and_record(ip(9), 0));
    assert!(!rl.check_and_record(ip(9), 1));
    assert!(!rl.check_and_record(ip(9), 2));
    assert_eq!(rl.throttle_count(&ip(9)), 2);
    assert_eq!(rl.throttle_count(&ip(8)), 0);
}

#[test]
fn admin_token_comparison_and_access() {
    assert!(constant_time_eq("secret", "secret"));
    assert!(!constant_time_eq("secret", "secreT"));
    assert!(!constant_time_eq("secret", "secrets"));
    assert!(require_admin(Some("Bearer tok"), Some("tok")).is_ok());
    assert!(matches!(
        require_admin(Some("Bearer nope"), Some("tok")),
        Err(ApiError::Unauthorized)
    ));
    assert!(matches!(require_admin(None, Some("tok")), Err(ApiError::Unauthorized)));
    assert!(require_admin(None, None).is_ok());
    assert!(require_admin(Some("Bearer anything"), None).is_ok());
}

#[test]
fn history_limits_are_clamped() {
    assert_eq!(clamp_limit(None), 50);
    assert_eq!(clamp_limit(Some(0)), 1);
    assert_eq!(clamp_limit(Some(10_000)), 500);
    assert_eq!(clamp_limit(Some(7)), 7);
}

#[test]
fn api_errors_map_to_statuses() {
    assert_eq!(ApiError::RateLimited.status_code(), 429);
    assert_eq!(ApiError::InvalidTarget("x".into()).status_code(), 400);
    assert_eq!(ApiError::Unauthorized.status_code(), 401);
    assert_eq!(ApiError::ServerBusy.status_code(), 503);
    assert_eq!(ApiError::ScanTimeout.status_code(), 504);
    match ApiError::internal() {
        ApiError::Internal(m) => assert_eq!(m, "internal server error"),
        _ => panic!("expected an internal error"),
    }
}

#[test]
fn gate_runs_a_scan_for_a_fresh_valid_request() {
    let mut g = ScanGate::new("https://example.com/x".into(), None);
    assert!(matches!(g.step(GateEvent::Begin), GateAction::LookUpBan));
    assert!(matches!(g.step(GateEvent::BanAge(None)), GateAction::CountRequest));
    assert!(matches!(g.step(GateEvent::InFlightBefore(3)), GateAction::CheckRateLimit));
    match g.step(GateEvent::RateChecked { allowed: true, throttles: 0 }) {
        GateAction::LookUpCache { host, port } => {
            assert_eq!(host, "example.com");
            assert_eq!(port, 443);
        }
        _ => panic!("expected a cache lookup"),
    }
    assert!(matches!(g.step(GateEvent::CacheAge(Some(400))), GateAction::AcquireSlot));
    match g.step(GateEvent::SlotAcquired(true)) {
        GateAction::RunScan { host, port } => {
            assert_eq!(host, "example.com");
            assert_eq!(port, 443);
        }
        _ => panic!("expected a scan"),
    }
    assert!(matches!(g.step(GateEvent::ScanFinished { timed_out: false }), GateAction::Publish));
    assert!(matches!(g.state, GateState::Finished));
    assert!(matches!(g.step(GateEvent::Begin), GateAction::Ignore));
}

#[test]
fn gate_refuses_banned_busy_throttled_and_invalid_requests() {
    let mut g = ScanGate::new("example.com".into(), None);
    g.step(GateEvent::Begin);
    assert!(matches!(
        g.step(GateEvent::BanAge(Some(10))),
        GateAction::Refuse { error: ApiError::RateLimited, release_count: false, ban_client: false }
    ));

    let mut g = ScanGate::new("example.com".into(), None);
    g.step(GateEvent::Begin);
    g.step(GateEvent::BanAge(Some(3600)));
    assert!(matches!(
        g.step(GateEvent::InFlightBefore(120)),
        GateAction::Refuse { error: ApiError::ServerBusy, release_count: true, ban_client: false }
    ));

    let mut g = ScanGate::new("example.com".into(), None);
    g.step(GateEvent::Begin);
    g.step(GateEvent::BanAge(None));
    g.step(GateEvent::InFlightBefore(0));
    assert!(matches!(
        g.step(GateEvent::RateChecked { allowed: false, throttles: 3 }),
        GateAction::Refuse { error: ApiError::RateLimited, release_count: true, ban_client: true }
    ));

    let mut g = ScanGate::new("192.168.0.1".into(), None);
    g.step(GateEvent::Begin);
    g.step(GateEvent::BanAge(None));
    g.step(GateEvent::InFlightBefore(0));
    assert!(matches!(
        g.step(GateEvent::RateChecked { allowed: true, throttles: 0 }),
        GateAction::Refuse { error: ApiError::InvalidTarget(_), release_count: false, ban_client: false }
    ));
}

#[test]
fn gate_serves_fresh_cache_and_reports_timeouts() {
    let mut g = ScanGate::new("example.com".into(), Some(8443));
    g.step(GateEvent::Begin);
    g.step(GateEvent::BanAge(None));
    g.step(GateEvent::InFlightBefore(0));
    g.step(GateEvent::RateChecked { allowed: true, throttles: 0 });
    assert!(matches!(g.step(GateEvent::CacheAge(Some(299))), GateAction::ServeCached));

    let mut g = ScanGate::new("example.com".into(), None);
    g.step(GateEvent::Begin);
    g.step(GateEvent::BanAge(None));
    g.step(GateEvent::InFlightBefore(0));
    g.step(GateEvent::RateChecked { allowed: true, throttles: 0 });
    g.step(GateEvent::CacheAge(None));
    assert!(matches!(
        g.step(GateEvent::SlotAcquired(false)),
        GateAction::Refuse { error: ApiError::ServerBusy, release_count: false, ban_client: false }
    ));

    let mut g = ScanGate::new("example.com".into(), None);
    g.step(GateEvent::Begin);
    g.step(GateEvent::BanAge(None));
    g.step(GateEvent::InFlightBefore(0));
    g.step(GateEvent::RateChecked { allowed: true, throttles: 0 });
    g.step(GateEvent::CacheAge(None));
    g.step(GateEvent::SlotAcquired(true));
    assert!(matches!(
        g.step(GateEvent::ScanFinished { timed_out: true }),
        GateAction::Refuse { error: ApiError::ScanTimeout, release_count: false, ban_client: false }
    ));
}

#[test]
fn public_report_keeps_three_distinct_actions() {
    let mut report =
        RonwayScanner::assemble_report("example.com", 443, "t".into(), 1, None, None, None);
    for (i, action) in ["a", "b", "a", "c", "d"].iter().enumerate() {
        report.recommendations.push(Recommendation {
            priority: i as u8,
            action: action.to_string(),
            current: String::new(),
            replace_with: String::new(),
            effort_weeks: 1,
            nist_algorithm: String::new(),
        });
    }
    let public = PublicScanReport::from_report(&report);
    assert_eq!(public.recommended_actions, vec!["a", "b", "c"]);
    assert_eq!(public.additional_recommendations, 1);
    assert_eq!(public.upgrade.url, "https://bpxai.com/quantum");
}
