//! Quantum readiness, the split of a TLS probe outcome, and the assembled report.

use ronway_scanner::models::finding::{CertFinding, HttpFinding, TlsFinding};
use ronway_scanner::models::risk::RiskLevel;
use ronway_scanner::scanner::tls::{TlsScanError, TlsScanResult};
use ronway_scanner::store::ScanRecord;
use ronway_scanner::{is_quantum_ready, split_tls_outcome, split_tls_outcome_at, RonwayScanner};

fn safe_tls() -> TlsFinding {
    TlsFinding {
        protocol_version: "TLSv1.3".into(),
        protocol_vulnerable: false,
        cipher_suite: "TLS_AES_256_GCM_SHA384".into(),
        cipher_vulnerable: false,
        key_exchange: "X25519MLKEM768".into(),
        key_exchange_vulnerable: false,
        compression: "NULL".into(),
        compression_vulnerable: false,
    }
}

fn safe_cert() -> CertFinding {
    CertFinding {
        subject: "CN=safe".into(),
        issuer: "CN=safe-ca".into(),
        key_algorithm: "ML-DSA-65".into(),
        key_algorithm_vulnerable: false,
        signature_algorithm: "id-ML-DSA-65".into(),
        signature_algorithm_vulnerable: false,
        valid_from: "2026-01-01T00:00:00+00:00".into(),
        valid_until: "2027-01-01T00:00:00+00:00".into(),
        days_remaining: 200,
        is_expired: false,
        is_self_signed: false,
        ct_logged: true,
    }
}

fn bare_http() -> HttpFinding {
    HttpFinding {
        hsts_enabled: false,
        hsts_max_age: None,
        csp_present: false,
        x_frame_options: None,
        server_header: None,
    }
}

#[test]
fn quantum_ready_true_for_pqc_tls_and_cert() {
    assert!(is_quantum_ready(&Some(safe_tls()), &Some(safe_cert())));
}

#[test]
fn quantum_ready_false_when_kx_is_vulnerable() {
    let mut tls = safe_tls();
    tls.key_exchange = "ECDHE".into();
    tls.key_exchange_vulnerable = true;
    assert!(!is_quantum_ready(&Some(tls), &Some(safe_cert())));
}

#[test]
fn quantum_ready_false_when_cert_missing() {
    assert!(!is_quantum_ready(&Some(safe_tls()), &None));
}

#[test]
fn quantum_ready_false_when_tls_missing() {
    assert!(!is_quantum_ready(&None, &Some(safe_cert())));
}

#[test]
fn quantum_ready_false_when_cert_expired() {
    let mut cert = safe_cert();
    cert.is_expired = true;
    assert!(!is_quantum_ready(&Some(safe_tls()), &Some(cert)));
}

#[test]
fn split_tls_outcome_drops_cert_when_der_unparseable() {
    let result = TlsScanResult {
        finding: safe_tls(),
        peer_cert_der: Some(b"not-a-real-cert".to_vec()),
    };
    let (tls, cert) = split_tls_outcome(Ok(result));
    assert!(tls.is_some());
    assert!(cert.is_none());
}

#[test]
fn split_tls_outcome_of_a_failed_probe_is_empty() {
    let (tls, cert) =
        split_tls_outcome_at(Err(TlsScanError::InvalidHostname("bad host".into())), 0, 0);
    assert!(tls.is_none());
    assert!(cert.is_none());
}

#[test]
fn unreachable_scan_is_not_graded() {
    let report = RonwayScanner::assemble_report(
        "127.0.0.1",
        1,
        "2026-05-28T00:00:00+00:00".into(),
        12,
        None,
        None,
        None,
    );
    assert!(report.is_unreachable());
    assert!(report.vulnerabilities.is_empty());
    assert_eq!(report.risk_score.value, 0);
    assert_eq!(report.risk_score.level, RiskLevel::Unknown);
    assert!(!report.risk_score.harvest_risk);
    assert!(!report.quantum_ready);
    assert_eq!(
        report.summary,
        "RonwayScanner could not reach 127.0.0.1 on port 1, so its post-quantum posture could not be assessed. Confirm the host is online and serving TLS on that port, then re-scan."
    );
    assert_eq!(report.target.domain, "127.0.0.1");
    assert_eq!(report.target.scan_duration_ms, 12);
}

#[test]
fn graded_scan_reports_score_and_executive_summary() {
    let mut tls = safe_tls();
    tls.key_exchange = "RSA".into();
    tls.key_exchange_vulnerable = true;
    let report = RonwayScanner::assemble_report(
        "example.com",
        443,
        "2026-05-28T00:00:00+00:00".into(),
        40,
        Some(tls),
        Some(safe_cert()),
        Some(bare_http()),
    );
    let ids: Vec<&str> = report.vulnerabilities.iter().map(|v| v.id.as_str()).collect();
    assert_eq!(ids, vec!["RSA_KEY_EXCHANGE", "NO_HSTS"]);
    assert!(report.risk_score.harvest_risk);
    assert!(report.summary.starts_with("example.com scored "));
    assert_eq!(report.summary, report.risk_score.summary);
    assert!(!report.quantum_ready);
    assert_eq!(report.recommendations[0].priority, 1);
}

fn hardened_http() -> HttpFinding {
    HttpFinding {
        hsts_enabled: true,
        hsts_max_age: Some(31_536_000),
        csp_present: true,
        x_frame_options: Some("DENY".into()),
        server_header: None,
    }
}

#[test]
fn quantum_ready_report_has_no_harvest_risk() {
    let report = RonwayScanner::assemble_report(
        "pq.example",
        443,
        "t".into(),
        1,
        Some(safe_tls()),
        Some(safe_cert()),
        Some(hardened_http()),
    );
    assert!(report.vulnerabilities.is_empty());
    assert!(report.quantum_ready);
    assert!(!report.risk_score.harvest_risk);
    assert_eq!(report.risk_score.value, 0);
    assert_eq!(report.risk_score.level, RiskLevel::Pass);
}

#[test]
fn safe_algorithms_with_a_nonzero_score_are_not_quantum_ready() {
    let report = RonwayScanner::assemble_report(
        "pq.example",
        443,
        "t".into(),
        1,
        Some(safe_tls()),
        Some(safe_cert()),
        Some(bare_http()),
    );
    assert!(is_quantum_ready(&report.tls, &report.certificate));
    assert_eq!(report.risk_score.value, 5);
    assert!(!report.quantum_ready);
    let mut cert = safe_cert();
    cert.is_self_signed = true;
    let report = RonwayScanner::assemble_report(
        "pq.example",
        443,
        "t".into(),
        1,
        Some(safe_tls()),
        Some(cert),
        Some(hardened_http()),
    );
    assert!(report.risk_score.value > 0);
    assert!(!report.quantum_ready);
}

#[test]
fn scan_record_columns_follow_the_report() {
    let report = RonwayScanner::assemble_report(
        "example.com",
        8443,
        "2026-05-28T00:00:00+00:00".into(),
        7,
        Some(safe_tls()),
        Some(safe_cert()),
        Some(bare_http()),
    );
    let row = ScanRecord::of_report(&report);
    assert_eq!(row.target_domain, "example.com");
    assert_eq!(row.target_port, 8443);
    assert_eq!(row.risk_score, 5);
    assert_eq!(row.risk_level, "Pass");
    assert_eq!(row.harvest_risk, 0);
    assert_eq!(row.quantum_ready, 0);
    assert_eq!(row.vulnerability_count, 1);
    assert_eq!(row.scanned_at, "2026-05-28T00:00:00+00:00");
}
