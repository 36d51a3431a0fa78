//! Algorithm verdicts, vulnerability records, scoring and remediation advice.

use ronway_scanner::classifier::algorithms::{AlgorithmClassifier, VulnerabilityDatabase};
use ronway_scanner::classifier::recommendations::RecommendationEngine;
use ronway_scanner::classifier::scoring::RiskScorer;
use ronway_scanner::models::finding::{CertFinding, HttpFinding, TlsFinding, Vulnerability};
use ronway_scanner::models::risk::RiskLevel;

fn vuln(id: &str) -> Vulnerability {
    Vulnerability {
        id: id.to_string(),
        title: id.to_string(),
        description: String::new(),
        severity: RiskLevel::Medium,
        nist_reference: String::new(),
        cvss_tenths: 0,
    }
}

fn high_vuln(id: &str) -> Vulnerability {
    Vulnerability {
        id: id.into(),
        title: id.into(),
        description: String::new(),
        severity: RiskLevel::High,
        nist_reference: String::new(),
        cvss_tenths: 0,
    }
}

#[test]
fn rsa_key_exchange_is_vulnerable() {
    let (vuln, _) = AlgorithmClassifier::is_key_exchange_vulnerable("RSA");
    assert!(vuln);
}

#[test]
fn ml_kem_768_is_safe() {
    let (vuln, _) = AlgorithmClassifier::is_key_exchange_vulnerable("ML-KEM-768");
    assert!(!vuln);
}

#[test]
fn x25519_mlkem768_hybrid_is_safe() {
    let (vuln, _) = AlgorithmClassifier::is_key_exchange_vulnerable("X25519MLKEM768");
    assert!(!vuln);
}

#[test]
fn rsa_sha256_signature_is_vulnerable() {
    let (vuln, _) =
        AlgorithmClassifier::is_signature_algorithm_vulnerable("sha256WithRSAEncryption");
    assert!(vuln);
}

#[test]
fn ml_dsa_65_signature_is_safe() {
    let (vuln, _) = AlgorithmClassifier::is_signature_algorithm_vulnerable("id-ML-DSA-65");
    assert!(!vuln);
}

#[test]
fn cipher_3des_is_vulnerable() {
    let (vuln, _) =
        AlgorithmClassifier::is_cipher_suite_vulnerable("TLS_RSA_WITH_3DES_EDE_CBC_SHA");
    assert!(vuln);
}

#[test]
fn cipher_tls13_aes_256_gcm_is_safe() {
    let (vuln, _) = AlgorithmClassifier::is_cipher_suite_vulnerable("TLS_AES_256_GCM_SHA384");
    assert!(!vuln);
}

#[test]
fn tls12_is_flagged_vulnerable() {
    assert!(AlgorithmClassifier::is_tls_version_vulnerable("TLSv1.2"));
}

#[test]
fn tls13_is_safe() {
    assert!(!AlgorithmClassifier::is_tls_version_vulnerable("TLSv1.3"));
}

#[test]
fn key_exchange_reasons_are_given() {
    let (v, reason) = AlgorithmClassifier::is_key_exchange_vulnerable(" ecdhe ");
    assert!(v);
    assert_eq!(reason, "Elliptic curve discrete log solved by Shor's Algorithm");
    let (v, reason) = AlgorithmClassifier::is_key_exchange_vulnerable("something-new");
    assert!(!v);
    assert_eq!(reason, "Unknown key exchange algorithm — manual review required");
}

#[test]
fn cipher_verdicts_follow_the_first_weakness() {
    let (v, reason) = AlgorithmClassifier::is_cipher_suite_vulnerable("TLS_RSA_WITH_RC4_128_MD5");
    assert!(v);
    assert_eq!(reason, "RC4 stream cipher broken");
    let (v, _) = AlgorithmClassifier::is_cipher_suite_vulnerable("TLS_CHACHA20_POLY1305_SHA256");
    assert!(!v);
}

#[test]
fn legacy_versions_are_vulnerable() {
    assert!(AlgorithmClassifier::is_tls_version_vulnerable("TLSv1.0"));
    assert!(AlgorithmClassifier::is_tls_version_vulnerable("SSLv3"));
}

#[test]
fn server_header_with_digits_leaks_version() {
    assert!(VulnerabilityDatabase::server_header_leaks_version("nginx/1.25.3"));
    assert!(!VulnerabilityDatabase::server_header_leaks_version("nginx"));
}

fn tls(kx: &str, kx_vuln: bool) -> TlsFinding {
    TlsFinding {
        protocol_version: "TLSv1.2".into(),
        protocol_vulnerable: true,
        cipher_suite: "TLS_ECDHE_RSA_WITH_AES_256_GCM_SHA384".into(),
        cipher_vulnerable: false,
        key_exchange: kx.into(),
        key_exchange_vulnerable: kx_vuln,
        compression: "NULL".into(),
        compression_vulnerable: false,
    }
}

fn cert() -> CertFinding {
    CertFinding {
        subject: "CN=a".into(),
        issuer: "CN=a".into(),
        key_algorithm: "RSA 2048-bit".into(),
        key_algorithm_vulnerable: true,
        signature_algorithm: "sha256WithRSAEncryption".into(),
        signature_algorithm_vulnerable: true,
        valid_from: "2025-01-01T00:00:00+00:00".into(),
        valid_until: "2025-06-01T00:00:00+00:00".into(),
        days_remaining: -30,
        is_expired: true,
        is_self_signed: true,
        ct_logged: false,
    }
}

#[test]
fn vulnerabilities_are_listed_tls_then_cert_then_http() {
    let http = HttpFinding {
        hsts_enabled: false,
        hsts_max_age: None,
        csp_present: false,
        x_frame_options: None,
        server_header: Some("Apache/2.4.1".into()),
    };
    let t = tls("ECDHE", true);
    let c = cert();
    let vulns = VulnerabilityDatabase::build_vulnerabilities(Some(&t), Some(&c), Some(&http));
    let ids: Vec<&str> = vulns.iter().map(|v| v.id.as_str()).collect();
    assert_eq!(
        ids,
        vec![
            "TLS_VERSION_VULNERABLE",
            "ECDHE_KEY_EXCHANGE",
            "CERT_EXPIRED",
            "CERT_SELF_SIGNED",
            "RSA_CERTIFICATE",
            "RSA_SIGNATURE",
            "NO_HSTS",
            "SERVER_HEADER_LEAK",
        ]
    );
    assert_eq!(
        vulns[2].description,
        "Certificate expired on 2025-06-01T00:00:00+00:00 (30 days ago). Clients will reject this connection."
    );
    assert_eq!(vulns[1].cvss_tenths, 81);
    assert_eq!(vulns[1].severity, RiskLevel::Critical);
}

#[test]
fn worst_case_list_is_nine_distinct_advised_and_weighted_records() {
    let mut t = tls("RSA", true);
    t.protocol_version = "TLSv1.0".into();
    t.cipher_suite = "TLS_RSA_WITH_NULL_SHA".into();
    t.cipher_vulnerable = true;
    let c = cert();
    let http = HttpFinding {
        hsts_enabled: false,
        hsts_max_age: None,
        csp_present: false,
        x_frame_options: None,
        server_header: Some("nginx/1.2".into()),
    };
    let all = VulnerabilityDatabase::build_vulnerabilities(Some(&t), Some(&c), Some(&http));
    let parts: Vec<Vulnerability> = [
        VulnerabilityDatabase::build_vulnerabilities(Some(&t), None, None),
        VulnerabilityDatabase::build_vulnerabilities(None, Some(&c), None),
        VulnerabilityDatabase::build_vulnerabilities(None, None, Some(&http)),
    ]
    .concat();
    let ids: Vec<&str> = all.iter().map(|v| v.id.as_str()).collect();
    let part_ids: Vec<&str> = parts.iter().map(|v| v.id.as_str()).collect();
    assert_eq!(ids, part_ids);
    assert_eq!(all.len(), 9);
    for (i, a) in ids.iter().enumerate() {
        assert!(ids[i + 1..].iter().all(|b| b != a), "{} occurs twice", a);
        assert!(RecommendationEngine::map(a).is_some(), "{} has no advice", a);
        assert!(RiskScorer::weight_for(a) > 0, "{} has no penalty", a);
    }
}

#[test]
fn no_findings_give_no_vulnerabilities() {
    let vulns = VulnerabilityDatabase::build_vulnerabilities(None, None, None);
    assert!(vulns.is_empty());
}

#[test]
fn rsa_key_exchange_maps_to_priority_1() {
    let recs = RecommendationEngine::generate(&[high_vuln("RSA_KEY_EXCHANGE")]);
    assert_eq!(recs.len(), 1);
    assert_eq!(recs[0].priority, 1);
    assert!(recs[0].nist_algorithm.contains("ML-KEM-768"));
}

#[test]
fn no_hsts_maps_to_low_priority() {
    let recs = RecommendationEngine::generate(&[high_vuln("NO_HSTS")]);
    assert_eq!(recs.len(), 1);
    assert_eq!(recs[0].priority, 5);
}

#[test]
fn duplicates_are_deduplicated() {
    let recs = RecommendationEngine::generate(&[
        high_vuln("RSA_KEY_EXCHANGE"),
        high_vuln("RSA_KEY_EXCHANGE"),
    ]);
    assert_eq!(recs.len(), 1);
}

#[test]
fn results_are_sorted_by_priority_ascending() {
    let recs = RecommendationEngine::generate(&[
        high_vuln("NO_HSTS"),
        high_vuln("RSA_KEY_EXCHANGE"),
        high_vuln("TLS_VERSION_VULNERABLE"),
        high_vuln("RSA_CERTIFICATE"),
    ]);
    assert_eq!(recs.len(), 4);
    let priorities: Vec<u8> = recs.iter().map(|r| r.priority).collect();
    let mut sorted = priorities.clone();
    sorted.sort();
    assert_eq!(priorities, sorted);
    assert_eq!(recs[0].priority, 1);
}

#[test]
fn unknown_vulnerability_is_skipped() {
    let recs = RecommendationEngine::generate(&[high_vuln("SOMETHING_NOT_MAPPED")]);
    assert!(recs.is_empty());
}

#[test]
fn advice_lookup_gives_none_for_unmapped_ids() {
    assert!(RecommendationEngine::map("NOT_AN_ID").is_none());
    let rec = RecommendationEngine::map("RSA_KEY_EXCHANGE").unwrap();
    assert_eq!(rec.priority, 1);
}

#[test]
fn empty_findings_score_zero() {
    let score = RiskScorer::calculate(&[]);
    assert_eq!(score.value, 0);
    assert_eq!(score.level, RiskLevel::Pass);
    assert!(!score.harvest_risk);
}

#[test]
fn rsa_key_exchange_contributes_at_least_35() {
    let score = RiskScorer::calculate(&[vuln("RSA_KEY_EXCHANGE")]);
    assert!(
        score.value >= 35,
        "expected RSA_KEY_EXCHANGE to add >= 35 points, got {}",
        score.value
    );
}

#[test]
fn harvest_risk_set_when_rsa_key_exchange_present() {
    let score = RiskScorer::calculate(&[vuln("RSA_KEY_EXCHANGE")]);
    assert!(score.harvest_risk);
}

#[test]
fn harvest_risk_unset_with_no_key_exchange_vulnerability() {
    let score = RiskScorer::calculate(&[vuln("NO_HSTS"), vuln("CBC_CIPHER")]);
    assert!(!score.harvest_risk);
}

#[test]
fn harvest_risk_present_helper_detects_ecdhe() {
    let vulns = vec![vuln("ECDHE_KEY_EXCHANGE")];
    assert!(RiskScorer::harvest_risk_present(&vulns));
}

#[test]
fn harvest_risk_present_false_for_unrelated_ids() {
    let vulns = vec![vuln("NO_HSTS"), vuln("SERVER_HEADER_LEAK")];
    assert!(!RiskScorer::harvest_risk_present(&vulns));
}

#[test]
fn risk_level_from_score_critical_at_87() {
    assert_eq!(RiskLevel::from_score(87), RiskLevel::Critical);
}

#[test]
fn risk_level_from_score_pass_at_15() {
    assert_eq!(RiskLevel::from_score(15), RiskLevel::Pass);
}

#[test]
fn risk_level_from_score_boundaries() {
    assert_eq!(RiskLevel::from_score(80), RiskLevel::Critical);
    assert_eq!(RiskLevel::from_score(60), RiskLevel::High);
    assert_eq!(RiskLevel::from_score(40), RiskLevel::Medium);
    assert_eq!(RiskLevel::from_score(20), RiskLevel::Low);
    assert_eq!(RiskLevel::from_score(0), RiskLevel::Pass);
}

#[test]
fn level_labels_and_colours() {
    assert_eq!(RiskLevel::Critical.label(), "Critical");
    assert_eq!(RiskLevel::Unknown.label(), "Unknown");
    assert_eq!(RiskLevel::Unknown.color_code(), "#6b7280");
    assert_eq!(RiskLevel::from_score(79), RiskLevel::High);
    assert_eq!(RiskLevel::from_score(19), RiskLevel::Pass);
}

#[test]
fn score_is_capped_at_100() {
    let many = vec![
        vuln("RSA_KEY_EXCHANGE"),
        vuln("RSA_CERTIFICATE"),
        vuln("NULL_CIPHER"),
        vuln("EXPORT_CIPHER"),
        vuln("TLS_LEGACY_VERSION"),
        vuln("CERT_EXPIRED"),
    ];
    let score = RiskScorer::calculate(&many);
    assert_eq!(score.value, 100);
    assert_eq!(score.level, RiskLevel::Critical);
}

#[test]
fn generate_summary_includes_target_and_score() {
    let score = RiskScorer::calculate(&[vuln("RSA_KEY_EXCHANGE"), vuln("RSA_CERTIFICATE")]);
    let summary = RiskScorer::generate_summary(&score, "bsp.gov.ph");
    assert!(summary.contains("bsp.gov.ph"));
    assert!(summary.contains(&score.value.to_string()));
    assert!(summary.contains("harvest now, decrypt later"));
}

#[test]
fn score_law_more_findings_never_lower_the_score() {
    let base = vec![vuln("NO_HSTS")];
    let more = vec![vuln("NO_HSTS"), vuln("CBC_CIPHER")];
    assert!(RiskScorer::calculate(&base).value <= RiskScorer::calculate(&more).value);
}

#[test]
fn score_law_order_does_not_matter() {
    let a = vec![vuln("NO_HSTS"), vuln("RSA_KEY_EXCHANGE")];
    let b = vec![vuln("RSA_KEY_EXCHANGE"), vuln("NO_HSTS")];
    let sa = RiskScorer::calculate(&a);
    let sb = RiskScorer::calculate(&b);
    assert_eq!(sa.value, sb.value);
    assert_eq!(sa.harvest_risk, sb.harvest_risk);
}

#[test]
fn weight_of_each_id() {
    assert_eq!(RiskScorer::weight_for("RSA_KEY_EXCHANGE"), 35);
    assert_eq!(RiskScorer::weight_for("NOT_AN_ID"), 0);
}

#[test]
fn recommendation_law_every_advised_id_answered_once() {
    let recs = RecommendationEngine::generate(&[
        vuln("RSA_CERTIFICATE"),
        vuln("NO_HSTS"),
        vuln("RSA_CERTIFICATE"),
    ]);
    assert_eq!(recs.len(), 2);
    assert!(recs[0].priority <= recs[1].priority);
}
