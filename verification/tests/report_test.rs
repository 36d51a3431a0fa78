//! The PDF text helpers and layout, and the terminal report.

use ronway_scanner::models::finding::{
    CertFinding, HttpFinding, Recommendation, TlsFinding, Vulnerability,
};
use ronway_scanner::models::report::{ScanReport, ScanTarget};
use ronway_scanner::models::risk::{RiskLevel, RiskScore};
use ronway_scanner::report::pdf::{
    flag_str, sanitize, severity_label, wrap_line, Face, PdfItem, PdfReporter,
};
use ronway_scanner::report::terminal::{
    banner, level_paint, level_tagline, plain_text, render_text, signature, Paint,
};

#[test]
fn wrap_line_short_returns_single_line() {
    assert_eq!(
        wrap_line("hello world", 80),
        vec!["hello world".to_string()]
    );
}

#[test]
fn wrap_line_breaks_at_word_boundaries() {
    let lines = wrap_line("one two three four five", 9);
    assert_eq!(lines, vec!["one two", "three", "four five"]);
}

#[test]
fn wrap_line_hard_breaks_long_words() {
    let lines = wrap_line("aaaaaaaaaa", 4);
    assert_eq!(lines, vec!["aaaa", "aaaa", "aa"]);
}

#[test]
fn wrap_line_flushes_before_a_long_word_and_collapses_blanks() {
    let lines = wrap_line("ab   cdefghij  k", 4);
    assert_eq!(lines, vec!["ab", "cdef", "ghij", "k"]);
}

#[test]
fn wrap_line_cuts_multibyte_words_by_bytes() {
    let lines = wrap_line("éé", 3);
    assert_eq!(lines, vec!["é\u{FFFD}", "\u{FFFD}"]);
}

#[test]
fn wrap_line_ascii_lines_never_exceed_the_width() {
    let text = "Harvest-now-decrypt-later adversaries record ECDHE key exchanges today \
                and decrypt them once a cryptographically relevant quantum computer exists: \
                supercalifragilisticexpialidocious-identifiers-are-cut too.";
    for width in [5usize, 12, 20, 33] {
        let lines = wrap_line(text, width);
        assert!(!lines.is_empty());
        for line in &lines {
            assert!(line.len() <= width, "{:?} is longer than {}", line, width);
        }
    }
}

#[test]
fn sanitize_strips_high_codepoints() {
    let s = sanitize("hello \u{1F600} world");
    assert_eq!(s, "hello ? world");
}

#[test]
fn sanitize_keeps_latin1() {
    assert_eq!(sanitize("café"), "café");
}

#[test]
fn flags_and_severity_tags() {
    assert_eq!(flag_str("RSA", true), "RSA  [VULNERABLE]");
    assert_eq!(flag_str("X25519", false), "X25519");
    assert_eq!(severity_label(&RiskLevel::Medium), "MED ");
    assert_eq!(severity_label(&RiskLevel::Unknown), "N/A ");
}

fn sample_report() -> ScanReport {
    ScanReport {
        target: ScanTarget {
            domain: "bsp.gov.ph".into(),
            ip_address: Some("203.0.113.10".into()),
            port: 443,
            scanned_at: "2026-05-28T08:00:00+00:00".into(),
            scan_duration_ms: 482,
        },
        risk_score: RiskScore {
            value: 78,
            level: RiskLevel::High,
            summary: "bsp.gov.ph scored 78/100 (High).".into(),
            harvest_risk: true,
        },
        tls: Some(TlsFinding {
            protocol_version: "TLSv1.3".into(),
            protocol_vulnerable: false,
            cipher_suite: "TLS_AES_256_GCM_SHA384".into(),
            cipher_vulnerable: false,
            key_exchange: "ECDHE".into(),
            key_exchange_vulnerable: true,
            compression: "NULL".into(),
            compression_vulnerable: false,
        }),
        certificate: Some(CertFinding {
            subject: "CN=bsp.gov.ph".into(),
            issuer: "CN=DigiCert".into(),
            key_algorithm: "RSA 2048-bit".into(),
            key_algorithm_vulnerable: true,
            signature_algorithm: "sha256WithRSAEncryption".into(),
            signature_algorithm_vulnerable: true,
            valid_from: "2026-01-15T00:00:00+00:00".into(),
            valid_until: "2027-02-14T23:59:59+00:00".into(),
            days_remaining: 262,
            is_expired: false,
            is_self_signed: false,
            ct_logged: true,
        }),
        http: Some(HttpFinding {
            hsts_enabled: false,
            hsts_max_age: None,
            csp_present: false,
            x_frame_options: Some("SAMEORIGIN".into()),
            server_header: Some("nginx/1.25.3".into()),
        }),
        vulnerabilities: vec![Vulnerability {
            id: "ECDHE_KEY_EXCHANGE".into(),
            title: "Quantum-vulnerable key exchange: ECDHE".into(),
            description: "Elliptic curve discrete log solved by Shor's Algorithm".into(),
            severity: RiskLevel::Critical,
            nist_reference: "NIST FIPS 203 (ML-KEM)".into(),
            cvss_tenths: 81,
        }],
        recommendations: vec![Recommendation {
            priority: 1,
            action: "Switch to ML-KEM-768 hybrid".into(),
            current: "ECDHE".into(),
            replace_with: "X25519MLKEM768".into(),
            effort_weeks: 2,
            nist_algorithm: "ML-KEM-768".into(),
        }],
        summary: "bsp.gov.ph scored 78/100 (High).".into(),
        quantum_ready: false,
    }
}

fn line_texts(items: &[PdfItem]) -> Vec<String> {
    items
        .iter()
        .filter_map(|i| match i {
            PdfItem::Line { text, .. } => Some(text.clone()),
            PdfItem::Skip { .. } => None,
        })
        .collect()
}

#[test]
fn pdf_layout_lists_cover_sections_and_mark() {
    let items = PdfReporter::layout(&sample_report(), "0.1.0");
    let texts = line_texts(&items);
    assert_eq!(texts[0], "RonwayScanner");
    assert!(texts.contains(&"Target:   bsp.gov.ph:443".to_string()));
    assert!(texts.contains(&"RISK SCORE: 78/100  (High)".to_string()));
    assert!(texts.contains(&"[!] Harvest-now-decrypt-later risk detected.".to_string()));
    assert!(texts.contains(&"Protocol          TLSv1.3".to_string()));
    assert!(texts.contains(&"Key exchange      ECDHE  [VULNERABLE]".to_string()));
    assert!(texts.contains(&"HSTS              MISSING".to_string()));
    assert!(texts.contains(&"[CRIT] ECDHE_KEY_EXCHANGE ? Quantum-vulnerable key exchange: ECDHE".to_string()));
    assert!(texts.contains(&"    NIST: NIST FIPS 203 (ML-KEM) | CVSS-equivalent: 8.1".to_string()));
    assert!(texts.contains(&"P1. Switch to ML-KEM-768 hybrid".to_string()));
    assert_eq!(
        texts.last().unwrap(),
        "Generated by RonwayScanner v0.1.0 ? BPxAI ? All Rights Reserved"
    );
    match &items[0] {
        PdfItem::Line { face, size, advance, .. } => {
            assert_eq!(*face, Face::Bold);
            assert_eq!(*size, 2200);
            assert_eq!(*advance, 900);
        }
        PdfItem::Skip { .. } => panic!("the title comes first"),
    }
}

#[test]
fn pdf_layout_marks_unassessed_scans() {
    let mut r = sample_report();
    r.risk_score.level = RiskLevel::Unknown;
    r.tls = None;
    r.vulnerabilities.clear();
    r.recommendations.clear();
    let texts = line_texts(&PdfReporter::layout(&r, "1"));
    assert!(texts.contains(&"RISK SCORE: N/A  (scan incomplete ? endpoint not assessed)".to_string()));
    assert!(texts.contains(&"(TLS scan failed)".to_string()));
    assert!(texts.contains(&"None detected.".to_string()));
    assert!(texts.contains(&"None required.".to_string()));
}

#[test]
fn pdf_layout_lines_hold_only_latin1() {
    let mut r = sample_report();
    r.summary = "Résumé — ✓ migrate now \u{1F512} with ML-KEM".into();
    r.target.domain = "bücher.example".into();
    let items = PdfReporter::layout(&r, "0.1.0");
    let texts = line_texts(&items);
    assert!(texts.iter().any(|t| t.contains("Résumé ? ? migrate now ? with ML-KEM")));
    for t in &texts {
        assert!(t.chars().all(|c| (c as u32) <= 0xFF), "{:?} has a character above U+00FF", t);
    }
}

#[test]
fn terminal_report_has_banner_score_and_signature() {
    let r = sample_report();
    let spans = render_text(&r);
    let text = plain_text(&spans);
    assert!(text.contains(" Target    bsp.gov.ph:443\n"));
    assert!(text.contains("Risk score   78/100   High\n"));
    assert!(text.contains("   TLS    TLSv1.3 · TLS_AES_256_GCM_SHA384 · kx=ECDHE\n"));
    assert!(text.contains("HTTP  HSTS off · CSP off · server nginx/1.25.3\n"));
    assert!(text.contains("ref NIST FIPS 203 (ML-KEM) · CVSS≈8.1"));
    assert!(text.contains("   • Switch to ML-KEM-768 hybrid\n"));
    assert!(text.ends_with(&plain_text(&signature())));
    assert!(text.starts_with(&plain_text(&banner())));
    let level = spans.iter().find(|s| s.text == "High").unwrap();
    assert_eq!(level.paint, Paint::BoldBrightRed);
}

#[test]
fn terminal_report_of_unreachable_scan_shows_why() {
    let mut r = sample_report();
    r.tls = None;
    r.certificate = None;
    r.http = None;
    let text = plain_text(&render_text(&r));
    assert!(text.contains("Scan incomplete: could not complete a TLS handshake with bsp.gov.ph:443."));
    assert!(!text.contains("Risk score"));
}

#[test]
fn level_styles_and_taglines() {
    assert_eq!(level_paint(&RiskLevel::Pass), Paint::BoldGreen);
    assert_eq!(level_paint(&RiskLevel::Unknown), Paint::Dimmed);
    assert_eq!(level_tagline(&RiskLevel::Unknown), "The endpoint could not be assessed.");
}
