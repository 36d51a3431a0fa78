//! The TLS, HTTP and certificate findings computed from what a handshake,
//! a response and a certificate provide.

use reqwest::header::{HeaderMap, HeaderName, HeaderValue};
use ronway_scanner::classifier::algorithms::AlgorithmClassifier;
use ronway_scanner::scanner::cert::{
    ec_curve_name, rsa_modulus_bits, signature_algorithm_name, CertError, CertScanner,
    CertificateFields, KeyDetails,
};
use ronway_scanner::scanner::http::{parse_headers, parse_hsts_max_age};
use ronway_scanner::scanner::tls::{
    derive_kx_from_cipher, format_protocol_version, kx_group_name, NamedGroup, ProtocolVersion,
    TlsScanner,
};
use x509_parser::der_parser::oid::Oid;

fn make_headers(pairs: &[(&str, &str)]) -> HeaderMap {
    let mut h = HeaderMap::new();
    for (k, v) in pairs {
        let name = HeaderName::from_bytes(k.as_bytes()).unwrap();
        h.insert(name, HeaderValue::from_str(v).unwrap());
    }
    h
}

#[test]
fn parse_hsts_max_age_basic() {
    assert_eq!(parse_hsts_max_age("max-age=31536000"), Some(31_536_000));
}

#[test]
fn parse_hsts_max_age_with_directives() {
    assert_eq!(
        parse_hsts_max_age("max-age=63072000; includeSubDomains; preload"),
        Some(63_072_000)
    );
}

#[test]
fn parse_hsts_max_age_quoted() {
    assert_eq!(parse_hsts_max_age("max-age=\"3600\""), Some(3_600));
}

#[test]
fn parse_hsts_max_age_case_insensitive_directive() {
    assert_eq!(parse_hsts_max_age("Max-Age=600"), Some(600));
}

#[test]
fn parse_hsts_max_age_missing_returns_none() {
    assert_eq!(parse_hsts_max_age("includeSubDomains"), None);
}

#[test]
fn parse_hsts_max_age_unparseable_returns_none() {
    assert_eq!(parse_hsts_max_age("max-age=forever"), None);
}

#[test]
fn hsts_max_age_takes_first_readable_directive() {
    assert_eq!(parse_hsts_max_age("max-age=x; max-age = 42"), Some(42));
    assert_eq!(parse_hsts_max_age("preload;MAX-AGE=+7"), Some(7));
    assert_eq!(parse_hsts_max_age("max-age=18446744073709551616"), None);
    assert_eq!(parse_hsts_max_age(""), None);
}

#[test]
fn parse_headers_full_security_set() {
    let headers = make_headers(&[
        (
            "strict-transport-security",
            "max-age=31536000; includeSubDomains",
        ),
        ("content-security-policy", "default-src 'self'"),
        ("x-frame-options", "DENY"),
        ("server", "nginx/1.25.3"),
    ]);
    let finding = parse_headers(&headers);
    assert!(finding.hsts_enabled);
    assert_eq!(finding.hsts_max_age, Some(31_536_000));
    assert!(finding.csp_present);
    assert_eq!(finding.x_frame_options.as_deref(), Some("DENY"));
    assert_eq!(finding.server_header.as_deref(), Some("nginx/1.25.3"));
}

#[test]
fn parse_headers_no_security_headers() {
    let finding = parse_headers(&HeaderMap::new());
    assert!(!finding.hsts_enabled);
    assert!(finding.hsts_max_age.is_none());
    assert!(!finding.csp_present);
    assert!(finding.x_frame_options.is_none());
    assert!(finding.server_header.is_none());
}

#[test]
fn parse_headers_hsts_without_max_age() {
    let headers = make_headers(&[("strict-transport-security", "includeSubDomains")]);
    let finding = parse_headers(&headers);
    assert!(finding.hsts_enabled);
    assert!(finding.hsts_max_age.is_none());
}

#[test]
fn parse_headers_trims_values_and_matches_names_in_any_case() {
    let headers = make_headers(&[("Server", "  Apache  "), ("X-Frame-Options", "\tSAMEORIGIN")]);
    let finding = parse_headers(&headers);
    assert_eq!(finding.server_header.as_deref(), Some("Apache"));
    assert_eq!(finding.x_frame_options.as_deref(), Some("SAMEORIGIN"));
}

#[test]
fn parse_headers_ignores_values_that_are_not_text() {
    let mut h = HeaderMap::new();
    h.insert(
        HeaderName::from_static("server"),
        HeaderValue::from_bytes(b"caf\xc3\xa9").unwrap(),
    );
    let finding = parse_headers(&h);
    assert!(finding.server_header.is_none());
}

#[test]
fn format_protocol_version_known_versions() {
    assert_eq!(
        format_protocol_version(Some(ProtocolVersion::TLSv1_3)),
        "TLSv1.3"
    );
    assert_eq!(
        format_protocol_version(Some(ProtocolVersion::TLSv1_2)),
        "TLSv1.2"
    );
    assert_eq!(
        format_protocol_version(Some(ProtocolVersion::TLSv1_0)),
        "TLSv1.0"
    );
    assert_eq!(
        format_protocol_version(Some(ProtocolVersion::SSLv3)),
        "SSLv3"
    );
}

#[test]
fn format_protocol_version_none_is_unknown() {
    assert_eq!(format_protocol_version(None), "unknown");
}

#[test]
fn derive_kx_recognises_ecdhe() {
    assert_eq!(
        derive_kx_from_cipher("TLS_ECDHE_RSA_WITH_AES_256_GCM_SHA384"),
        "ECDHE"
    );
}

#[test]
fn derive_kx_recognises_dhe() {
    assert_eq!(
        derive_kx_from_cipher("TLS_DHE_RSA_WITH_AES_128_GCM_SHA256"),
        "DHE"
    );
}

#[test]
fn derive_kx_recognises_rsa_only() {
    assert_eq!(derive_kx_from_cipher("TLS_RSA_WITH_AES_128_CBC_SHA"), "RSA");
}

#[test]
fn derive_kx_unknown_for_tls13_cipher_names() {
    assert_eq!(derive_kx_from_cipher("TLS_AES_256_GCM_SHA384"), "unknown");
    assert_eq!(
        derive_kx_from_cipher("TLS_CHACHA20_POLY1305_SHA256"),
        "unknown"
    );
}

#[test]
fn kx_group_x25519_classifies_as_safe() {
    let name = kx_group_name(NamedGroup::X25519);
    assert_eq!(name, "X25519");
    let (vuln, _) = AlgorithmClassifier::is_key_exchange_vulnerable(&name);
    assert!(!vuln);
}

#[test]
fn kx_group_p256_classifies_as_ecdhe_vulnerable() {
    let name = kx_group_name(NamedGroup::secp256r1);
    assert_eq!(name, "ECDHE");
    let (vuln, _) = AlgorithmClassifier::is_key_exchange_vulnerable(&name);
    assert!(vuln);
}

#[test]
fn kx_group_ffdhe_classifies_as_dhe_vulnerable() {
    let name = kx_group_name(NamedGroup::FFDHE2048);
    assert_eq!(name, "DHE");
    let (vuln, _) = AlgorithmClassifier::is_key_exchange_vulnerable(&name);
    assert!(vuln);
}

#[test]
fn kx_group_pq_hybrid_classifies_as_safe() {
    let name = kx_group_name(NamedGroup::X25519MLKEM768);
    assert_eq!(name, "X25519MLKEM768");
    let (vuln, _) = AlgorithmClassifier::is_key_exchange_vulnerable(&name);
    assert!(!vuln);
}

#[test]
fn handshake_without_group_derives_kx_from_cipher() {
    let result = TlsScanner::inspect_handshake(
        Some(ProtocolVersion::TLSv1_2),
        Some("TLS_ECDHE_RSA_WITH_AES_128_CBC_SHA256".into()),
        None,
        Some(vec![1, 2, 3]),
    );
    let f = result.finding;
    assert_eq!(f.protocol_version, "TLSv1.2");
    assert!(f.protocol_vulnerable);
    assert_eq!(f.key_exchange, "ECDHE");
    assert!(f.key_exchange_vulnerable);
    assert!(f.cipher_vulnerable);
    assert_eq!(f.compression, "NULL");
    assert_eq!(result.peer_cert_der, Some(vec![1, 2, 3]));
}

#[test]
fn handshake_renames_tls13_cipher_suites() {
    let result = TlsScanner::inspect_handshake(
        Some(ProtocolVersion::TLSv1_3),
        Some("TLS13_AES_256_GCM_SHA384".into()),
        Some(NamedGroup::X25519MLKEM768),
        None,
    );
    let f = result.finding;
    assert_eq!(f.cipher_suite, "TLS_AES_256_GCM_SHA384");
    assert!(!f.cipher_vulnerable);
    assert!(!f.protocol_vulnerable);
    assert!(!f.key_exchange_vulnerable);
}

fn dotted(arcs: &[u64]) -> String {
    Oid::from(arcs).unwrap().to_id_string()
}

#[test]
fn rsa_modulus_bits_strips_leading_zero() {
    let mut modulus = vec![0u8];
    modulus.extend(std::iter::repeat_n(0xFFu8, 256));
    assert_eq!(rsa_modulus_bits(&modulus), 2048);
}

#[test]
fn rsa_modulus_bits_without_pad() {
    let modulus = vec![0x80u8; 256];
    assert_eq!(rsa_modulus_bits(&modulus), 2048);
}

#[test]
fn signature_name_maps_known_oids() {
    let oid = dotted(&[1, 2, 840, 113549, 1, 1, 11]);
    assert_eq!(signature_algorithm_name(&oid), "sha256WithRSAEncryption");

    let oid = dotted(&[1, 2, 840, 10045, 4, 3, 2]);
    assert_eq!(signature_algorithm_name(&oid), "ecdsa-with-SHA256");

    let oid = dotted(&[1, 3, 101, 112]);
    assert_eq!(signature_algorithm_name(&oid), "Ed25519");

    let oid = dotted(&[2, 16, 840, 1, 101, 3, 4, 3, 18]);
    assert_eq!(signature_algorithm_name(&oid), "id-ML-DSA-65");
}

#[test]
fn signature_name_falls_back_to_oid_string() {
    let oid = dotted(&[1, 2, 3, 4, 5]);
    assert_eq!(signature_algorithm_name(&oid), "1.2.3.4.5");
}

#[test]
fn cert_malformed_der_returns_error() {
    let bytes = b"not actually a certificate";
    assert!(CertScanner::parse_der(bytes).is_err());
}

#[test]
fn curve_names_of_known_parameters() {
    assert_eq!(ec_curve_name(Some("1.2.840.10045.3.1.7")), Some("P-256"));
    assert_eq!(ec_curve_name(Some("1.3.132.0.34")), Some("P-384"));
    assert_eq!(ec_curve_name(Some("1.2.3")), None);
    assert_eq!(ec_curve_name(None), None);
}

fn key() -> KeyDetails {
    KeyDetails {
        rsa_modulus: Some(vec![0x80u8; 256]),
        parameter_oid: Some("1.3.132.0.35".into()),
    }
}

fn fields(key_oid: &str, not_after: i64) -> CertificateFields {
    CertificateFields {
        subject: "CN=a".into(),
        issuer: "CN=b".into(),
        signature_oid: "1.2.840.113549.1.1.11".into(),
        key_oid: key_oid.into(),
        not_before: 0,
        not_after,
        extension_oids: vec!["2.5.29.17".into(), "1.3.6.1.4.1.11129.2.4.2".into()],
    }
}

#[test]
fn finding_from_fields_grades_rsa_certificate() {
    let f = fields("1.2.840.113549.1.1.1", 864_000);
    let c = CertScanner::finding_from_fields(
        &f,
        &key(),
        Some("from".into()),
        Some("until".into()),
        0,
        1,
    )
    .unwrap();
    assert_eq!(c.key_algorithm, "RSA 2048-bit");
    assert!(c.key_algorithm_vulnerable);
    assert_eq!(c.signature_algorithm, "sha256WithRSAEncryption");
    assert!(c.signature_algorithm_vulnerable);
    assert!(!c.is_self_signed);
    assert!(c.ct_logged);
    assert_eq!(c.days_remaining, 9);
    assert!(!c.is_expired);
    assert_eq!(c.valid_from, "from");
    assert_eq!(c.valid_until, "until");
}

#[test]
fn finding_from_fields_names_ec_curve_and_expiry() {
    let f = fields("1.2.840.10045.2.1", 100);
    let c = CertScanner::finding_from_fields(&f, &key(), Some("a".into()), Some("b".into()), 100, 5)
        .unwrap();
    assert_eq!(c.key_algorithm, "EC P-521");
    assert!(c.is_expired);
    assert_eq!(c.days_remaining, 0);
    let c = CertScanner::finding_from_fields(&f, &key(), Some("a".into()), Some("b".into()), 100 + 2 * 86_400, 0)
        .unwrap();
    assert_eq!(c.days_remaining, -2);
}

#[test]
fn finding_from_fields_reports_range_errors_end_first() {
    let f = fields("1.3.101.112", 0);
    assert!(matches!(
        CertScanner::finding_from_fields(&f, &key(), None, None, 0, 0),
        Err(CertError::NotAfterOutOfRange)
    ));
    assert!(matches!(
        CertScanner::finding_from_fields(&f, &key(), None, Some("x".into()), 0, 0),
        Err(CertError::NotBeforeOutOfRange)
    ));
    assert_eq!(
        CertError::NotAfterOutOfRange.message(),
        "not_after timestamp out of range"
    );
}

#[test]
fn parse_error_message_names_the_parser_failure() {
    match CertScanner::parse_der_at(b"garbage", 0, 0) {
        Err(e @ CertError::Parse(_)) => assert!(e.message().starts_with("X.509 DER parse failed: ")),
        _ => panic!("expected a parse error"),
    }
}
