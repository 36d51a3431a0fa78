//! RonwayScanner: post-quantum TLS / certificate / HTTP posture classification.
//!
//! A scan runs the TLS and HTTP probes, derives the certificate finding from
//! the TLS handshake's peer certificate, classifies everything against NIST
//! post-quantum guidance, scores it, and assembles a [`ScanReport`]. The
//! probes themselves talk to the network; everything they hand back is
//! graded here.

pub mod classifier;
pub mod cli;
pub mod models;
pub mod report;
pub mod scanner;
pub mod server;
pub mod store;
pub mod target;
pub mod text;

use vstd::prelude::*;

use crate::classifier::algorithms::{
    cert_reportable, cert_vulns, cipher_vulns, expected_vulnerabilities, expired_vulns,
    http_vulns, key_exchange_verdict, key_exchange_vulns, key_vulns, self_signed_vulns,
    signature_vulns, version_vulns, vuln_view, VulnerabilityDatabase, NO_HSTS_DESCRIPTION,
    NO_HSTS_TITLE, RFC_6797,
};
use crate::classifier::recommendations::{expected_recommendations, RecommendationEngine};
use crate::classifier::scoring::{
    executive_summary, harvest_present, is_harvest_id, score_value, RiskScorer,
};
use crate::models::finding::{
    rec_views, vuln_views, CertFinding, HttpFinding, TlsFinding, VulnerabilityView,
};
use crate::models::report::{ScanReport, ScanTarget};
use crate::models::risk::{level_for_score, RiskLevel, RiskScore};
use crate::scanner::cert::{graded_der, utc_now, CertError, CertScanner};
use crate::scanner::tls::{TlsScanError, TlsScanResult};
use crate::text::{decimal, owned, push_decimal, push_str};

verus! {

/// Default TLS port.
pub const DEFAULT_PORT: u16 = 443;

/// The scan orchestrator. The probes are run by the caller; this type
/// grades what they return.
pub struct RonwayScanner;

/// The summary of a scan in which no probe answered.
pub open spec fn unreachable_summary(target: Seq<char>, port: u16) -> Seq<char> {
    "RonwayScanner could not reach "@ + target + " on port "@ + decimal(port as nat)
        + ", so its post-quantum posture could not be assessed. Confirm the host is online and serving TLS on that port, then re-scan."@
}

/// Quantum-ready: TLS answered with no quantum-vulnerable protocol version,
/// cipher or key exchange, and a certificate was read whose key and
/// signature are safe and which has not expired.
pub open spec fn quantum_ready(tls: Option<TlsFinding>, cert: Option<CertFinding>) -> bool {
    match tls {
        None => false,
        Some(t) => {
            &&& !t.protocol_vulnerable
            &&& !t.cipher_vulnerable
            &&& !t.key_exchange_vulnerable
            &&& match cert {
                Some(c) => !c.key_algorithm_vulnerable && !c.signature_algorithm_vulnerable
                    && !c.is_expired,
                None => false,
            }
        },
    }
}

/// The certificate finding a parse outcome leaves: the finding on success,
/// nothing on any error.
pub open spec fn kept_finding(r: Result<CertFinding, CertError>) -> Option<CertFinding> {
    match r {
        Ok(f) => Some(f),
        Err(_) => None,
    }
}

/// The findings a TLS probe outcome yields when any certificate it carries
/// is graded at `now`.
pub open spec fn split_at(
    res: (Option<TlsFinding>, Option<CertFinding>),
    outcome: Result<TlsScanResult, TlsScanError>,
    now_secs: int,
    now_nanos: int,
) -> bool {
    match outcome {
        Err(_) => res.0 is None && res.1 is None,
        Ok(r) => {
            &&& res.0 == Some(r.finding)
            &&& match r.peer_cert_der {
                None => res.1 is None,
                Some(der) => exists|g: Result<CertFinding, CertError>|
                    graded_der(g, der@, now_secs, now_nanos) && res.1 == #[trigger] kept_finding(g),
            }
        },
    }
}

/// The peer certificate of a TLS outcome, if any, is short enough that its
/// size in bits fits a `usize`.
pub open spec fn der_size_fits(outcome: Result<TlsScanResult, TlsScanError>) -> bool {
    outcome matches Ok(r) ==> (r.peer_cert_der matches Some(d) ==> d@.len() * 8 <= usize::MAX)
}

/// Whether a scan with these findings is quantum-ready.
pub fn is_quantum_ready(tls: &Option<TlsFinding>, cert: &Option<CertFinding>) -> (res: bool)
    ensures
        res == quantum_ready(*tls, *cert),
{
    let t = match tls {
        Some(t) => t,
        None => {
            return false;
        },
    };
    if t.protocol_vulnerable || t.cipher_vulnerable || t.key_exchange_vulnerable {
        return false;
    }
    match cert {
        Some(c) => !c.key_algorithm_vulnerable && !c.signature_algorithm_vulnerable
            && !c.is_expired,
        None => false,
    }
}

/// Splits a TLS probe outcome into the TLS finding and the certificate
/// finding of its peer certificate, graded at the instant `now_secs` +
/// `now_nanos`·10⁻⁹. A failed probe yields neither; a certificate that does
/// not parse is dropped.
pub fn split_tls_outcome_at(
    outcome: Result<TlsScanResult, TlsScanError>,
    now_secs: i64,
    now_nanos: u32,
) -> (res: (Option<TlsFinding>, Option<CertFinding>))
    requires
        der_size_fits(outcome),
    ensures
        split_at(res, outcome, now_secs as int, now_nanos as int),
        res.1 matches Some(c) ==> cert_reportable(c),
{
    match outcome {
        Ok(result) => {
            let cert = match &result.peer_cert_der {
                Some(der) => {
                    let g = CertScanner::parse_der_at(der.as_slice(), now_secs, now_nanos);
                    let kept = match g {
                        Ok(f) => Some(f),
                        Err(_) => None,
                    };
                    assert(kept == kept_finding(g));
                    kept
                },
                None => None,
            };
            (Some(result.finding), cert)
        },
        Err(_) => (None, None),
    }
}

/// Splits a TLS probe outcome into the TLS finding and the certificate
/// finding of its peer certificate, graded against the current time.
pub fn split_tls_outcome(outcome: Result<TlsScanResult, TlsScanError>) -> (res: (
    Option<TlsFinding>,
    Option<CertFinding>,
))
    requires
        der_size_fits(outcome),
    ensures
        exists|now_secs: i64, now_nanos: u32|
            now_nanos < 1_000_000_000 && split_at(res, outcome, now_secs as int, now_nanos as int),
        res.1 matches Some(c) ==> cert_reportable(c),
{
    let (now_secs, now_nanos) = utc_now();
    split_tls_outcome_at(outcome, now_secs, now_nanos)
}

/// The report fields that follow from the findings.
pub open spec fn report_grades(
    r: ScanReport,
    target: Seq<char>,
    port: u16,
    tls: Option<TlsFinding>,
    cert: Option<CertFinding>,
    http: Option<HttpFinding>,
) -> bool {
    let vulns = expected_vulnerabilities(tls, cert, http);
    let value = score_value(vulns);
    let level = level_for_score(value as int);
    let harvest = harvest_present(vulns);
    &&& vuln_views(r.vulnerabilities@) == vulns
    &&& rec_views(r.recommendations@) == expected_recommendations(vulns)
    &&& if tls is None && cert is None && http is None {
        &&& r.risk_score.value == 0
        &&& r.risk_score.level == RiskLevel::Unknown
        &&& !r.risk_score.harvest_risk
        &&& r.risk_score.summary@ == unreachable_summary(target, port)
    } else {
        &&& r.risk_score.value as nat == value
        &&& r.risk_score.level == level
        &&& r.risk_score.harvest_risk == harvest
        &&& r.risk_score.summary@ == executive_summary(target, value, level, harvest)
    }
    &&& r.summary@ == r.risk_score.summary@
    &&& r.quantum_ready == (quantum_ready(tls, cert) && r.risk_score.value == 0)
}

impl RonwayScanner {
    /// The report of a scan of `target:port` that started at `scanned_at`
    /// and took `scan_duration_ms`, from what the probes returned. When no
    /// probe answered the scan is not graded: the level is Unknown and the
    /// summary says the host could not be reached. The report is
    /// quantum-ready only when its algorithms are and its score is 0.
    pub fn assemble_report(
        target: &str,
        port: u16,
        scanned_at: String,
        scan_duration_ms: u64,
        tls: Option<TlsFinding>,
        cert: Option<CertFinding>,
        http: Option<HttpFinding>,
    ) -> (res: ScanReport)
        requires
            cert matches Some(c) ==> cert_reportable(c),
        ensures
            res.target.domain@ == target@,
            res.target.ip_address is None,
            res.target.port == port,
            res.target.scanned_at == scanned_at,
            res.target.scan_duration_ms == scan_duration_ms,
            res.tls == tls,
            res.certificate == cert,
            res.http == http,
            report_grades(res, target@, port, tls, cert, http),
    {
        let vulnerabilities = VulnerabilityDatabase::build_vulnerabilities(
            tls.as_ref(),
            cert.as_ref(),
            http.as_ref(),
        );
        let calculated = RiskScorer::calculate(vulnerabilities.as_slice());
        let risk_score = if tls.is_none() && cert.is_none() && http.is_none() {
            let mut summary = owned("RonwayScanner could not reach ");
            push_str(&mut summary, target);
            push_str(&mut summary, " on port ");
            push_decimal(&mut summary, port as u64);
            push_str(
                &mut summary,
                ", so its post-quantum posture could not be assessed. Confirm the host is online and serving TLS on that port, then re-scan.",
            );
            RiskScore { value: 0, level: RiskLevel::Unknown, summary, harvest_risk: false }
        } else {
            let summary = RiskScorer::generate_summary(&calculated, target);
            RiskScore {
                value: calculated.value,
                level: calculated.level,
                summary,
                harvest_risk: calculated.harvest_risk,
            }
        };
        let recommendations = RecommendationEngine::generate(vulnerabilities.as_slice());
        let summary = risk_score.summary.clone();
        let quantum_ready = is_quantum_ready(&tls, &cert) && risk_score.value == 0;
        let target_record = ScanTarget {
            domain: owned(target),
            ip_address: None,
            port,
            scanned_at,
            scan_duration_ms,
        };
        ScanReport {
            target: target_record,
            risk_score,
            tls,
            certificate: cert,
            http,
            vulnerabilities,
            recommendations,
            summary,
            quantum_ready,
        }
    }
}

/// A quantum-ready scan carries no harvest-now-decrypt-later risk: when the
/// TLS finding's key-exchange flag is the classifier's verdict on its key
/// exchange (as the TLS probe reports it), a report that is quantum-ready
/// has no RSA, ECDHE or DH key-exchange record and so no harvest flag.
pub proof fn law_quantum_ready_has_no_harvest_risk(
    r: ScanReport,
    target: Seq<char>,
    port: u16,
    tls: Option<TlsFinding>,
    cert: Option<CertFinding>,
    http: Option<HttpFinding>,
)
    requires
        report_grades(r, target, port, tls, cert, http),
        tls matches Some(t) ==> t.key_exchange_vulnerable == key_exchange_verdict(
            t.key_exchange@,
        ).0,
        r.quantum_ready,
    ensures
        !r.risk_score.harvest_risk,
{
    let t = tls.unwrap();
    let c = cert.unwrap();
    lemma_record_ids_are_not_key_exchanges();
    let v = version_vulns(t);
    let k = key_exchange_vulns(t);
    let ci = cipher_vulns(t);
    let h = match http {
        Some(x) => http_vulns(x),
        None => seq![],
    };
    assert(k.len() == 0);
    assert(no_harvest_ids(v));
    assert(no_harvest_ids(k));
    assert(no_harvest_ids(ci));
    lemma_cert_records_not_harvest(c);
    if let Some(x) = http {
        lemma_http_records_not_harvest(x);
    }
    assert(no_harvest_ids(h));
    lemma_no_harvest_concat(v, k);
    lemma_no_harvest_concat(v + k, ci);
    lemma_no_harvest_concat(v + k + ci, cert_vulns(c));
    lemma_no_harvest_concat(v + k + ci + cert_vulns(c), h);
    let vulns = expected_vulnerabilities(tls, cert, http);
    assert(vulns =~= v + k + ci + cert_vulns(c) + h);
}

/// No record in `vs` carries a key-exchange id.
pub open spec fn no_harvest_ids(vs: Seq<VulnerabilityView>) -> bool {
    forall|i: int| 0 <= i < vs.len() ==> !is_harvest_id(#[trigger] vs[i].id)
}

proof fn lemma_no_harvest_concat(a: Seq<VulnerabilityView>, b: Seq<VulnerabilityView>)
    requires
        no_harvest_ids(a),
        no_harvest_ids(b),
    ensures
        no_harvest_ids(a + b),
{
    assert forall|i: int| 0 <= i < (a + b).len() implies !is_harvest_id(#[trigger] (a + b)[i].id) by {
        if i < a.len() {
            assert((a + b)[i] == a[i]);
        } else {
            assert((a + b)[i] == b[i - a.len()]);
        }
    }
}

proof fn lemma_cert_records_not_harvest(c: CertFinding)
    ensures
        no_harvest_ids(cert_vulns(c)),
{
    lemma_record_ids_are_not_key_exchanges();
    let e = expired_vulns(c);
    let s = self_signed_vulns(c);
    let kv = key_vulns(c);
    let sv = signature_vulns(c);
    assert(no_harvest_ids(e));
    assert(no_harvest_ids(s));
    assert(no_harvest_ids(kv));
    assert(no_harvest_ids(sv));
    lemma_no_harvest_concat(e, s);
    lemma_no_harvest_concat(e + s, kv);
    lemma_no_harvest_concat(e + s + kv, sv);
}

proof fn lemma_http_records_not_harvest(h: HttpFinding)
    ensures
        no_harvest_ids(http_vulns(h)),
{
    lemma_record_ids_are_not_key_exchanges();
    let hs: Seq<VulnerabilityView> = if !h.hsts_enabled {
        seq![vuln_view("NO_HSTS"@, NO_HSTS_TITLE@, NO_HSTS_DESCRIPTION@, RiskLevel::Low,
            RFC_6797@, 37)]
    } else {
        seq![]
    };
    let leak = http_vulns(h).skip(hs.len() as int);
    assert(http_vulns(h) =~= hs + leak);
    assert(no_harvest_ids(hs));
    assert(no_harvest_ids(leak));
    lemma_no_harvest_concat(hs, leak);
}

/// None of the ids recorded for a protocol version, cipher suite,
/// certificate or HTTP header is a key-exchange id.
proof fn lemma_record_ids_are_not_key_exchanges()
    ensures
        !is_harvest_id("TLS_LEGACY_VERSION"@),
        !is_harvest_id("TLS_VERSION_VULNERABLE"@),
        !is_harvest_id("NULL_CIPHER"@),
        !is_harvest_id("EXPORT_CIPHER"@),
        !is_harvest_id("RC4_CIPHER"@),
        !is_harvest_id("TRIPLE_DES_CIPHER"@),
        !is_harvest_id("CBC_CIPHER"@),
        !is_harvest_id("MD5_CIPHER"@),
        !is_harvest_id("SHA1_CIPHER"@),
        !is_harvest_id("VULNERABLE_CIPHER"@),
        !is_harvest_id("CERT_EXPIRED"@),
        !is_harvest_id("CERT_SELF_SIGNED"@),
        !is_harvest_id("RSA_CERTIFICATE"@),
        !is_harvest_id("ECDSA_CERTIFICATE"@),
        !is_harvest_id("SHA1_IN_CHAIN"@),
        !is_harvest_id("ECDSA_SIGNATURE"@),
        !is_harvest_id("RSA_SIGNATURE"@),
        !is_harvest_id("NO_HSTS"@),
        !is_harvest_id("SERVER_HEADER_LEAK"@),
{
    reveal_strlit("RSA_KEY_EXCHANGE");
    reveal_strlit("ECDHE_KEY_EXCHANGE");
    reveal_strlit("DH_KEY_EXCHANGE");
    reveal_strlit("TLS_LEGACY_VERSION");
    reveal_strlit("TLS_VERSION_VULNERABLE");
    reveal_strlit("NULL_CIPHER");
    reveal_strlit("EXPORT_CIPHER");
    reveal_strlit("RC4_CIPHER");
    reveal_strlit("TRIPLE_DES_CIPHER");
    reveal_strlit("CBC_CIPHER");
    reveal_strlit("MD5_CIPHER");
    reveal_strlit("SHA1_CIPHER");
    reveal_strlit("VULNERABLE_CIPHER");
    reveal_strlit("CERT_EXPIRED");
    reveal_strlit("CERT_SELF_SIGNED");
    reveal_strlit("RSA_CERTIFICATE");
    reveal_strlit("ECDSA_CERTIFICATE");
    reveal_strlit("SHA1_IN_CHAIN");
    reveal_strlit("ECDSA_SIGNATURE");
    reveal_strlit("RSA_SIGNATURE");
    reveal_strlit("NO_HSTS");
    reveal_strlit("SERVER_HEADER_LEAK");
    assert("RSA_KEY_EXCHANGE"@.len() == 16);
    assert("ECDHE_KEY_EXCHANGE"@.len() == 18);
    assert("DH_KEY_EXCHANGE"@.len() == 15);
    assert("TLS_LEGACY_VERSION"@.len() == 18);
    assert("TLS_VERSION_VULNERABLE"@.len() == 22);
    assert("NULL_CIPHER"@.len() == 11);
    assert("EXPORT_CIPHER"@.len() == 13);
    assert("RC4_CIPHER"@.len() == 10);
    assert("TRIPLE_DES_CIPHER"@.len() == 17);
    assert("CBC_CIPHER"@.len() == 10);
    assert("MD5_CIPHER"@.len() == 10);
    assert("SHA1_CIPHER"@.len() == 11);
    assert("VULNERABLE_CIPHER"@.len() == 17);
    assert("CERT_EXPIRED"@.len() == 12);
    assert("CERT_SELF_SIGNED"@.len() == 16);
    assert("RSA_CERTIFICATE"@.len() == 15);
    assert("ECDSA_CERTIFICATE"@.len() == 17);
    assert("SHA1_IN_CHAIN"@.len() == 13);
    assert("ECDSA_SIGNATURE"@.len() == 15);
    assert("RSA_SIGNATURE"@.len() == 13);
    assert("NO_HSTS"@.len() == 7);
    assert("SERVER_HEADER_LEAK"@.len() == 18);
    assert("TLS_LEGACY_VERSION"@[0] != "ECDHE_KEY_EXCHANGE"@[0]);
    assert("CERT_SELF_SIGNED"@[0] != "RSA_KEY_EXCHANGE"@[0]);
    assert("RSA_CERTIFICATE"@[0] != "DH_KEY_EXCHANGE"@[0]);
    assert("ECDSA_SIGNATURE"@[0] != "DH_KEY_EXCHANGE"@[0]);
    assert("SERVER_HEADER_LEAK"@[0] != "ECDHE_KEY_EXCHANGE"@[0]);
}

/// A scan in which no probe answered is never graded: it reports no
/// vulnerability, a zero score at level Unknown, no harvest risk, and is not
/// quantum-ready.
pub proof fn law_unreachable_scan_is_not_graded(r: ScanReport, target: Seq<char>, port: u16)
    requires
        report_grades(r, target, port, None, None, None),
    ensures
        r.vulnerabilities@.len() == 0,
        r.risk_score.value == 0,
        r.risk_score.level == RiskLevel::Unknown,
        !r.risk_score.harvest_risk,
        !r.quantum_ready,
{
    assert(vuln_views(r.vulnerabilities@).len() == r.vulnerabilities@.len());
}

} // verus!
