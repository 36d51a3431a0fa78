//! Remediation advice: each vulnerability id maps to one prioritised
//! recommendation; the advice list holds each id once, most urgent first.

use vstd::prelude::*;

use crate::models::finding::{
    rec_views, vuln_views, Recommendation, RecommendationView, Vulnerability, VulnerabilityView,
};
use crate::classifier::lemma_id_shapes;
use crate::text::{chars_of, eq_str, has_infix, owned, string_views};

verus! {

/// A recommendation with the given fields.
pub open spec fn rec_view(
    priority: u8,
    action: Seq<char>,
    current: Seq<char>,
    replace_with: Seq<char>,
    effort_weeks: u8,
    nist_algorithm: Seq<char>,
) -> RecommendationView {
    RecommendationView { priority, action, current, replace_with, effort_weeks, nist_algorithm }
}

/// The advice for a vulnerability id, if it has any.
pub open spec fn rec_table(id: Seq<char>) -> Option<RecommendationView> {
    if id == "RSA_KEY_EXCHANGE"@ {
        Some(rec_view(1, "Replace RSA key exchange with ML-KEM-768 hybrid"@, "RSA key exchange (quantum vulnerable)"@, "X25519MLKEM768 hybrid key exchange (NIST FIPS 203)"@, 2, "ML-KEM-768 (FIPS 203)"@))
    } else if id == "ECDHE_KEY_EXCHANGE"@ {
        Some(rec_view(1, "Add ML-KEM-768 hybrid alongside ECDHE"@, "ECDHE only (quantum vulnerable)"@, "X25519MLKEM768 hybrid — ML-KEM-768 + X25519"@, 2, "ML-KEM-768 (FIPS 203)"@))
    } else if id == "DH_KEY_EXCHANGE"@ {
        Some(rec_view(1, "Replace finite-field Diffie-Hellman with ML-KEM-768 hybrid"@, "DH/DHE key exchange (quantum vulnerable)"@, "X25519MLKEM768 hybrid key exchange (NIST FIPS 203)"@, 2, "ML-KEM-768 (FIPS 203)"@))
    } else if id == "VULNERABLE_KEY_EXCHANGE"@ {
        Some(rec_view(1, "Replace key exchange with NIST PQC primitive"@, "Unknown / non-PQC key exchange"@, "X25519MLKEM768 hybrid key exchange (NIST FIPS 203)"@, 2, "ML-KEM-768 (FIPS 203)"@))
    } else if id == "TLS_LEGACY_VERSION"@ {
        Some(rec_view(2, "Disable SSL, TLS 1.0, and TLS 1.1. Enable TLS 1.3 only"@, "Legacy SSL/TLS version negotiated"@, "TLS 1.3 only configuration"@, 1, "TLS 1.3 (RFC 8446)"@))
    } else if id == "TLS_VERSION_VULNERABLE"@ {
        Some(rec_view(2, "Disable TLS 1.0, 1.1, 1.2. Enable TLS 1.3 only"@, "TLS 1.2 or below (allows vulnerable cipher suites)"@, "TLS 1.3 only configuration"@, 1, "TLS 1.3 (RFC 8446)"@))
    } else if id == "RSA_CERTIFICATE"@ || id == "RSA_SIGNATURE"@ {
        Some(rec_view(3, "Replace RSA certificate with ML-DSA-65 certificate"@, "RSA-2048 or RSA-4096 certificate (quantum vulnerable)"@, "ML-DSA-65 certificate from PQC-ready CA"@, 4, "ML-DSA-65 (FIPS 204)"@))
    } else if id == "ECDSA_CERTIFICATE"@ || id == "ECDSA_SIGNATURE"@ {
        Some(rec_view(3, "Replace ECDSA certificate with ML-DSA-65"@, "ECDSA certificate (quantum vulnerable)"@, "ML-DSA-65 certificate or Ed25519 as interim"@, 4, "ML-DSA-65 (FIPS 204)"@))
    } else if id == "SHA1_IN_CHAIN"@ {
        Some(rec_view(3, "Reissue certificate without SHA-1 in the chain"@, "SHA-1 signature in certificate (collision vulnerable)"@, "SHA-256 or stronger; plan for ML-DSA-65 at next renewal"@, 2, "ML-DSA-65 (FIPS 204)"@))
    } else if id == "CERT_EXPIRED"@ {
        Some(rec_view(1, "Renew the expired certificate immediately"@, "Certificate is past its not-after date"@, "Valid certificate from a trusted CA; prefer ML-DSA-65 if available"@, 1, "ML-DSA-65 (FIPS 204)"@))
    } else if id == "CERT_SELF_SIGNED"@ {
        Some(rec_view(4, "Replace self-signed certificate with one from a trusted CA"@, "Self-signed certificate (no third-party validation)"@, "Publicly trusted CA-issued certificate"@, 1, "N/A — trust anchor hygiene"@))
    } else if id == "NULL_CIPHER"@ {
        Some(rec_view(1, "Disable NULL cipher suites immediately"@, "NULL cipher suite enabled (no encryption)"@, "TLS 1.3 AEAD cipher suites only (AES-256-GCM, ChaCha20-Poly1305)"@, 1, "AES-256-GCM (NIST SP 800-38D)"@))
    } else if id == "EXPORT_CIPHER"@ {
        Some(rec_view(1, "Disable EXPORT-grade cipher suites"@, "Export-grade cipher suite enabled (intentionally weak)"@, "TLS 1.3 AEAD cipher suites only"@, 1, "AES-256-GCM (NIST SP 800-38D)"@))
    } else if id == "RC4_CIPHER"@ {
        Some(rec_view(2, "Disable RC4 cipher suites"@, "RC4 stream cipher enabled (broken)"@, "AES-256-GCM or ChaCha20-Poly1305"@, 1, "AES-256-GCM (NIST SP 800-38D)"@))
    } else if id == "TRIPLE_DES_CIPHER"@ {
        Some(rec_view(2, "Disable 3DES cipher suites"@, "3DES cipher suite enabled (SWEET32 vulnerable)"@, "AES-256-GCM or ChaCha20-Poly1305"@, 1, "AES-256-GCM (NIST SP 800-38D)"@))
    } else if id == "MD5_CIPHER"@ {
        Some(rec_view(2, "Disable cipher suites that use MD5"@, "MD5 in cipher suite (collision vulnerable)"@, "TLS 1.3 AEAD cipher suites (SHA-256/384 PRF)"@, 1, "AES-256-GCM (NIST SP 800-38D)"@))
    } else if id == "SHA1_CIPHER"@ {
        Some(rec_view(3, "Disable cipher suites that use SHA-1"@, "SHA-1 in cipher suite (collision vulnerable)"@, "TLS 1.3 AEAD cipher suites (SHA-256/384 PRF)"@, 1, "AES-256-GCM (NIST SP 800-38D)"@))
    } else if id == "CBC_CIPHER"@ {
        Some(rec_view(4, "Disable CBC mode cipher suites"@, "AES-CBC mode (BEAST/POODLE vulnerable)"@, "AES-256-GCM or ChaCha20-Poly1305"@, 1, "AES-256-GCM (NIST SP 800-38D)"@))
    } else if id == "VULNERABLE_CIPHER"@ {
        Some(rec_view(4, "Restrict cipher suites to TLS 1.3 AEAD set"@, "Unknown / non-standard cipher suite"@, "AES-256-GCM or ChaCha20-Poly1305"@, 1, "AES-256-GCM (NIST SP 800-38D)"@))
    } else if id == "NO_HSTS"@ {
        Some(rec_view(5, "Enable HTTP Strict Transport Security"@, "No HSTS header (allows protocol downgrade)"@, "Strict-Transport-Security: max-age=31536000; includeSubDomains"@, 1, "N/A — defense in depth"@))
    } else if id == "SERVER_HEADER_LEAK"@ {
        Some(rec_view(5, "Strip version information from the Server response header"@, "Server header leaks software version"@, "Generic Server header (e.g., \"nginx\" with no version)"@, 1, "N/A — information disclosure hardening"@))
    } else {
        None
    }
}

/// Ids that have advice, each once, in order of first appearance.
pub open spec fn advised_ids(vs: Seq<VulnerabilityView>) -> Seq<Seq<char>>
    decreases vs.len(),
{
    if vs.len() == 0 {
        seq![]
    } else {
        let prev = advised_ids(vs.drop_last());
        let id = vs.last().id;
        if rec_table(id) is Some && !prev.contains(id) {
            prev.push(id)
        } else {
            prev
        }
    }
}

/// The advice of each advised id, in order of first appearance.
pub open spec fn advice_in_order(vs: Seq<VulnerabilityView>) -> Seq<RecommendationView> {
    advised_ids(vs).map_values(|id: Seq<char>| rec_table(id).unwrap())
}

/// The recommendations of priority `p`, in their order.
pub open spec fn with_priority(rs: Seq<RecommendationView>, p: int) -> Seq<RecommendationView>
    decreases rs.len(),
{
    if rs.len() == 0 {
        seq![]
    } else if rs.last().priority == p {
        with_priority(rs.drop_last(), p).push(rs.last())
    } else {
        with_priority(rs.drop_last(), p)
    }
}

/// The recommendations of priority below `p` (and at least 1), grouped by
/// priority in ascending order, each group in its original order.
pub open spec fn buckets_below(rs: Seq<RecommendationView>, p: int) -> Seq<RecommendationView>
    decreases p,
{
    if p <= 1 {
        seq![]
    } else {
        buckets_below(rs, p - 1) + with_priority(rs, p - 1)
    }
}

/// A stable sort by priority, for priorities 1 to 5.
pub open spec fn by_priority(rs: Seq<RecommendationView>) -> Seq<RecommendationView> {
    buckets_below(rs, 6)
}

/// The advice list for a vulnerability list: one entry per advised id,
/// stably sorted by priority.
pub open spec fn expected_recommendations(vs: Seq<VulnerabilityView>) -> Seq<RecommendationView> {
    by_priority(advice_in_order(vs))
}

/// Maps vulnerabilities to remediation advice.
pub struct RecommendationEngine;

fn make_rec(
    priority: u8,
    action: &str,
    current: &str,
    replace_with: &str,
    effort_weeks: u8,
    nist_algorithm: &str,
) -> (res: Recommendation)
    ensures
        res@ == rec_view(priority, action@, current@, replace_with@, effort_weeks, nist_algorithm@),
{
    Recommendation {
        priority,
        action: owned(action),
        current: owned(current),
        replace_with: owned(replace_with),
        effort_weeks,
        nist_algorithm: owned(nist_algorithm),
    }
}

fn contains_string(ids: &Vec<String>, id: &String) -> (res: bool)
    ensures
        res == string_views(ids@).contains(id@),
{
    for i in 0..ids.len()
        invariant
            forall|j: int| 0 <= j < i ==> ids@[j]@ != id@,
    {
        if ids[i] == *id {
            assert(string_views(ids@)[i as int] == id@);
            return true;
        }
    }
    assert forall|j: int| 0 <= j < string_views(ids@).len() implies string_views(ids@)[j] != id@ by {
        assert(string_views(ids@)[j] == ids@[j]@);
    }
    false
}

impl RecommendationEngine {
    /// One recommendation per distinct advised vulnerability id, stably
    /// sorted by priority (most urgent first). Ids without advice are skipped.
    pub fn generate(vulnerabilities: &[Vulnerability]) -> (res: Vec<Recommendation>)
        ensures
            rec_views(res@) == expected_recommendations(vuln_views(vulnerabilities@)),
    {
        let ghost views = vuln_views(vulnerabilities@);
        let mut ids: Vec<String> = Vec::new();
        let mut recs: Vec<Recommendation> = Vec::new();
        for i in 0..vulnerabilities.len()
            invariant
                views == vuln_views(vulnerabilities@),
                string_views(ids@) == advised_ids(views.take(i as int)),
                rec_views(recs@) == advice_in_order(views.take(i as int)),
        {
            assert(views.take(i + 1).drop_last() =~= views.take(i as int));
            let id = &vulnerabilities[i].id;
            match Self::map(id.as_str()) {
                Some(rec) => {
                    if !contains_string(&ids, id) {
                        let ghost prev_ids = string_views(ids@);
                        let ghost prev_recs = rec_views(recs@);
                        ids.push(id.clone());
                        recs.push(rec);
                        proof {
                            assert(views[i as int].id == id@);
                            assert(advised_ids(views.take(i + 1)) == prev_ids.push(id@));
                            assert(string_views(ids@) =~= advised_ids(views.take(i + 1)));
                            assert(advice_in_order(views.take(i + 1)) =~= advice_in_order(
                                views.take(i as int),
                            ).push(rec_table(id@).unwrap()));
                            assert(rec_views(recs@) =~= prev_recs.push(rec@));
                        }
                    }
                },
                None => {},
            }
        }
        assert(views.take(vulnerabilities.len() as int) =~= views);
        let ghost rs = rec_views(recs@);
        let mut out: Vec<Recommendation> = Vec::new();
        let mut p: u8 = 1;
        while p <= 5
            invariant
                1 <= p <= 6,
                rs == rec_views(recs@),
                rec_views(out@) == buckets_below(rs, p as int),
            decreases 6 - p,
        {
            let ghost before = rec_views(out@);
            for j in 0..recs.len()
                invariant
                    rs == rec_views(recs@),
                    rec_views(out@) == before + with_priority(rs.take(j as int), p as int),
            {
                assert(rs.take(j + 1).drop_last() =~= rs.take(j as int));
                if recs[j].priority == p {
                    let ghost prev_out = rec_views(out@);
                    out.push(recs[j].duplicate());
                    proof {
                        assert(rs.take(j + 1).last() == recs@[j as int]@);
                        assert(with_priority(rs.take(j + 1), p as int) == with_priority(
                            rs.take(j as int),
                            p as int,
                        ).push(recs@[j as int]@));
                        assert(rec_views(out@) =~= prev_out.push(recs@[j as int]@));
                        assert(rec_views(out@) =~= before + with_priority(rs.take(j + 1), p as int));
                    }
                } else {
                    assert(rs.take(j + 1).last() == recs@[j as int]@);
                }
            }
            assert(rs.take(recs.len() as int) =~= rs);
            p = p + 1;
        }
        out
    }

    /// The advice for one vulnerability id.
    pub fn map(id: &str) -> (res: Option<Recommendation>)
        ensures
            res matches Some(r) ==> rec_table(id@) == Some(r@),
            res is None ==> rec_table(id@) is None,
    {
        let v = chars_of(id);
        let s = v.as_slice();
        if eq_str(s, "RSA_KEY_EXCHANGE") {
            Some(make_rec(1, "Replace RSA key exchange with ML-KEM-768 hybrid", "RSA key exchange (quantum vulnerable)", "X25519MLKEM768 hybrid key exchange (NIST FIPS 203)", 2, "ML-KEM-768 (FIPS 203)"))
        } else if eq_str(s, "ECDHE_KEY_EXCHANGE") {
            Some(make_rec(1, "Add ML-KEM-768 hybrid alongside ECDHE", "ECDHE only (quantum vulnerable)", "X25519MLKEM768 hybrid — ML-KEM-768 + X25519", 2, "ML-KEM-768 (FIPS 203)"))
        } else if eq_str(s, "DH_KEY_EXCHANGE") {
            Some(make_rec(1, "Replace finite-field Diffie-Hellman with ML-KEM-768 hybrid", "DH/DHE key exchange (quantum vulnerable)", "X25519MLKEM768 hybrid key exchange (NIST FIPS 203)", 2, "ML-KEM-768 (FIPS 203)"))
        } else if eq_str(s, "VULNERABLE_KEY_EXCHANGE") {
            Some(make_rec(1, "Replace key exchange with NIST PQC primitive", "Unknown / non-PQC key exchange", "X25519MLKEM768 hybrid key exchange (NIST FIPS 203)", 2, "ML-KEM-768 (FIPS 203)"))
        } else if eq_str(s, "TLS_LEGACY_VERSION") {
            Some(make_rec(2, "Disable SSL, TLS 1.0, and TLS 1.1. Enable TLS 1.3 only", "Legacy SSL/TLS version negotiated", "TLS 1.3 only configuration", 1, "TLS 1.3 (RFC 8446)"))
        } else if eq_str(s, "TLS_VERSION_VULNERABLE") {
            Some(make_rec(2, "Disable TLS 1.0, 1.1, 1.2. Enable TLS 1.3 only", "TLS 1.2 or below (allows vulnerable cipher suites)", "TLS 1.3 only configuration", 1, "TLS 1.3 (RFC 8446)"))
        } else if eq_str(s, "RSA_CERTIFICATE") || eq_str(s, "RSA_SIGNATURE") {
            Some(make_rec(3, "Replace RSA certificate with ML-DSA-65 certificate", "RSA-2048 or RSA-4096 certificate (quantum vulnerable)", "ML-DSA-65 certificate from PQC-ready CA", 4, "ML-DSA-65 (FIPS 204)"))
        } else if eq_str(s, "ECDSA_CERTIFICATE") || eq_str(s, "ECDSA_SIGNATURE") {
            Some(make_rec(3, "Replace ECDSA certificate with ML-DSA-65", "ECDSA certificate (quantum vulnerable)", "ML-DSA-65 certificate or Ed25519 as interim", 4, "ML-DSA-65 (FIPS 204)"))
        } else if eq_str(s, "SHA1_IN_CHAIN") {
            Some(make_rec(3, "Reissue certificate without SHA-1 in the chain", "SHA-1 signature in certificate (collision vulnerable)", "SHA-256 or stronger; plan for ML-DSA-65 at next renewal", 2, "ML-DSA-65 (FIPS 204)"))
        } else if eq_str(s, "CERT_EXPIRED") {
            Some(make_rec(1, "Renew the expired certificate immediately", "Certificate is past its not-after date", "Valid certificate from a trusted CA; prefer ML-DSA-65 if available", 1, "ML-DSA-65 (FIPS 204)"))
        } else if eq_str(s, "CERT_SELF_SIGNED") {
            Some(make_rec(4, "Replace self-signed certificate with one from a trusted CA", "Self-signed certificate (no third-party validation)", "Publicly trusted CA-issued certificate", 1, "N/A — trust anchor hygiene"))
        } else if eq_str(s, "NULL_CIPHER") {
            Some(make_rec(1, "Disable NULL cipher suites immediately", "NULL cipher suite enabled (no encryption)", "TLS 1.3 AEAD cipher suites only (AES-256-GCM, ChaCha20-Poly1305)", 1, "AES-256-GCM (NIST SP 800-38D)"))
        } else if eq_str(s, "EXPORT_CIPHER") {
            Some(make_rec(1, "Disable EXPORT-grade cipher suites", "Export-grade cipher suite enabled (intentionally weak)", "TLS 1.3 AEAD cipher suites only", 1, "AES-256-GCM (NIST SP 800-38D)"))
        } else if eq_str(s, "RC4_CIPHER") {
            Some(make_rec(2, "Disable RC4 cipher suites", "RC4 stream cipher enabled (broken)", "AES-256-GCM or ChaCha20-Poly1305", 1, "AES-256-GCM (NIST SP 800-38D)"))
        } else if eq_str(s, "TRIPLE_DES_CIPHER") {
            Some(make_rec(2, "Disable 3DES cipher suites", "3DES cipher suite enabled (SWEET32 vulnerable)", "AES-256-GCM or ChaCha20-Poly1305", 1, "AES-256-GCM (NIST SP 800-38D)"))
        } else if eq_str(s, "MD5_CIPHER") {
            Some(make_rec(2, "Disable cipher suites that use MD5", "MD5 in cipher suite (collision vulnerable)", "TLS 1.3 AEAD cipher suites (SHA-256/384 PRF)", 1, "AES-256-GCM (NIST SP 800-38D)"))
        } else if eq_str(s, "SHA1_CIPHER") {
            Some(make_rec(3, "Disable cipher suites that use SHA-1", "SHA-1 in cipher suite (collision vulnerable)", "TLS 1.3 AEAD cipher suites (SHA-256/384 PRF)", 1, "AES-256-GCM (NIST SP 800-38D)"))
        } else if eq_str(s, "CBC_CIPHER") {
            Some(make_rec(4, "Disable CBC mode cipher suites", "AES-CBC mode (BEAST/POODLE vulnerable)", "AES-256-GCM or ChaCha20-Poly1305", 1, "AES-256-GCM (NIST SP 800-38D)"))
        } else if eq_str(s, "VULNERABLE_CIPHER") {
            Some(make_rec(4, "Restrict cipher suites to TLS 1.3 AEAD set", "Unknown / non-standard cipher suite", "AES-256-GCM or ChaCha20-Poly1305", 1, "AES-256-GCM (NIST SP 800-38D)"))
        } else if eq_str(s, "NO_HSTS") {
            Some(make_rec(5, "Enable HTTP Strict Transport Security", "No HSTS header (allows protocol downgrade)", "Strict-Transport-Security: max-age=31536000; includeSubDomains", 1, "N/A — defense in depth"))
        } else if eq_str(s, "SERVER_HEADER_LEAK") {
            Some(make_rec(5, "Strip version information from the Server response header", "Server header leaks software version", "Generic Server header (e.g., \"nginx\" with no version)", 1, "N/A — information disclosure hardening"))
        } else {
            None
        }
    }
}

// ─────────────────────────── laws ───────────────────────────

proof fn lemma_with_priority_members(rs: Seq<RecommendationView>, p: int)
    ensures
        forall|k: int|
            0 <= k < with_priority(rs, p).len() ==> (#[trigger] with_priority(rs, p)[k]).priority
                == p,
    decreases rs.len(),
{
    if rs.len() > 0 {
        lemma_with_priority_members(rs.drop_last(), p);
        let w = with_priority(rs.drop_last(), p);
        if rs.last().priority == p {
            assert forall|k: int| 0 <= k < w.push(rs.last()).len() implies (#[trigger] w.push(
                rs.last(),
            )[k]).priority == p by {
                if k < w.len() {
                    assert(w.push(rs.last())[k] == w[k]);
                }
            }
        }
    }
}

proof fn lemma_buckets_sorted(rs: Seq<RecommendationView>, p: int)
    ensures
        forall|k: int|
            0 <= k < buckets_below(rs, p).len() ==> 1 <= (#[trigger] buckets_below(rs, p)[k]).priority
                < p,
        forall|i: int, j: int|
            0 <= i <= j < buckets_below(rs, p).len() ==> (#[trigger] buckets_below(rs, p)[i]).priority
                <= (#[trigger] buckets_below(rs, p)[j]).priority,
    decreases p,
{
    if p > 1 {
        lemma_buckets_sorted(rs, p - 1);
        lemma_with_priority_members(rs, p - 1);
        let b = buckets_below(rs, p - 1);
        let w = with_priority(rs, p - 1);
        assert(buckets_below(rs, p) == b + w);
        assert forall|k: int| 0 <= k < (b + w).len() implies 1 <= (#[trigger] (b + w)[k]).priority
            < p by {
            if k < b.len() {
                assert((b + w)[k] == b[k]);
            } else {
                assert((b + w)[k] == w[k - b.len()]);
            }
        }
        assert forall|i: int, j: int| 0 <= i <= j < (b + w).len() implies (#[trigger] (b
            + w)[i]).priority <= (#[trigger] (b + w)[j]).priority by {
            if j < b.len() {
                assert((b + w)[i] == b[i]);
                assert((b + w)[j] == b[j]);
            } else if i < b.len() {
                assert((b + w)[i] == b[i]);
                assert((b + w)[j] == w[j - b.len()]);
            } else {
                assert((b + w)[i] == w[i - b.len()]);
                assert((b + w)[j] == w[j - b.len()]);
            }
        }
    }
}

/// The advice list comes most urgent first: priorities never decrease along it.
pub proof fn law_advice_sorted_by_priority(vulnerabilities: Seq<Vulnerability>)
    ensures
        forall|i: int, j: int|
            0 <= i <= j < expected_recommendations(vuln_views(vulnerabilities)).len() ==> (
            #[trigger] expected_recommendations(vuln_views(vulnerabilities))[i]).priority <= (
            #[trigger] expected_recommendations(vuln_views(vulnerabilities))[j]).priority,
{
    lemma_buckets_sorted(advice_in_order(vuln_views(vulnerabilities)), 6);
}

proof fn lemma_advised_contains(vs: Seq<VulnerabilityView>, k: int)
    requires
        0 <= k < vs.len(),
        rec_table(vs[k].id) is Some,
    ensures
        advised_ids(vs).contains(vs[k].id),
    decreases vs.len(),
{
    let prev = advised_ids(vs.drop_last());
    if k < vs.len() - 1 {
        lemma_advised_contains(vs.drop_last(), k);
        assert(vs.drop_last()[k] == vs[k]);
        let j = choose|j: int| 0 <= j < prev.len() && prev[j] == vs[k].id;
        if !(rec_table(vs.last().id) is Some && !prev.contains(vs.last().id)) {
            assert(advised_ids(vs) == prev);
        } else {
            assert(advised_ids(vs)[j] == prev[j]);
        }
    } else if prev.contains(vs[k].id) {
        let j = choose|j: int| 0 <= j < prev.len() && prev[j] == vs[k].id;
        assert(advised_ids(vs) == prev);
    } else {
        assert(advised_ids(vs) == prev.push(vs[k].id));
        assert(advised_ids(vs)[prev.len() as int] == vs[k].id);
    }
}

/// Reporting the same vulnerability id again adds no advice: the list is
/// de-duplicated by id.
pub proof fn law_repeated_vulnerability_adds_no_advice(
    vulnerabilities: Seq<Vulnerability>,
    again: Vulnerability,
)
    requires
        exists|i: int| 0 <= i < vulnerabilities.len() && (#[trigger] vulnerabilities[i]).id@ == again.id@,
    ensures
        expected_recommendations(vuln_views(vulnerabilities.push(again)))
            == expected_recommendations(vuln_views(vulnerabilities)),
{
    let vs = vuln_views(vulnerabilities);
    let ws = vuln_views(vulnerabilities.push(again));
    assert(ws =~= vs.push(again@));
    assert(ws.drop_last() =~= vs);
    let i = choose|i: int| 0 <= i < vulnerabilities.len() && (#[trigger] vulnerabilities[i]).id@ == again.id@;
    assert(vs[i].id == again.id@);
    if rec_table(again.id@) is Some {
        lemma_advised_contains(vs, i);
    }
    assert(advised_ids(ws) == advised_ids(vs));
}

proof fn lemma_table_priorities(id: Seq<char>)
    ensures
        rec_table(id) matches Some(r) ==> 1 <= r.priority <= 5,
{
}

proof fn lemma_with_priority_keeps(rs: Seq<RecommendationView>, k: int)
    requires
        0 <= k < rs.len(),
    ensures
        with_priority(rs, rs[k].priority as int).contains(rs[k]),
    decreases rs.len(),
{
    let p = rs[k].priority as int;
    if k == rs.len() - 1 {
        assert(with_priority(rs, p) == with_priority(rs.drop_last(), p).push(rs[k]));
        assert(with_priority(rs, p)[with_priority(rs.drop_last(), p).len() as int] == rs[k]);
    } else {
        lemma_with_priority_keeps(rs.drop_last(), k);
        assert(rs.drop_last()[k] == rs[k]);
        let w = with_priority(rs.drop_last(), p);
        let j = choose|j: int| 0 <= j < w.len() && w[j] == rs[k];
        if rs.last().priority == p {
            assert(with_priority(rs, p)[j] == w[j]);
        }
    }
}

proof fn lemma_buckets_keep(rs: Seq<RecommendationView>, p: int, q: int, x: RecommendationView)
    requires
        1 <= q < p,
        with_priority(rs, q).contains(x),
    ensures
        buckets_below(rs, p).contains(x),
    decreases p,
{
    let b = buckets_below(rs, p - 1);
    let w = with_priority(rs, p - 1);
    if q == p - 1 {
        let j = choose|j: int| 0 <= j < w.len() && w[j] == x;
        assert((b + w)[b.len() + j] == x);
    } else {
        lemma_buckets_keep(rs, p - 1, q, x);
        let j = choose|j: int| 0 <= j < b.len() && b[j] == x;
        assert((b + w)[j] == x);
    }
}

/// Every vulnerability that has advice gets it: its recommendation is in the list.
pub proof fn law_every_advised_vulnerability_is_answered(
    vulnerabilities: Seq<Vulnerability>,
    k: int,
)
    requires
        0 <= k < vulnerabilities.len(),
        rec_table(vulnerabilities[k].id@) is Some,
    ensures
        expected_recommendations(vuln_views(vulnerabilities)).contains(
            rec_table(vulnerabilities[k].id@).unwrap(),
        ),
{
    let vs = vuln_views(vulnerabilities);
    let id = vulnerabilities[k].id@;
    assert(vs[k].id == id);
    lemma_advised_contains(vs, k);
    let ids = advised_ids(vs);
    let j = choose|j: int| 0 <= j < ids.len() && ids[j] == id;
    let rs = advice_in_order(vs);
    let r = rec_table(id).unwrap();
    assert(rs[j] == r);
    lemma_table_priorities(id);
    lemma_with_priority_keeps(rs, j);
    lemma_buckets_keep(rs, 6, r.priority as int, r);
}

/// The advice for a record names the algorithm the record reports: an
/// ECDSA certificate or signature gets the ECDSA advice, an RSA certificate
/// or signature the RSA advice, and RSA, ECDHE and finite-field DH key
/// exchanges each get advice naming their own exchange; records of
/// different algorithm families never share advice.
pub proof fn law_advice_names_the_algorithm(id: Seq<char>)
    ensures
        id == "ECDSA_CERTIFICATE"@ || id == "ECDSA_SIGNATURE"@ ==> (rec_table(id) matches Some(r)
            && has_infix(r.action, "ECDSA"@) && has_infix(r.current, "ECDSA"@)),
        id == "RSA_CERTIFICATE"@ || id == "RSA_SIGNATURE"@ ==> (rec_table(id) matches Some(r)
            && has_infix(r.action, "RSA"@) && has_infix(r.current, "RSA"@)),
        id == "RSA_KEY_EXCHANGE"@ ==> (rec_table(id) matches Some(r) && has_infix(
            r.action,
            "RSA"@,
        ) && has_infix(r.current, "RSA"@)),
        id == "ECDHE_KEY_EXCHANGE"@ ==> (rec_table(id) matches Some(r) && has_infix(
            r.current,
            "ECDHE"@,
        )),
        id == "DH_KEY_EXCHANGE"@ ==> (rec_table(id) matches Some(r) && has_infix(
            r.current,
            "DH"@,
        )),
        rec_table("ECDSA_CERTIFICATE"@) != rec_table("RSA_CERTIFICATE"@),
        rec_table("RSA_KEY_EXCHANGE"@) != rec_table("ECDHE_KEY_EXCHANGE"@),
        rec_table("RSA_KEY_EXCHANGE"@) != rec_table("DH_KEY_EXCHANGE"@),
        rec_table("ECDHE_KEY_EXCHANGE"@) != rec_table("DH_KEY_EXCHANGE"@),
{
    lemma_id_shapes();
    reveal_strlit("RSA");
    reveal_strlit("ECDSA");
    reveal_strlit("ECDHE");
    reveal_strlit("DH");
    reveal_strlit("Replace ECDSA certificate with ML-DSA-65");
    reveal_strlit("ECDSA certificate (quantum vulnerable)");
    reveal_strlit("Replace RSA certificate with ML-DSA-65 certificate");
    reveal_strlit("RSA-2048 or RSA-4096 certificate (quantum vulnerable)");
    reveal_strlit("Replace RSA key exchange with ML-KEM-768 hybrid");
    reveal_strlit("RSA key exchange (quantum vulnerable)");
    reveal_strlit("ECDHE only (quantum vulnerable)");
    reveal_strlit("DH/DHE key exchange (quantum vulnerable)");
    assert(("Replace ECDSA certificate with ML-DSA-65"@).subrange(8, 8int + "ECDSA"@.len()) =~= "ECDSA"@);
    assert(("ECDSA certificate (quantum vulnerable)"@).subrange(0, 0int + "ECDSA"@.len()) =~= "ECDSA"@);
    assert(("Replace RSA certificate with ML-DSA-65 certificate"@).subrange(8, 8int + "RSA"@.len()) =~= "RSA"@);
    assert(("RSA-2048 or RSA-4096 certificate (quantum vulnerable)"@).subrange(0, 0int + "RSA"@.len()) =~= "RSA"@);
    assert(("Replace RSA key exchange with ML-KEM-768 hybrid"@).subrange(8, 8int + "RSA"@.len()) =~= "RSA"@);
    assert(("RSA key exchange (quantum vulnerable)"@).subrange(0, 0int + "RSA"@.len()) =~= "RSA"@);
    assert(("ECDHE only (quantum vulnerable)"@).subrange(0, 0int + "ECDHE"@.len()) =~= "ECDHE"@);
    assert(("DH/DHE key exchange (quantum vulnerable)"@).subrange(0, 0int + "DH"@.len()) =~= "DH"@);
    assert("ECDSA certificate (quantum vulnerable)"@[0] != "RSA-2048 or RSA-4096 certificate (quantum vulnerable)"@[0]);
    assert("RSA key exchange (quantum vulnerable)"@[0] != "ECDHE only (quantum vulnerable)"@[0]);
    assert("RSA key exchange (quantum vulnerable)"@[0] != "DH/DHE key exchange (quantum vulnerable)"@[0]);
    assert("ECDHE only (quantum vulnerable)"@[0] != "DH/DHE key exchange (quantum vulnerable)"@[0]);
}

} // verus!
