//! Which negotiated algorithms are quantum-vulnerable, and the vulnerability
//! records a scan's findings give rise to.

use vstd::prelude::*;

use crate::models::finding::{
    vuln_views, CertFinding, HttpFinding, TlsFinding, Vulnerability, VulnerabilityView,
};
use crate::models::risk::RiskLevel;
use crate::text::{
    any_digit, chars_of, contains_str, decimal, eq_str, has_infix, is_ascii_digit,
    lemma_to_upper_run, lemma_trim_is_run, lower_chars, owned, push_chars, push_decimal, push_str,
    starts_with_str, to_lower, to_upper, trim, trim_chars, upper_chars,
};

verus! {

// ─────────────────────────── reasons and texts ───────────────────────────

pub const SHOR_RSA: &'static str = "Broken by Shor's Algorithm on quantum computers";
pub const SHOR_DLOG: &'static str = "Discrete log problem solved by Shor's Algorithm";
pub const SHOR_ECDLOG: &'static str = "Elliptic curve discrete log solved by Shor's Algorithm";
pub const FIPS203_KEM: &'static str = "NIST FIPS 203 post-quantum key encapsulation";
pub const HYBRID_KEM: &'static str = "Hybrid classical+PQC — recommended transition";
pub const CLASSICAL_FORWARD_SECRET: &'static str = "Classical only but forward secret — transitionally safe";
pub const UNKNOWN_KX: &'static str = "Unknown key exchange algorithm — manual review required";

pub const SIG_SHA1_RSA: &'static str = "SHA-1 collision vulnerable + RSA quantum vulnerable";
pub const SIG_RSA: &'static str = "RSA quantum vulnerable via Shor's Algorithm";
pub const SIG_ECDSA: &'static str = "ECDSA quantum vulnerable via Shor's Algorithm";
pub const SIG_DSA: &'static str = "DSA broken classically and quantum vulnerable";
pub const SIG_ML_DSA: &'static str = "NIST FIPS 204 ML-DSA post-quantum signature";
pub const SIG_SLH_DSA: &'static str = "NIST FIPS 205 SLH-DSA post-quantum signature";
pub const SIG_CLASSICAL: &'static str = "Classical only — transitionally safe";
pub const UNKNOWN_SIG: &'static str = "Unknown signature algorithm — manual review required";

pub const CS_NULL: &'static str = "No encryption";
pub const CS_EXPORT: &'static str = "Export-grade intentionally weak crypto";
pub const CS_RC4: &'static str = "RC4 stream cipher broken";
pub const CS_3DES: &'static str = "64-bit block cipher, SWEET32 vulnerable";
pub const CS_DES: &'static str = "56-bit key, classically broken";
pub const CS_MD5: &'static str = "MD5 collision vulnerable";
pub const CS_SHA1: &'static str = "SHA-1 collision vulnerable (not SHA-256/384/512)";
pub const CS_CBC: &'static str = "CBC mode vulnerable to BEAST/POODLE attacks";
pub const CS_CHACHA: &'static str = "ChaCha20-Poly1305 quantum safe";
pub const CS_AES256: &'static str = "AES-256 quantum safe (Grover reduces to 128-bit)";
pub const CS_AES128: &'static str = "AES-128 safe (Grover halves to 64-bit but still safe)";
pub const CS_UNKNOWN: &'static str = "Unknown cipher suite — manual review required";

pub const LEGACY_VERSION_DESCRIPTION: &'static str = "TLS 1.0, TLS 1.1, and all SSL versions are deprecated and enable downgrade and oracle-style attacks. They must be disabled.";
pub const TLS12_DESCRIPTION: &'static str = "TLS 1.2 permits RSA key exchange and other quantum-vulnerable primitives. TLS 1.3 should be the only enabled version.";
pub const HARVEST_SENTENCE: &'static str = " Encrypted traffic is exposed to the harvest-now-decrypt-later threat.";
pub const EXPIRED_TITLE: &'static str = "Certificate has expired";
pub const SELF_SIGNED_TITLE: &'static str = "Self-signed certificate";
pub const SELF_SIGNED_DESCRIPTION: &'static str = "The certificate is not chained to a trusted CA. There is no third-party identity validation, exposing clients to impersonation attacks.";
pub const RSA_CERT_DESCRIPTION: &'static str = "RSA certificates are broken by Shor's Algorithm on a sufficiently large quantum computer. Plan migration to ML-DSA-65.";
pub const ECDSA_CERT_DESCRIPTION: &'static str = "ECDSA signatures are broken by Shor's Algorithm. Plan migration to ML-DSA-65 from FIPS 204.";
pub const SHA1_SIG_TITLE: &'static str = "SHA-1 signature in certificate";
pub const NO_HSTS_TITLE: &'static str = "HSTS not enabled";
pub const NO_HSTS_DESCRIPTION: &'static str = "Strict-Transport-Security header is missing. Clients may be downgraded to plaintext HTTP by an active network attacker.";
pub const SERVER_LEAK_TITLE: &'static str = "Server header leaks software version";

pub const NIST_SP_800_52: &'static str = "NIST SP 800-52 Rev 2";
pub const RFC_8446: &'static str = "RFC 8446 (TLS 1.3)";
pub const FIPS_203: &'static str = "NIST FIPS 203 (ML-KEM)";
pub const FIPS_204: &'static str = "NIST FIPS 204 (ML-DSA)";
pub const RFC_5280: &'static str = "RFC 5280";
pub const SP_800_131A: &'static str = "NIST SP 800-131A Rev 2";
pub const RFC_6797: &'static str = "RFC 6797";
pub const OWASP_ASVS: &'static str = "OWASP ASVS V14.4";

// ─────────────────────────── algorithm verdicts ───────────────────────────

/// `s` with every ASCII space removed (`str::replace(' ', "")`).
pub open spec fn without_spaces(s: Seq<char>) -> Seq<char>
    decreases s.len(),
{
    if s.len() == 0 {
        s
    } else if s.last() == ' ' {
        without_spaces(s.drop_last())
    } else {
        without_spaces(s.drop_last()).push(s.last())
    }
}

/// A protocol version name after trimming, upper-casing and dropping spaces.
pub open spec fn normalized_version(version: Seq<char>) -> Seq<char> {
    without_spaces(to_upper(trim(version)))
}

/// TLS 1.2 and everything older is flagged.
pub open spec fn tls_version_vulnerable(version: Seq<char>) -> bool {
    let v = normalized_version(version);
    ||| v == "SSLV2"@
    ||| v == "SSLV3"@
    ||| v == "TLSV1"@
    ||| v == "TLSV1.0"@
    ||| v == "TLSV1.1"@
    ||| v == "TLSV1.2"@
}

/// Verdict and reason for a key-exchange name, matched after trimming and
/// upper-casing.
pub open spec fn key_exchange_verdict(algorithm: Seq<char>) -> (bool, Seq<char>) {
    let a = to_upper(trim(algorithm));
    if a == "RSA"@ {
        (true, SHOR_RSA@)
    } else if a == "DH"@ {
        (true, SHOR_DLOG@)
    } else if a == "DHE"@ {
        (true, SHOR_DLOG@)
    } else if a == "ECDH"@ {
        (true, SHOR_ECDLOG@)
    } else if a == "ECDHE"@ {
        (true, SHOR_ECDLOG@)
    } else if a == "ML-KEM-512"@ {
        (false, FIPS203_KEM@)
    } else if a == "ML-KEM-768"@ {
        (false, FIPS203_KEM@)
    } else if a == "ML-KEM-1024"@ {
        (false, FIPS203_KEM@)
    } else if a == "X25519MLKEM768"@ {
        (false, HYBRID_KEM@)
    } else if a == "X25519"@ {
        (false, CLASSICAL_FORWARD_SECRET@)
    } else if a == "X448"@ {
        (false, CLASSICAL_FORWARD_SECRET@)
    } else {
        (false, UNKNOWN_KX@)
    }
}

/// Verdict and reason for a signature-algorithm name, matched exactly after
/// trimming.
pub open spec fn signature_verdict(algorithm: Seq<char>) -> (bool, Seq<char>) {
    let a = trim(algorithm);
    if a == "sha1WithRSAEncryption"@ {
        (true, SIG_SHA1_RSA@)
    } else if a == "sha256WithRSAEncryption"@ {
        (true, SIG_RSA@)
    } else if a == "sha384WithRSAEncryption"@ {
        (true, SIG_RSA@)
    } else if a == "sha512WithRSAEncryption"@ {
        (true, SIG_RSA@)
    } else if a == "ecdsa-with-SHA256"@ {
        (true, SIG_ECDSA@)
    } else if a == "ecdsa-with-SHA384"@ {
        (true, SIG_ECDSA@)
    } else if a == "ecdsa-with-SHA512"@ {
        (true, SIG_ECDSA@)
    } else if a == "id-dsa-with-sha1"@ {
        (true, SIG_DSA@)
    } else if a == "id-ML-DSA-44"@ {
        (false, SIG_ML_DSA@)
    } else if a == "id-ML-DSA-65"@ {
        (false, SIG_ML_DSA@)
    } else if a == "id-ML-DSA-87"@ {
        (false, SIG_ML_DSA@)
    } else if a == "id-slh-dsa-sha2-128s"@ {
        (false, SIG_SLH_DSA@)
    } else if a == "Ed25519"@ {
        (false, SIG_CLASSICAL@)
    } else if a == "Ed448"@ {
        (false, SIG_CLASSICAL@)
    } else {
        (false, UNKNOWN_SIG@)
    }
}

/// Verdict and reason for a cipher-suite name: the first weakness found in
/// its upper-cased form decides.
pub open spec fn cipher_verdict(cipher: Seq<char>) -> (bool, Seq<char>) {
    let c = to_upper(cipher);
    if has_infix(c, "NULL"@) {
        (true, CS_NULL@)
    } else if has_infix(c, "EXPORT"@) {
        (true, CS_EXPORT@)
    } else if has_infix(c, "RC4"@) {
        (true, CS_RC4@)
    } else if has_infix(c, "3DES"@) {
        (true, CS_3DES@)
    } else if has_infix(c, "DES"@) {
        (true, CS_DES@)
    } else if has_infix(c, "MD5"@) {
        (true, CS_MD5@)
    } else if has_infix(c, "SHA1"@) {
        (true, CS_SHA1@)
    } else if has_infix(c, "_CBC"@) {
        (true, CS_CBC@)
    } else if has_infix(c, "CHACHA20"@) {
        (false, CS_CHACHA@)
    } else if has_infix(c, "AES_256"@) {
        (false, CS_AES256@)
    } else if has_infix(c, "AES_128"@) {
        (false, CS_AES128@)
    } else {
        (false, CS_UNKNOWN@)
    }
}

/// Classifies negotiated algorithms against NIST post-quantum guidance.
pub struct AlgorithmClassifier;

/// `str::replace(' ', "")` on characters.
fn remove_spaces(v: &[char]) -> (res: Vec<char>)
    ensures
        res@ == without_spaces(v@),
{
    let mut res: Vec<char> = Vec::new();
    for i in 0..v.len()
        invariant
            res@ == without_spaces(v@.take(i as int)),
    {
        assert(v@.take(i + 1).drop_last() =~= v@.take(i as int));
        if v[i] != ' ' {
            res.push(v[i]);
        }
    }
    assert(v@.take(v.len() as int) =~= v@);
    res
}

impl AlgorithmClassifier {
    /// Whether a negotiated protocol version is TLS 1.2 or older.
    pub fn is_tls_version_vulnerable(version: &str) -> (res: bool)
        ensures
            res == tls_version_vulnerable(version@),
    {
        let raw = chars_of(version);
        let t = trim_chars(raw.as_slice());
        let u = upper_chars(t.as_slice());
        let v = remove_spaces(u.as_slice());
        let s = v.as_slice();
        eq_str(s, "SSLV2") || eq_str(s, "SSLV3") || eq_str(s, "TLSV1") || eq_str(s, "TLSV1.0")
            || eq_str(s, "TLSV1.1") || eq_str(s, "TLSV1.2")
    }

    /// Whether a key exchange is broken by a quantum computer, and why.
    pub fn is_key_exchange_vulnerable(algorithm: &str) -> (res: (bool, &'static str))
        ensures
            res.0 == key_exchange_verdict(algorithm@).0,
            res.1@ == key_exchange_verdict(algorithm@).1,
    {
        let raw = chars_of(algorithm);
        let t = trim_chars(raw.as_slice());
        let u = upper_chars(t.as_slice());
        let a = u.as_slice();
        if eq_str(a, "RSA") {
            (true, SHOR_RSA)
        } else if eq_str(a, "DH") {
            (true, SHOR_DLOG)
        } else if eq_str(a, "DHE") {
            (true, SHOR_DLOG)
        } else if eq_str(a, "ECDH") {
            (true, SHOR_ECDLOG)
        } else if eq_str(a, "ECDHE") {
            (true, SHOR_ECDLOG)
        } else if eq_str(a, "ML-KEM-512") {
            (false, FIPS203_KEM)
        } else if eq_str(a, "ML-KEM-768") {
            (false, FIPS203_KEM)
        } else if eq_str(a, "ML-KEM-1024") {
            (false, FIPS203_KEM)
        } else if eq_str(a, "X25519MLKEM768") {
            (false, HYBRID_KEM)
        } else if eq_str(a, "X25519") {
            (false, CLASSICAL_FORWARD_SECRET)
        } else if eq_str(a, "X448") {
            (false, CLASSICAL_FORWARD_SECRET)
        } else {
            (false, UNKNOWN_KX)
        }
    }

    /// Whether a certificate signature algorithm is quantum-vulnerable, and why.
    pub fn is_signature_algorithm_vulnerable(algorithm: &str) -> (res: (bool, &'static str))
        ensures
            res.0 == signature_verdict(algorithm@).0,
            res.1@ == signature_verdict(algorithm@).1,
    {
        let raw = chars_of(algorithm);
        let t = trim_chars(raw.as_slice());
        let a = t.as_slice();
        if eq_str(a, "sha1WithRSAEncryption") {
            (true, SIG_SHA1_RSA)
        } else if eq_str(a, "sha256WithRSAEncryption") {
            (true, SIG_RSA)
        } else if eq_str(a, "sha384WithRSAEncryption") {
            (true, SIG_RSA)
        } else if eq_str(a, "sha512WithRSAEncryption") {
            (true, SIG_RSA)
        } else if eq_str(a, "ecdsa-with-SHA256") {
            (true, SIG_ECDSA)
        } else if eq_str(a, "ecdsa-with-SHA384") {
            (true, SIG_ECDSA)
        } else if eq_str(a, "ecdsa-with-SHA512") {
            (true, SIG_ECDSA)
        } else if eq_str(a, "id-dsa-with-sha1") {
            (true, SIG_DSA)
        } else if eq_str(a, "id-ML-DSA-44") {
            (false, SIG_ML_DSA)
        } else if eq_str(a, "id-ML-DSA-65") {
            (false, SIG_ML_DSA)
        } else if eq_str(a, "id-ML-DSA-87") {
            (false, SIG_ML_DSA)
        } else if eq_str(a, "id-slh-dsa-sha2-128s") {
            (false, SIG_SLH_DSA)
        } else if eq_str(a, "Ed25519") {
            (false, SIG_CLASSICAL)
        } else if eq_str(a, "Ed448") {
            (false, SIG_CLASSICAL)
        } else {
            (false, UNKNOWN_SIG)
        }
    }

    /// Whether a cipher suite is weak, and why.
    pub fn is_cipher_suite_vulnerable(cipher: &str) -> (res: (bool, &'static str))
        ensures
            res.0 == cipher_verdict(cipher@).0,
            res.1@ == cipher_verdict(cipher@).1,
    {
        let raw = chars_of(cipher);
        let u = upper_chars(raw.as_slice());
        let c = u.as_slice();
        if contains_str(c, "NULL") {
            return (true, CS_NULL);
        }
        if contains_str(c, "EXPORT") {
            return (true, CS_EXPORT);
        }
        if contains_str(c, "RC4") {
            return (true, CS_RC4);
        }
        if contains_str(c, "3DES") {
            return (true, CS_3DES);
        }
        if contains_str(c, "DES") {
            return (true, CS_DES);
        }
        if contains_str(c, "MD5") {
            return (true, CS_MD5);
        }
        if contains_str(c, "SHA1") {
            return (true, CS_SHA1);
        }
        if contains_str(c, "_CBC") {
            return (true, CS_CBC);
        }
        if contains_str(c, "CHACHA20") {
            return (false, CS_CHACHA);
        }
        if contains_str(c, "AES_256") {
            return (false, CS_AES256);
        }
        if contains_str(c, "AES_128") {
            return (false, CS_AES128);
        }
        (false, CS_UNKNOWN)
    }
}

// ─────────────────────────── vulnerability records ───────────────────────────

/// A vulnerability record with the given fields.
pub open spec fn vuln_view(
    id: Seq<char>,
    title: Seq<char>,
    description: Seq<char>,
    severity: RiskLevel,
    nist_reference: Seq<char>,
    cvss_tenths: u8,
) -> VulnerabilityView {
    VulnerabilityView { id, title, description, severity, nist_reference, cvss_tenths }
}

/// The record for a flagged protocol version: legacy (1.0, 1.1, SSL) or TLS 1.2.
pub open spec fn version_vulns(t: TlsFinding) -> Seq<VulnerabilityView> {
    let v = t.protocol_version@;
    if tls_version_vulnerable(v) {
        let up = to_upper(v);
        if has_infix(up, "1.0"@) || has_infix(up, "1.1"@) || has_infix(up, "SSL"@) {
            seq![vuln_view("TLS_LEGACY_VERSION"@, "Legacy TLS/SSL version negotiated ("@ + v + ")"@,
                LEGACY_VERSION_DESCRIPTION@, RiskLevel::High, NIST_SP_800_52@, 74)]
        } else {
            seq![vuln_view("TLS_VERSION_VULNERABLE"@, "TLS 1.2 accepted as highest version ("@ + v
                + ")"@, TLS12_DESCRIPTION@, RiskLevel::Medium, RFC_8446@, 53)]
        }
    } else {
        seq![]
    }
}

/// The id recorded for a vulnerable key exchange, from its upper-cased name.
pub open spec fn key_exchange_id(kx: Seq<char>) -> Seq<char> {
    let u = to_upper(kx);
    if u == "RSA"@ {
        "RSA_KEY_EXCHANGE"@
    } else if u == "ECDH"@ || u == "ECDHE"@ {
        "ECDHE_KEY_EXCHANGE"@
    } else if u == "DH"@ || u == "DHE"@ {
        "DH_KEY_EXCHANGE"@
    } else {
        "VULNERABLE_KEY_EXCHANGE"@
    }
}

/// The record for a quantum-vulnerable key exchange.
pub open spec fn key_exchange_vulns(t: TlsFinding) -> Seq<VulnerabilityView> {
    let kx = t.key_exchange@;
    let verdict = key_exchange_verdict(kx);
    if verdict.0 {
        seq![vuln_view(key_exchange_id(kx), "Quantum-vulnerable key exchange: "@ + kx,
            verdict.1 + HARVEST_SENTENCE@, RiskLevel::Critical, FIPS_203@, 81)]
    } else {
        seq![]
    }
}

/// Id, severity and CVSS tenths recorded for a weak cipher suite.
pub open spec fn cipher_class(cipher: Seq<char>) -> (Seq<char>, RiskLevel, u8) {
    let c = to_upper(cipher);
    if has_infix(c, "NULL"@) {
        ("NULL_CIPHER"@, RiskLevel::Critical, 91)
    } else if has_infix(c, "EXPORT"@) {
        ("EXPORT_CIPHER"@, RiskLevel::Critical, 86)
    } else if has_infix(c, "RC4"@) {
        ("RC4_CIPHER"@, RiskLevel::High, 75)
    } else if has_infix(c, "3DES"@) {
        ("TRIPLE_DES_CIPHER"@, RiskLevel::High, 65)
    } else if has_infix(c, "_CBC"@) {
        ("CBC_CIPHER"@, RiskLevel::Medium, 59)
    } else if has_infix(c, "MD5"@) {
        ("MD5_CIPHER"@, RiskLevel::High, 70)
    } else if has_infix(c, "SHA1"@) {
        ("SHA1_CIPHER"@, RiskLevel::Medium, 53)
    } else {
        ("VULNERABLE_CIPHER"@, RiskLevel::Medium, 50)
    }
}

/// The record for a weak cipher suite.
pub open spec fn cipher_vulns(t: TlsFinding) -> Seq<VulnerabilityView> {
    let cs = t.cipher_suite@;
    let verdict = cipher_verdict(cs);
    let class = cipher_class(cs);
    if verdict.0 {
        seq![vuln_view(class.0, "Vulnerable cipher suite: "@ + cs, verdict.1, class.1,
            NIST_SP_800_52@, class.2)]
    } else {
        seq![]
    }
}

/// Records drawn from a TLS finding: protocol version, key exchange, cipher suite.
pub open spec fn tls_vulns(t: TlsFinding) -> Seq<VulnerabilityView> {
    version_vulns(t) + key_exchange_vulns(t) + cipher_vulns(t)
}

/// The distance of `d` from zero.
pub open spec fn abs_value(d: int) -> nat {
    if d < 0 {
        (-d) as nat
    } else {
        d as nat
    }
}

/// The record for an expired certificate.
pub open spec fn expired_vulns(c: CertFinding) -> Seq<VulnerabilityView> {
    if c.is_expired {
        seq![vuln_view("CERT_EXPIRED"@, EXPIRED_TITLE@, "Certificate expired on "@ + c.valid_until@
            + " ("@ + decimal(abs_value(c.days_remaining as int)) + " days ago). Clients will reject this connection."@,
            RiskLevel::Critical, RFC_5280@, 75)]
    } else {
        seq![]
    }
}

/// The record for a self-signed certificate.
pub open spec fn self_signed_vulns(c: CertFinding) -> Seq<VulnerabilityView> {
    if c.is_self_signed {
        seq![vuln_view("CERT_SELF_SIGNED"@, SELF_SIGNED_TITLE@, SELF_SIGNED_DESCRIPTION@,
            RiskLevel::Medium, RFC_5280@, 50)]
    } else {
        seq![]
    }
}

/// The record for an RSA or elliptic-curve certificate key.
pub open spec fn key_vulns(c: CertFinding) -> Seq<VulnerabilityView> {
    let k = c.key_algorithm@;
    let up = to_upper(k);
    if "RSA"@.is_prefix_of(up) {
        seq![vuln_view("RSA_CERTIFICATE"@, "RSA certificate detected ("@ + k + ")"@,
            RSA_CERT_DESCRIPTION@, RiskLevel::High, FIPS_204@, 74)]
    } else if "ECDSA"@.is_prefix_of(up) || "EC "@.is_prefix_of(up) {
        seq![vuln_view("ECDSA_CERTIFICATE"@, "ECDSA certificate detected ("@ + k + ")"@,
            ECDSA_CERT_DESCRIPTION@, RiskLevel::High, FIPS_204@, 70)]
    } else {
        seq![]
    }
}

/// The record for a quantum-vulnerable certificate signature.
pub open spec fn signature_vulns(c: CertFinding) -> Seq<VulnerabilityView> {
    let sig = c.signature_algorithm@;
    let verdict = signature_verdict(sig);
    let lc = to_lower(sig);
    if !verdict.0 {
        seq![]
    } else if has_infix(lc, "sha1"@) {
        seq![vuln_view("SHA1_IN_CHAIN"@, SHA1_SIG_TITLE@, verdict.1, RiskLevel::High,
            SP_800_131A@, 74)]
    } else if "ecdsa"@.is_prefix_of(lc) {
        seq![vuln_view("ECDSA_SIGNATURE"@, "ECDSA signature algorithm ("@ + sig + ")"@, verdict.1,
            RiskLevel::High, FIPS_204@, 70)]
    } else {
        seq![vuln_view("RSA_SIGNATURE"@, "RSA signature algorithm ("@ + sig + ")"@, verdict.1,
            RiskLevel::High, FIPS_204@, 74)]
    }
}

/// Records drawn from a certificate finding: expiry, self-signing, key, signature.
pub open spec fn cert_vulns(c: CertFinding) -> Seq<VulnerabilityView> {
    expired_vulns(c) + self_signed_vulns(c) + key_vulns(c) + signature_vulns(c)
}

/// Whether a `Server` header value names a version (holds an ASCII digit).
pub open spec fn leaks_version(server: Seq<char>) -> bool {
    exists|i: int| 0 <= i < server.len() && is_ascii_digit(#[trigger] server[i])
}

/// The record for a response without HSTS.
pub open spec fn hsts_vulns(h: HttpFinding) -> Seq<VulnerabilityView> {
    if !h.hsts_enabled {
        seq![vuln_view("NO_HSTS"@, NO_HSTS_TITLE@, NO_HSTS_DESCRIPTION@, RiskLevel::Low,
            RFC_6797@, 37)]
    } else {
        seq![]
    }
}

/// The record for a `Server` header that names a version.
pub open spec fn leak_vulns(h: HttpFinding) -> Seq<VulnerabilityView> {
    match h.server_header {
        Some(server) => if leaks_version(server@) {
            seq![vuln_view("SERVER_HEADER_LEAK"@, SERVER_LEAK_TITLE@,
                "Server header reveals software version information ("@ + server@
                + "). This aids attackers in fingerprinting and CVE matching."@, RiskLevel::Low,
                OWASP_ASVS@, 31)]
        } else {
            seq![]
        },
        None => seq![],
    }
}

/// Records drawn from the HTTP headers: missing HSTS, a version-leaking `Server`.
pub open spec fn http_vulns(h: HttpFinding) -> Seq<VulnerabilityView> {
    hsts_vulns(h) + leak_vulns(h)
}

/// Every record a scan's findings give rise to, TLS first, then certificate,
/// then HTTP. A probe that returned nothing contributes nothing.
pub open spec fn expected_vulnerabilities(
    tls: Option<TlsFinding>,
    cert: Option<CertFinding>,
    http: Option<HttpFinding>,
) -> Seq<VulnerabilityView> {
    let a = match tls {
        Some(t) => tls_vulns(t),
        None => seq![],
    };
    let b = match cert {
        Some(c) => cert_vulns(c),
        None => seq![],
    };
    let d = match http {
        Some(h) => http_vulns(h),
        None => seq![],
    };
    a + b + d
}

/// A certificate whose expiry note can be written: an expired one must not
/// report `i64::MIN` days, whose distance from zero overflows.
pub open spec fn cert_reportable(c: CertFinding) -> bool {
    c.is_expired ==> c.days_remaining > i64::MIN
}

/// Builds the vulnerability list of a scan.
pub struct VulnerabilityDatabase;

fn make_vuln(
    id: &str,
    title: String,
    description: String,
    severity: RiskLevel,
    nist_reference: &str,
    cvss_tenths: u8,
) -> (res: Vulnerability)
    ensures
        res@ == vuln_view(id@, title@, description@, severity, nist_reference@, cvss_tenths),
{
    Vulnerability {
        id: owned(id),
        title,
        description,
        severity,
        nist_reference: owned(nist_reference),
        cvss_tenths,
    }
}

/// `prefix` + `inner` + `suffix`.
fn wrap_text(prefix: &str, inner: &String, suffix: &str) -> (res: String)
    ensures
        res@ == prefix@ + inner@ + suffix@,
{
    let mut s = owned(prefix);
    push_str(&mut s, inner.as_str());
    push_str(&mut s, suffix);
    s
}

fn push_vuln(vulns: &mut Vec<Vulnerability>, v: Vulnerability)
    ensures
        vuln_views(final(vulns)@) == vuln_views(old(vulns)@).push(v@),
{
    vulns.push(v);
    assert(vuln_views(vulns@) =~= vuln_views(old(vulns)@).push(v@));
}

impl VulnerabilityDatabase {
    /// Every vulnerability the findings give rise to, in the order TLS,
    /// certificate, HTTP.
    pub fn build_vulnerabilities(
        tls: Option<&TlsFinding>,
        cert: Option<&CertFinding>,
        http: Option<&HttpFinding>,
    ) -> (res: Vec<Vulnerability>)
        requires
            cert matches Some(c) ==> cert_reportable(*c),
        ensures
            vuln_views(res@) == expected_vulnerabilities(
                match tls {
                    Some(t) => Some(*t),
                    None => None,
                },
                match cert {
                    Some(c) => Some(*c),
                    None => None,
                },
                match http {
                    Some(h) => Some(*h),
                    None => None,
                },
            ),
    {
        let mut vulns: Vec<Vulnerability> = Vec::new();
        if let Some(t) = tls {
            Self::collect_tls(t, &mut vulns);
        }
        let ghost after_tls = vulns@;
        if let Some(c) = cert {
            Self::collect_cert(c, &mut vulns);
        }
        let ghost after_cert = vulns@;
        if let Some(h) = http {
            Self::collect_http(h, &mut vulns);
        }
        proof {
            let a = match tls {
                Some(t) => tls_vulns(*t),
                None => seq![],
            };
            let b = match cert {
                Some(c) => cert_vulns(*c),
                None => seq![],
            };
            let d = match http {
                Some(h) => http_vulns(*h),
                None => seq![],
            };
            assert(vuln_views(Seq::<Vulnerability>::empty()) =~= Seq::<VulnerabilityView>::empty());
            assert(vuln_views(after_tls) =~= a);
            assert(vuln_views(after_cert) =~= a + b);
            assert(vuln_views(vulns@) =~= a + b + d);
        }
        vulns
    }

    fn collect_tls(t: &TlsFinding, vulns: &mut Vec<Vulnerability>)
        ensures
            vuln_views(final(vulns)@) == vuln_views(old(vulns)@) + tls_vulns(*t),
    {
        let ghost start = vuln_views(vulns@);
        if AlgorithmClassifier::is_tls_version_vulnerable(t.protocol_version.as_str()) {
            let raw = chars_of(t.protocol_version.as_str());
            let up = upper_chars(raw.as_slice());
            if contains_str(up.as_slice(), "1.0") || contains_str(up.as_slice(), "1.1")
                || contains_str(up.as_slice(), "SSL") {
                let v = make_vuln(
                    "TLS_LEGACY_VERSION",
                    wrap_text("Legacy TLS/SSL version negotiated (", &t.protocol_version, ")"),
                    owned(LEGACY_VERSION_DESCRIPTION),
                    RiskLevel::High,
                    NIST_SP_800_52,
                    74,
                );
                push_vuln(vulns, v);
            } else {
                let v = make_vuln(
                    "TLS_VERSION_VULNERABLE",
                    wrap_text("TLS 1.2 accepted as highest version (", &t.protocol_version, ")"),
                    owned(TLS12_DESCRIPTION),
                    RiskLevel::Medium,
                    RFC_8446,
                    53,
                );
                push_vuln(vulns, v);
            }
        }
        let ghost after_version = vuln_views(vulns@);
        assert(after_version =~= start + version_vulns(*t));

        let (kx_vuln, kx_reason) = AlgorithmClassifier::is_key_exchange_vulnerable(
            t.key_exchange.as_str(),
        );
        if kx_vuln {
            let raw = chars_of(t.key_exchange.as_str());
            let up = upper_chars(raw.as_slice());
            let u = up.as_slice();
            let id = if eq_str(u, "RSA") {
                "RSA_KEY_EXCHANGE"
            } else if eq_str(u, "ECDH") || eq_str(u, "ECDHE") {
                "ECDHE_KEY_EXCHANGE"
            } else if eq_str(u, "DH") || eq_str(u, "DHE") {
                "DH_KEY_EXCHANGE"
            } else {
                "VULNERABLE_KEY_EXCHANGE"
            };
            let mut description = owned(kx_reason);
            push_str(&mut description, HARVEST_SENTENCE);
            let v = make_vuln(
                id,
                wrap_text("Quantum-vulnerable key exchange: ", &t.key_exchange, ""),
                description,
                RiskLevel::Critical,
                FIPS_203,
                81,
            );
            assert("Quantum-vulnerable key exchange: "@ + t.key_exchange@ + ""@ =~= "Quantum-vulnerable key exchange: "@ + t.key_exchange@) by {
                reveal_strlit("");
            }
            push_vuln(vulns, v);
        }
        let ghost after_kx = vuln_views(vulns@);
        assert(after_kx =~= start + version_vulns(*t) + key_exchange_vulns(*t));

        let (cs_vuln, cs_reason) = AlgorithmClassifier::is_cipher_suite_vulnerable(
            t.cipher_suite.as_str(),
        );
        if cs_vuln {
            let raw = chars_of(t.cipher_suite.as_str());
            let up = upper_chars(raw.as_slice());
            let c = up.as_slice();
            let (id, severity, cvss) = if contains_str(c, "NULL") {
                ("NULL_CIPHER", RiskLevel::Critical, 91u8)
            } else if contains_str(c, "EXPORT") {
                ("EXPORT_CIPHER", RiskLevel::Critical, 86u8)
            } else if contains_str(c, "RC4") {
                ("RC4_CIPHER", RiskLevel::High, 75u8)
            } else if contains_str(c, "3DES") {
                ("TRIPLE_DES_CIPHER", RiskLevel::High, 65u8)
            } else if contains_str(c, "_CBC") {
                ("CBC_CIPHER", RiskLevel::Medium, 59u8)
            } else if contains_str(c, "MD5") {
                ("MD5_CIPHER", RiskLevel::High, 70u8)
            } else if contains_str(c, "SHA1") {
                ("SHA1_CIPHER", RiskLevel::Medium, 53u8)
            } else {
                ("VULNERABLE_CIPHER", RiskLevel::Medium, 50u8)
            };
            let v = make_vuln(
                id,
                wrap_text("Vulnerable cipher suite: ", &t.cipher_suite, ""),
                owned(cs_reason),
                severity,
                NIST_SP_800_52,
                cvss,
            );
            assert("Vulnerable cipher suite: "@ + t.cipher_suite@ + ""@ =~= "Vulnerable cipher suite: "@ + t.cipher_suite@) by {
                reveal_strlit("");
            }
            push_vuln(vulns, v);
        }
        assert(vuln_views(vulns@) =~= start + tls_vulns(*t));
    }

    fn collect_cert(c: &CertFinding, vulns: &mut Vec<Vulnerability>)
        requires
            cert_reportable(*c),
        ensures
            vuln_views(final(vulns)@) == vuln_views(old(vulns)@) + cert_vulns(*c),
    {
        let ghost start = vuln_views(vulns@);
        if c.is_expired {
            let mut description = owned("Certificate expired on ");
            push_str(&mut description, c.valid_until.as_str());
            push_str(&mut description, " (");
            let days: u64 = if c.days_remaining < 0 {
                (-c.days_remaining) as u64
            } else {
                c.days_remaining as u64
            };
            push_decimal(&mut description, days);
            push_str(&mut description, " days ago). Clients will reject this connection.");
            let v = make_vuln(
                "CERT_EXPIRED",
                owned(EXPIRED_TITLE),
                description,
                RiskLevel::Critical,
                RFC_5280,
                75,
            );
            push_vuln(vulns, v);
        }
        assert(vuln_views(vulns@) =~= start + expired_vulns(*c));
        if c.is_self_signed {
            let v = make_vuln(
                "CERT_SELF_SIGNED",
                owned(SELF_SIGNED_TITLE),
                owned(SELF_SIGNED_DESCRIPTION),
                RiskLevel::Medium,
                RFC_5280,
                50,
            );
            push_vuln(vulns, v);
        }
        assert(vuln_views(vulns@) =~= start + expired_vulns(*c) + self_signed_vulns(*c));

        let raw_key = chars_of(c.key_algorithm.as_str());
        let key_up = upper_chars(raw_key.as_slice());
        if starts_with_str(key_up.as_slice(), "RSA") {
            let v = make_vuln(
                "RSA_CERTIFICATE",
                wrap_text("RSA certificate detected (", &c.key_algorithm, ")"),
                owned(RSA_CERT_DESCRIPTION),
                RiskLevel::High,
                FIPS_204,
                74,
            );
            push_vuln(vulns, v);
        } else if starts_with_str(key_up.as_slice(), "ECDSA") || starts_with_str(
            key_up.as_slice(),
            "EC ",
        ) {
            let v = make_vuln(
                "ECDSA_CERTIFICATE",
                wrap_text("ECDSA certificate detected (", &c.key_algorithm, ")"),
                owned(ECDSA_CERT_DESCRIPTION),
                RiskLevel::High,
                FIPS_204,
                70,
            );
            push_vuln(vulns, v);
        }
        assert(vuln_views(vulns@) =~= start + expired_vulns(*c) + self_signed_vulns(*c)
            + key_vulns(*c));

        let (sig_vuln, sig_reason) = AlgorithmClassifier::is_signature_algorithm_vulnerable(
            c.signature_algorithm.as_str(),
        );
        if sig_vuln {
            let raw_sig = chars_of(c.signature_algorithm.as_str());
            let sig_lc = lower_chars(raw_sig.as_slice());
            if contains_str(sig_lc.as_slice(), "sha1") {
                let v = make_vuln(
                    "SHA1_IN_CHAIN",
                    owned(SHA1_SIG_TITLE),
                    owned(sig_reason),
                    RiskLevel::High,
                    SP_800_131A,
                    74,
                );
                push_vuln(vulns, v);
            } else if starts_with_str(sig_lc.as_slice(), "ecdsa") {
                let v = make_vuln(
                    "ECDSA_SIGNATURE",
                    wrap_text("ECDSA signature algorithm (", &c.signature_algorithm, ")"),
                    owned(sig_reason),
                    RiskLevel::High,
                    FIPS_204,
                    70,
                );
                push_vuln(vulns, v);
            } else {
                let v = make_vuln(
                    "RSA_SIGNATURE",
                    wrap_text("RSA signature algorithm (", &c.signature_algorithm, ")"),
                    owned(sig_reason),
                    RiskLevel::High,
                    FIPS_204,
                    74,
                );
                push_vuln(vulns, v);
            }
        }
        assert(vuln_views(vulns@) =~= start + cert_vulns(*c));
    }

    fn collect_http(h: &HttpFinding, vulns: &mut Vec<Vulnerability>)
        ensures
            vuln_views(final(vulns)@) == vuln_views(old(vulns)@) + http_vulns(*h),
    {
        let ghost start = vuln_views(vulns@);
        if !h.hsts_enabled {
            let v = make_vuln(
                "NO_HSTS",
                owned(NO_HSTS_TITLE),
                owned(NO_HSTS_DESCRIPTION),
                RiskLevel::Low,
                RFC_6797,
                37,
            );
            push_vuln(vulns, v);
        }
        if let Some(server) = &h.server_header {
            if Self::server_header_leaks_version(server.as_str()) {
                let v = make_vuln(
                    "SERVER_HEADER_LEAK",
                    owned(SERVER_LEAK_TITLE),
                    wrap_text(
                        "Server header reveals software version information (",
                        server,
                        "). This aids attackers in fingerprinting and CVE matching.",
                    ),
                    RiskLevel::Low,
                    OWASP_ASVS,
                    31,
                );
                push_vuln(vulns, v);
            }
        }
        assert(vuln_views(vulns@) =~= start + http_vulns(*h));
    }

    /// Whether a `Server` header value holds an ASCII digit.
    pub fn server_header_leaks_version(server: &str) -> (res: bool)
        ensures
            res == leaks_version(server@),
    {
        let v = chars_of(server);
        any_digit(v.as_slice())
    }
}

// ─────────────────────────── laws ───────────────────────────

proof fn lemma_without_spaces_of_spaceless(s: Seq<char>)
    requires
        forall|i: int| 0 <= i < s.len() ==> s[i] != ' ',
    ensures
        without_spaces(s) == s,
    decreases s.len(),
{
    if s.len() > 0 {
        let p = s.drop_last();
        assert forall|i: int| 0 <= i < p.len() implies p[i] != ' ' by {
            assert(p[i] == s[i]);
        }
        lemma_without_spaces_of_spaceless(p);
        assert(s[s.len() - 1] != ' ');
        assert(p.push(s.last()) =~= s);
    }
}

/// The version verdict on a name whose trimmed, upper-cased form is a
/// protocol version: every one before TLS 1.3 is vulnerable, TLS 1.3 is not.
pub proof fn lemma_version_names(v: Seq<char>)
    ensures
        to_upper(trim(v)) == "SSLV2"@ || to_upper(trim(v)) == "SSLV3"@ || to_upper(trim(v))
            == "TLSV1"@ || to_upper(trim(v)) == "TLSV1.0"@ || to_upper(trim(v)) == "TLSV1.1"@
            || to_upper(trim(v)) == "TLSV1.2"@ ==> tls_version_vulnerable(v),
        to_upper(trim(v)) == "TLSV1.3"@ ==> !tls_version_vulnerable(v),
{
    let n = to_upper(trim(v));
    reveal_strlit("SSLV2");
    reveal_strlit("SSLV3");
    reveal_strlit("TLSV1");
    reveal_strlit("TLSV1.0");
    reveal_strlit("TLSV1.1");
    reveal_strlit("TLSV1.2");
    reveal_strlit("TLSV1.3");
    assert("SSLV2"@.len() == 5 && "SSLV3"@.len() == 5 && "TLSV1"@.len() == 5);
    assert("TLSV1.0"@.len() == 7 && "TLSV1.1"@.len() == 7 && "TLSV1.2"@.len() == 7
        && "TLSV1.3"@.len() == 7);
    if n == "SSLV2"@ || n == "SSLV3"@ || n == "TLSV1"@ || n == "TLSV1.0"@ || n == "TLSV1.1"@
        || n == "TLSV1.2"@ || n == "TLSV1.3"@ {
        assert forall|i: int| 0 <= i < n.len() implies n[i] != ' ' by {}
        lemma_without_spaces_of_spaceless(n);
        assert(normalized_version(v) == n);
        if n == "TLSV1.3"@ {
            assert(n[6] == '3');
            assert("TLSV1.0"@[6] == '0' && "TLSV1.1"@[6] == '1' && "TLSV1.2"@[6] == '2');
        }
    }
}

/// Every protocol version older than TLS 1.3 is quantum-vulnerable, however
/// its name is cased and padded: SSLv2, SSLv3, TLSv1, TLSv1.0, TLSv1.1 and
/// TLSv1.2 are flagged and TLSv1.3 is not. SSLv2, SSLv3, TLSv1.0 and TLSv1.1
/// are recorded as a legacy version (`TLS_LEGACY_VERSION`).
pub proof fn law_versions_before_tls13_are_vulnerable(t: TlsFinding)
    ensures
        to_upper(trim(t.protocol_version@)) == "SSLV2"@ || to_upper(trim(t.protocol_version@))
            == "SSLV3"@ || to_upper(trim(t.protocol_version@)) == "TLSV1"@ || to_upper(
            trim(t.protocol_version@),
        ) == "TLSV1.0"@ || to_upper(trim(t.protocol_version@)) == "TLSV1.1"@ || to_upper(
            trim(t.protocol_version@),
        ) == "TLSV1.2"@ ==> tls_version_vulnerable(t.protocol_version@),
        to_upper(trim(t.protocol_version@)) == "TLSV1.3"@ ==> !tls_version_vulnerable(
            t.protocol_version@,
        ),
        to_upper(trim(t.protocol_version@)) == "SSLV2"@ || to_upper(trim(t.protocol_version@))
            == "SSLV3"@ || to_upper(trim(t.protocol_version@)) == "TLSV1.0"@ || to_upper(
            trim(t.protocol_version@),
        ) == "TLSV1.1"@ ==> version_vulns(t).len() == 1 && version_vulns(t)[0].id
            == "TLS_LEGACY_VERSION"@,
{
    let v = t.protocol_version@;
    let n = to_upper(trim(v));
    lemma_version_names(v);
    reveal_strlit("SSLV2");
    reveal_strlit("SSLV3");
    reveal_strlit("TLSV1.0");
    reveal_strlit("TLSV1.1");
    reveal_strlit("1.0");
    reveal_strlit("1.1");
    reveal_strlit("SSL");
    if n == "SSLV2"@ || n == "SSLV3"@ || n == "TLSV1.0"@ || n == "TLSV1.1"@ {
        let (a, b) = lemma_trim_is_run(v);
        lemma_to_upper_run(v, a, b);
        let up = to_upper(v);
        assert(up.subrange(a, b) == n);
        if n == "SSLV2"@ || n == "SSLV3"@ {
            assert(up.subrange(a, a + 3) =~= "SSL"@) by {
                assert forall|i: int| 0 <= i < 3 implies up.subrange(a, a + 3)[i] == "SSL"@[i] by {
                    assert(up.subrange(a, a + 3)[i] == up.subrange(a, b)[i]);
                }
            }
            assert(has_infix(up, "SSL"@));
        } else if n == "TLSV1.0"@ {
            assert(up.subrange(a + 4, a + 7) =~= "1.0"@) by {
                assert forall|i: int| 0 <= i < 3 implies up.subrange(a + 4, a + 7)[i] == "1.0"@[i] by {
                    assert(up.subrange(a + 4, a + 7)[i] == up.subrange(a, b)[i + 4]);
                }
            }
            assert(up.subrange(a + 4, a + 4 + "1.0"@.len()) == "1.0"@);
            assert(has_infix(up, "1.0"@));
        } else {
            assert(up.subrange(a + 4, a + 7) =~= "1.1"@) by {
                assert forall|i: int| 0 <= i < 3 implies up.subrange(a + 4, a + 7)[i] == "1.1"@[i] by {
                    assert(up.subrange(a + 4, a + 7)[i] == up.subrange(a, b)[i + 4]);
                }
            }
            assert(up.subrange(a + 4, a + 4 + "1.1"@.len()) == "1.1"@);
            assert(has_infix(up, "1.1"@));
        }
    }
}

} // verus!
