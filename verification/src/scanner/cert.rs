//! The certificate finding of a DER-encoded leaf certificate: subject and
//! issuer, key and signature algorithms, validity window, self-signed
//! status and the Certificate Transparency flag.

use vstd::prelude::*;

use chrono::{DateTime, Utc};
use x509_parser::prelude::{FromDer, X509Certificate};
use x509_parser::public_key::PublicKey;

use crate::classifier::algorithms::{
    cert_reportable, key_vulns, signature_verdict, signature_vulns, AlgorithmClassifier,
};
use crate::classifier::recommendations::{law_advice_names_the_algorithm, rec_table};
use crate::models::finding::CertFinding;
use crate::text::{
    chars_eq, chars_of, decimal, eq_str, has_infix, lemma_to_upper_run, lemma_trim_of_unpadded, owned,
    push_decimal, push_str, to_upper,
};

verus! {

/// Extension OID of embedded Signed Certificate Timestamps.
pub const SCT_EXTENSION_OID: &'static str = "1.3.6.1.4.1.11129.2.4.2";
/// Public-key algorithm OID of RSA.
pub const RSA_KEY_OID: &'static str = "1.2.840.113549.1.1.1";
/// Public-key algorithm OID of elliptic-curve keys.
pub const EC_KEY_OID: &'static str = "1.2.840.10045.2.1";

/// What the scanner reads out of a certificate, as plain values.
#[derive(Clone, Debug)]
pub struct CertificateFields {
    /// The subject name, as `X509Name`'s `Display` renders it.
    pub subject: String,
    /// The issuer name, rendered the same way.
    pub issuer: String,
    /// Dotted OID of the signature algorithm.
    pub signature_oid: String,
    /// Dotted OID of the public-key algorithm.
    pub key_oid: String,
    /// Start of the validity window, in seconds since the Unix epoch.
    pub not_before: i64,
    /// End of the validity window, in seconds since the Unix epoch.
    pub not_after: i64,
    /// Dotted OIDs of the extensions, in order.
    pub extension_oids: Vec<String>,
}

/// What the scanner reads out of a certificate's public key.
#[derive(Clone, Debug)]
pub struct KeyDetails {
    /// The raw RSA modulus bytes, when the key parses as an RSA key.
    pub rsa_modulus: Option<Vec<u8>>,
    /// Dotted OID held by the key algorithm's parameters, when they are one.
    pub parameter_oid: Option<String>,
}

/// Why a certificate could not be graded.
#[derive(Clone, Debug)]
pub enum CertError {
    /// The bytes are not a DER X.509 certificate; the parser's message.
    Parse(String),
    /// The end of the validity window lies outside the calendar range.
    NotAfterOutOfRange,
    /// The start of the validity window lies outside the calendar range.
    NotBeforeOutOfRange,
}

impl CertError {
    /// The error's message.
    pub fn message(&self) -> (res: String)
        ensures
            res@ == cert_error_message(*self),
    {
        match self {
            CertError::Parse(e) => {
                let mut s = owned("X.509 DER parse failed: ");
                push_str(&mut s, e.as_str());
                s
            },
            CertError::NotAfterOutOfRange => owned("not_after timestamp out of range"),
            CertError::NotBeforeOutOfRange => owned("not_before timestamp out of range"),
        }
    }
}

/// The message of a [`CertError`].
pub open spec fn cert_error_message(e: CertError) -> Seq<char> {
    match e {
        CertError::Parse(m) => "X.509 DER parse failed: "@ + m@,
        CertError::NotAfterOutOfRange => "not_after timestamp out of range"@,
        CertError::NotBeforeOutOfRange => "not_before timestamp out of range"@,
    }
}

// ─────────────────────────── the outside parser and clock ───────────────────────────

/// What `X509Certificate::from_der` reports on `der`: `None` when it parses,
/// else the error's `Display` text.
pub uninterp spec fn x509_parse_error(der: Seq<u8>) -> Option<Seq<char>>;

/// `Display` of the parsed certificate's subject name.
pub uninterp spec fn x509_subject(der: Seq<u8>) -> Seq<char>;

/// `Display` of the parsed certificate's issuer name.
pub uninterp spec fn x509_issuer(der: Seq<u8>) -> Seq<char>;

/// `Oid::to_id_string` of the signature algorithm.
pub uninterp spec fn x509_signature_oid(der: Seq<u8>) -> Seq<char>;

/// `Oid::to_id_string` of the public-key algorithm.
pub uninterp spec fn x509_key_oid(der: Seq<u8>) -> Seq<char>;

/// The modulus bytes when `SubjectPublicKeyInfo::parsed` gives an RSA key.
pub uninterp spec fn x509_rsa_modulus(der: Seq<u8>) -> Option<Seq<u8>>;

/// `Oid::to_id_string` of the key algorithm's parameters, when
/// `Any::as_oid` reads them as an OID.
pub uninterp spec fn x509_key_parameter_oid(der: Seq<u8>) -> Option<Seq<char>>;

/// `ASN1Time::timestamp` of the start of the validity window.
pub uninterp spec fn x509_not_before(der: Seq<u8>) -> int;

/// `ASN1Time::timestamp` of the end of the validity window.
pub uninterp spec fn x509_not_after(der: Seq<u8>) -> int;

/// `Oid::to_id_string` of each extension, in order.
pub uninterp spec fn x509_extension_oids(der: Seq<u8>) -> Seq<Seq<char>>;

/// Whether `DateTime::<Utc>::from_timestamp(secs, 0)` gives a date-time:
/// `secs` lies between `DateTime::<Utc>::MIN_UTC` (-262143-01-01T00:00:00Z)
/// and `DateTime::<Utc>::MAX_UTC` (+262142-12-31T23:59:59Z).
pub open spec fn utc_in_range(secs: int) -> bool {
    -8_334_601_228_800 <= secs <= 8_210_266_876_799
}

/// `DateTime::to_rfc3339` of the UTC date-time `secs` seconds after the epoch.
pub uninterp spec fn utc_rfc3339(secs: int) -> Seq<char>;

/// `X509Certificate::from_der` and the getters the scanner reads, but for
/// the public key's details. On success the fields are those of the parsed
/// certificate; on failure the error is the parser's message.
#[verifier::external_body]
fn read_certificate(der: &[u8]) -> (res: Result<CertificateFields, String>)
    ensures
        res matches Err(e) ==> x509_parse_error(der@) == Some(e@),
        res is Ok ==> x509_parse_error(der@) is None,
        res matches Ok(f) ==> f.subject@ == x509_subject(der@),
        res matches Ok(f) ==> f.issuer@ == x509_issuer(der@),
        res matches Ok(f) ==> f.signature_oid@ == x509_signature_oid(der@),
        res matches Ok(f) ==> f.key_oid@ == x509_key_oid(der@),
        res matches Ok(f) ==> f.not_before == x509_not_before(der@),
        res matches Ok(f) ==> f.not_after == x509_not_after(der@),
        res matches Ok(f) ==> texts(f.extension_oids@) == x509_extension_oids(der@),
{
    let (_, c) = X509Certificate::from_der(der).map_err(|e| e.to_string())?;
    Ok(CertificateFields {
        subject: c.subject().to_string(),
        issuer: c.issuer().to_string(),
        signature_oid: c.signature_algorithm.algorithm.to_id_string(),
        key_oid: c.public_key().algorithm.algorithm.to_id_string(),
        not_before: c.validity().not_before.timestamp(),
        not_after: c.validity().not_after.timestamp(),
        extension_oids: c.extensions().iter().map(|e| e.oid.to_id_string()).collect(),
    })
}

/// `SubjectPublicKeyInfo::parsed` and `Any::as_oid` on the public key of the
/// certificate `der` (parsed again with `X509Certificate::from_der`): the
/// modulus when the key is an RSA key, and the key algorithm's parameters
/// when they are an OID. Both are absent when `der` does not parse. The
/// modulus is a part of the input, so it is no longer than `der`.
#[verifier::external_body]
fn read_key_details(der: &[u8]) -> (res: KeyDetails)
    ensures
        x509_parse_error(der@) is None ==> opt_bytes(res.rsa_modulus) == x509_rsa_modulus(der@),
        x509_parse_error(der@) is None ==> opt_text(res.parameter_oid) == x509_key_parameter_oid(der@),
        res.rsa_modulus matches Some(m) ==> m@.len() <= der@.len(),
{
    match X509Certificate::from_der(der) {
        Ok((_, c)) => KeyDetails {
            rsa_modulus: match c.public_key().parsed() { Ok(PublicKey::RSA(r)) => Some(r.modulus.to_vec()), _ => None },
            parameter_oid: c.public_key().algorithm.parameters.as_ref().and_then(|p| p.as_oid().ok()).map(|o| o.to_id_string()),
        },
        Err(_) => KeyDetails { rsa_modulus: None, parameter_oid: None },
    }
}

/// `DateTime::<Utc>::from_timestamp(secs, 0)` rendered by `to_rfc3339`;
/// `None` when the timestamp is out of chrono's range.
#[verifier::external_body]
fn rfc3339_at(secs: i64) -> (res: Option<String>)
    ensures
        res is Some <==> utc_in_range(secs as int),
        res matches Some(s) ==> s@ == utc_rfc3339(secs as int),
{
    match DateTime::<Utc>::from_timestamp(secs, 0) {
        Some(t) => Some(t.to_rfc3339()),
        None => None,
    }
}

/// `Utc::now()` as whole seconds since the epoch and the nanoseconds past
/// them. The clock is read from the system, so nothing ties the value to an
/// input; chrono builds it from `SystemTime`, whose sub-second part is below
/// one second (and it panics on a clock set before the epoch).
#[verifier::external_body]
pub(crate) fn utc_now() -> (res: (i64, u32))
    ensures
        res.1 < 1_000_000_000,
{
    let now = Utc::now();
    (now.timestamp(), now.timestamp_subsec_nanos())
}

// ─────────────────────────── specifications ───────────────────────────

/// The bytes of an optional byte vector.
pub open spec fn opt_bytes(v: Option<Vec<u8>>) -> Option<Seq<u8>> {
    match v {
        Some(b) => Some(b@),
        None => None,
    }
}

/// The characters of an optional string.
pub open spec fn opt_text(v: Option<String>) -> Option<Seq<char>> {
    match v {
        Some(s) => Some(s@),
        None => None,
    }
}

/// The characters of each string.
pub open spec fn texts(v: Seq<String>) -> Seq<Seq<char>> {
    v.map_values(|s: String| s@)
}

/// The display name of a signature-algorithm OID; unknown OIDs are shown
/// as themselves.
pub open spec fn signature_name(dotted: Seq<char>) -> Seq<char> {
    if dotted == "1.2.840.113549.1.1.5"@ {
        "sha1WithRSAEncryption"@
    } else if dotted == "1.2.840.113549.1.1.11"@ {
        "sha256WithRSAEncryption"@
    } else if dotted == "1.2.840.113549.1.1.12"@ {
        "sha384WithRSAEncryption"@
    } else if dotted == "1.2.840.113549.1.1.13"@ {
        "sha512WithRSAEncryption"@
    } else if dotted == "1.2.840.10045.4.3.2"@ {
        "ecdsa-with-SHA256"@
    } else if dotted == "1.2.840.10045.4.3.3"@ {
        "ecdsa-with-SHA384"@
    } else if dotted == "1.2.840.10045.4.3.4"@ {
        "ecdsa-with-SHA512"@
    } else if dotted == "1.2.840.10040.4.3"@ {
        "id-dsa-with-sha1"@
    } else if dotted == "1.3.101.112"@ {
        "Ed25519"@
    } else if dotted == "1.3.101.113"@ {
        "Ed448"@
    } else if dotted == "2.16.840.1.101.3.4.3.17"@ {
        "id-ML-DSA-44"@
    } else if dotted == "2.16.840.1.101.3.4.3.18"@ {
        "id-ML-DSA-65"@
    } else if dotted == "2.16.840.1.101.3.4.3.19"@ {
        "id-ML-DSA-87"@
    } else {
        dotted
    }
}

/// Key size in bits of an RSA modulus, a leading zero byte not counted.
pub open spec fn rsa_bits(modulus: Seq<u8>) -> nat {
    if modulus.len() > 0 && modulus[0] == 0 {
        ((modulus.len() - 1) * 8) as nat
    } else {
        modulus.len() * 8
    }
}

/// The curve named by an EC key's parameter OID.
pub open spec fn curve_name(parameter_oid: Option<Seq<char>>) -> Option<Seq<char>> {
    match parameter_oid {
        Some(p) => if p == "1.2.840.10045.3.1.7"@ {
            Some("P-256"@)
        } else if p == "1.3.132.0.34"@ {
            Some("P-384"@)
        } else if p == "1.3.132.0.35"@ {
            Some("P-521"@)
        } else if p == "1.3.132.0.10"@ {
            Some("secp256k1"@)
        } else {
            None
        },
        None => None,
    }
}

/// Label of a public key and whether it is quantum-vulnerable.
pub open spec fn key_description(
    key_oid: Seq<char>,
    rsa_modulus: Option<Seq<u8>>,
    parameter_oid: Option<Seq<char>>,
) -> (Seq<char>, bool) {
    if key_oid == RSA_KEY_OID@ {
        let label = match rsa_modulus {
            Some(m) => if rsa_bits(m) > 0 {
                "RSA "@ + decimal(rsa_bits(m)) + "-bit"@
            } else {
                "RSA"@
            },
            None => "RSA"@,
        };
        (label, true)
    } else if key_oid == EC_KEY_OID@ {
        let curve = match curve_name(parameter_oid) {
            Some(c) => c,
            None => "unknown-curve"@,
        };
        ("EC "@ + curve, true)
    } else if key_oid == "1.3.101.112"@ {
        ("Ed25519"@, false)
    } else if key_oid == "1.3.101.113"@ {
        ("Ed448"@, false)
    } else if key_oid == "2.16.840.1.101.3.4.3.17"@ {
        ("ML-DSA-44"@, false)
    } else if key_oid == "2.16.840.1.101.3.4.3.18"@ {
        ("ML-DSA-65"@, false)
    } else if key_oid == "2.16.840.1.101.3.4.3.19"@ {
        ("ML-DSA-87"@, false)
    } else {
        (key_oid, false)
    }
}

/// Integer division rounding toward zero.
pub open spec fn div_toward_zero(a: int, b: int) -> int {
    if a >= 0 {
        a / b
    } else {
        -((-a) / b)
    }
}

/// Whole seconds from the instant `now_secs` + `now_nanos`·10⁻⁹ to
/// `not_after`, rounded toward zero.
pub open spec fn seconds_until(not_after: int, now_secs: int, now_nanos: int) -> int {
    let d = not_after - now_secs;
    if d > 0 && now_nanos > 0 {
        d - 1
    } else {
        d
    }
}

/// Whole days from `now` to `not_after`, rounded toward zero (negative once
/// the certificate has expired).
pub open spec fn days_until(not_after: int, now_secs: int, now_nanos: int) -> int {
    div_toward_zero(seconds_until(not_after, now_secs, now_nanos), 86400)
}

/// `not_after` lies strictly before `now`.
pub open spec fn expired_at(not_after: int, now_secs: int, now_nanos: int) -> bool {
    not_after < now_secs || (not_after == now_secs && now_nanos > 0)
}

/// `c` is the finding for a certificate with the given parts, graded at
/// `now`, with `valid_from` and `valid_until` the rendered window.
pub open spec fn finding_describes(
    c: CertFinding,
    subject: Seq<char>,
    issuer: Seq<char>,
    signature_oid: Seq<char>,
    key_oid: Seq<char>,
    rsa_modulus: Option<Seq<u8>>,
    parameter_oid: Option<Seq<char>>,
    not_after: int,
    extension_oids: Seq<Seq<char>>,
    valid_from: Seq<char>,
    valid_until: Seq<char>,
    now_secs: int,
    now_nanos: int,
) -> bool {
    let sig = signature_name(signature_oid);
    let key = key_description(key_oid, rsa_modulus, parameter_oid);
    &&& c.subject@ == subject
    &&& c.issuer@ == issuer
    &&& c.is_self_signed == (subject == issuer)
    &&& c.signature_algorithm@ == sig
    &&& c.signature_algorithm_vulnerable == signature_verdict(sig).0
    &&& c.key_algorithm@ == key.0
    &&& c.key_algorithm_vulnerable == key.1
    &&& c.valid_from@ == valid_from
    &&& c.valid_until@ == valid_until
    &&& c.days_remaining == days_until(not_after, now_secs, now_nanos)
    &&& c.is_expired == expired_at(not_after, now_secs, now_nanos)
    &&& c.ct_logged == extension_oids.contains(SCT_EXTENSION_OID@)
}

/// The outcome of grading the fields `f` and key details `key` at `now`, given the rendered
/// validity bounds (`None` where the timestamp is out of range).
pub open spec fn graded(
    res: Result<CertFinding, CertError>,
    f: CertificateFields,
    key: KeyDetails,
    valid_from: Option<Seq<char>>,
    valid_until: Option<Seq<char>>,
    now_secs: int,
    now_nanos: int,
) -> bool {
    match valid_until {
        None => res matches Err(CertError::NotAfterOutOfRange),
        Some(until) => match valid_from {
            None => res matches Err(CertError::NotBeforeOutOfRange),
            Some(from) => res matches Ok(c) && finding_describes(
                c,
                f.subject@,
                f.issuer@,
                f.signature_oid@,
                f.key_oid@,
                opt_bytes(key.rsa_modulus),
                opt_text(key.parameter_oid),
                f.not_after as int,
                texts(f.extension_oids@),
                from,
                until,
                now_secs,
                now_nanos,
            ),
        },
    }
}

/// The outcome of grading the certificate `der` at `now`.
pub open spec fn graded_der(
    res: Result<CertFinding, CertError>,
    der: Seq<u8>,
    now_secs: int,
    now_nanos: int,
) -> bool {
    match x509_parse_error(der) {
        Some(e) => res matches Err(CertError::Parse(m)) && m@ == e,
        None => if !utc_in_range(x509_not_after(der)) {
            res matches Err(CertError::NotAfterOutOfRange)
        } else if !utc_in_range(x509_not_before(der)) {
            res matches Err(CertError::NotBeforeOutOfRange)
        } else {
            res matches Ok(c) && finding_describes(
                c,
                x509_subject(der),
                x509_issuer(der),
                x509_signature_oid(der),
                x509_key_oid(der),
                x509_rsa_modulus(der),
                x509_key_parameter_oid(der),
                x509_not_after(der),
                x509_extension_oids(der),
                utc_rfc3339(x509_not_before(der)),
                utc_rfc3339(x509_not_after(der)),
                now_secs,
                now_nanos,
            )
        },
    }
}

// ─────────────────────────── executable code ───────────────────────────

/// The display name of a signature-algorithm OID given in dotted form.
pub fn signature_algorithm_name(dotted: &str) -> (res: String)
    ensures
        res@ == signature_name(dotted@),
{
    let d = chars_of(dotted);
    let a = d.as_slice();
    if eq_str(a, "1.2.840.113549.1.1.5") {
        owned("sha1WithRSAEncryption")
    } else if eq_str(a, "1.2.840.113549.1.1.11") {
        owned("sha256WithRSAEncryption")
    } else if eq_str(a, "1.2.840.113549.1.1.12") {
        owned("sha384WithRSAEncryption")
    } else if eq_str(a, "1.2.840.113549.1.1.13") {
        owned("sha512WithRSAEncryption")
    } else if eq_str(a, "1.2.840.10045.4.3.2") {
        owned("ecdsa-with-SHA256")
    } else if eq_str(a, "1.2.840.10045.4.3.3") {
        owned("ecdsa-with-SHA384")
    } else if eq_str(a, "1.2.840.10045.4.3.4") {
        owned("ecdsa-with-SHA512")
    } else if eq_str(a, "1.2.840.10040.4.3") {
        owned("id-dsa-with-sha1")
    } else if eq_str(a, "1.3.101.112") {
        owned("Ed25519")
    } else if eq_str(a, "1.3.101.113") {
        owned("Ed448")
    } else if eq_str(a, "2.16.840.1.101.3.4.3.17") {
        owned("id-ML-DSA-44")
    } else if eq_str(a, "2.16.840.1.101.3.4.3.18") {
        owned("id-ML-DSA-65")
    } else if eq_str(a, "2.16.840.1.101.3.4.3.19") {
        owned("id-ML-DSA-87")
    } else {
        owned(dotted)
    }
}

/// Key size in bits of an RSA modulus; a leading zero byte (the sign pad
/// of a DER integer) is not counted.
pub fn rsa_modulus_bits(modulus: &[u8]) -> (res: usize)
    requires
        rsa_bits(modulus@) <= usize::MAX,
    ensures
        res as nat == rsa_bits(modulus@),
{
    if modulus.len() > 0 && modulus[0] == 0 {
        (modulus.len() - 1) * 8
    } else {
        modulus.len() * 8
    }
}

/// The curve named by an EC key's parameter OID, when it is one of the
/// curves the scanner knows.
pub fn ec_curve_name(parameter_oid: Option<&str>) -> (res: Option<&'static str>)
    ensures
        res matches Some(c) ==> curve_name(opt_str(parameter_oid)) == Some(c@),
        res is None ==> curve_name(opt_str(parameter_oid)) is None,
{
    match parameter_oid {
        Some(p) => {
            let v = chars_of(p);
            let a = v.as_slice();
            if eq_str(a, "1.2.840.10045.3.1.7") {
                Some("P-256")
            } else if eq_str(a, "1.3.132.0.34") {
                Some("P-384")
            } else if eq_str(a, "1.3.132.0.35") {
                Some("P-521")
            } else if eq_str(a, "1.3.132.0.10") {
                Some("secp256k1")
            } else {
                None
            }
        },
        None => None,
    }
}

/// The characters of an optional string slice.
pub open spec fn opt_str(v: Option<&str>) -> Option<Seq<char>> {
    match v {
        Some(s) => Some(s@),
        None => None,
    }
}

/// Label of the certificate's public key and whether it is quantum-vulnerable.
pub fn describe_public_key(key_oid: &str, key: &KeyDetails) -> (res: (String, bool))
    requires
        key.rsa_modulus matches Some(m) ==> rsa_bits(m@) <= usize::MAX,
    ensures
        res.0@ == key_description(key_oid@, opt_bytes(key.rsa_modulus), opt_text(key.parameter_oid)).0,
        res.1 == key_description(key_oid@, opt_bytes(key.rsa_modulus), opt_text(key.parameter_oid)).1,
{
    let k = chars_of(key_oid);
    let a = k.as_slice();
    if eq_str(a, RSA_KEY_OID) {
        let label = match &key.rsa_modulus {
            Some(m) => {
                let bits = rsa_modulus_bits(m.as_slice());
                if bits > 0 {
                    let mut s = owned("RSA ");
                    push_decimal(&mut s, bits as u64);
                    push_str(&mut s, "-bit");
                    s
                } else {
                    owned("RSA")
                }
            },
            None => owned("RSA"),
        };
        (label, true)
    } else if eq_str(a, EC_KEY_OID) {
        let param = match &key.parameter_oid {
            Some(p) => Some(p.as_str()),
            None => None,
        };
        let curve = match ec_curve_name(param) {
            Some(c) => c,
            None => "unknown-curve",
        };
        let mut s = owned("EC ");
        push_str(&mut s, curve);
        (s, true)
    } else if eq_str(a, "1.3.101.112") {
        (owned("Ed25519"), false)
    } else if eq_str(a, "1.3.101.113") {
        (owned("Ed448"), false)
    } else if eq_str(a, "2.16.840.1.101.3.4.3.17") {
        (owned("ML-DSA-44"), false)
    } else if eq_str(a, "2.16.840.1.101.3.4.3.18") {
        (owned("ML-DSA-65"), false)
    } else if eq_str(a, "2.16.840.1.101.3.4.3.19") {
        (owned("ML-DSA-87"), false)
    } else {
        (owned(key_oid), false)
    }
}

/// Whole days from `now` to `not_after`, rounded toward zero.
pub fn days_remaining_at(not_after: i64, now_secs: i64, now_nanos: u32) -> (res: i64)
    ensures
        res as int == days_until(not_after as int, now_secs as int, now_nanos as int),
        res > i64::MIN,
{
    let d: i128 = not_after as i128 - now_secs as i128;
    let s: i128 = if d > 0 && now_nanos > 0 {
        d - 1
    } else {
        d
    };
    if s >= 0 {
        let q: u128 = (s as u128) / 86400;
        assert(q <= s);
        q as i64
    } else {
        let m: u128 = (-s) as u128;
        let q: u128 = m / 86400;
        assert(q < 0x8000_0000_0000_0000) by (nonlinear_arith)
            requires
                m <= 0x1_0000_0000_0000_0000,
                q == m / 86400,
        ;
        -(q as i64)
    }
}

/// Whether any extension is the embedded-SCT extension.
fn has_sct_extension(oids: &Vec<String>) -> (res: bool)
    ensures
        res == texts(oids@).contains(SCT_EXTENSION_OID@),
{
    for i in 0..oids.len()
        invariant
            forall|j: int| 0 <= j < i ==> oids@[j]@ != SCT_EXTENSION_OID@,
    {
        let v = chars_of(oids[i].as_str());
        if eq_str(v.as_slice(), SCT_EXTENSION_OID) {
            assert(texts(oids@)[i as int] == SCT_EXTENSION_OID@);
            return true;
        }
    }
    assert forall|j: int| 0 <= j < texts(oids@).len() implies texts(oids@)[j] != SCT_EXTENSION_OID@ by {
        assert(texts(oids@)[j] == oids@[j]@);
    }
    false
}

/// The certificate probe.
pub struct CertScanner;

impl CertScanner {
    /// Grades the fields and key details read from a certificate at the instant `now_secs` +
    /// `now_nanos`·10⁻⁹, given the rendered bounds of its validity window
    /// (`None` where a bound is outside the calendar range, which is then
    /// the error, the end of the window checked first).
    pub fn finding_from_fields(
        fields: &CertificateFields,
        key: &KeyDetails,
        valid_from: Option<String>,
        valid_until: Option<String>,
        now_secs: i64,
        now_nanos: u32,
    ) -> (res: Result<CertFinding, CertError>)
        requires
            key.rsa_modulus matches Some(m) ==> rsa_bits(m@) <= usize::MAX,
        ensures
            graded(
                res,
                *fields,
                *key,
                opt_text(valid_from),
                opt_text(valid_until),
                now_secs as int,
                now_nanos as int,
            ),
            res matches Ok(c) ==> cert_reportable(c),
    {
        let subject = fields.subject.clone();
        let issuer = fields.issuer.clone();
        let sv = chars_of(subject.as_str());
        let iv = chars_of(issuer.as_str());
        let is_self_signed = chars_eq(sv.as_slice(), iv.as_slice());
        let signature_algorithm = signature_algorithm_name(fields.signature_oid.as_str());
        let (signature_algorithm_vulnerable, _) =
            AlgorithmClassifier::is_signature_algorithm_vulnerable(signature_algorithm.as_str());
        let (key_algorithm, key_algorithm_vulnerable) = describe_public_key(
            fields.key_oid.as_str(),
            key,
        );
        let valid_until = match valid_until {
            Some(t) => t,
            None => {
                return Err(CertError::NotAfterOutOfRange);
            },
        };
        let valid_from = match valid_from {
            Some(t) => t,
            None => {
                return Err(CertError::NotBeforeOutOfRange);
            },
        };
        let days_remaining = days_remaining_at(fields.not_after, now_secs, now_nanos);
        let is_expired = fields.not_after < now_secs || (fields.not_after == now_secs && now_nanos
            > 0);
        let ct_logged = has_sct_extension(&fields.extension_oids);
        Ok(
            CertFinding {
                subject,
                issuer,
                key_algorithm,
                key_algorithm_vulnerable,
                signature_algorithm,
                signature_algorithm_vulnerable,
                valid_from,
                valid_until,
                days_remaining,
                is_expired,
                is_self_signed,
                ct_logged,
            },
        )
    }

    /// Parses a DER certificate and grades it at the instant `now_secs` +
    /// `now_nanos`·10⁻⁹.
    pub fn parse_der_at(der: &[u8], now_secs: i64, now_nanos: u32) -> (res: Result<
        CertFinding,
        CertError,
    >)
        requires
            der@.len() * 8 <= usize::MAX,
        ensures
            graded_der(res, der@, now_secs as int, now_nanos as int),
            res matches Ok(c) ==> cert_reportable(c),
    {
        let fields = match read_certificate(der) {
            Ok(f) => f,
            Err(e) => {
                return Err(CertError::Parse(e));
            },
        };
        let key = read_key_details(der);
        assert(key.rsa_modulus matches Some(m) ==> rsa_bits(m@) <= m@.len() * 8);
        let valid_until = rfc3339_at(fields.not_after);
        let valid_from = rfc3339_at(fields.not_before);
        Self::finding_from_fields(&fields, &key, valid_from, valid_until, now_secs, now_nanos)
    }

    /// Parses a DER certificate and grades it against the current time.
    pub fn parse_der(der: &[u8]) -> (res: Result<CertFinding, CertError>)
        requires
            der@.len() * 8 <= usize::MAX,
        ensures
            exists|now_secs: i64, now_nanos: u32|
                now_nanos < 1_000_000_000 && graded_der(res, der@, now_secs as int, now_nanos as int),
            res matches Ok(c) ==> cert_reportable(c),
    {
        let (now_secs, now_nanos) = utc_now();
        Self::parse_der_at(der, now_secs, now_nanos)
    }
}

/// The classical RSA and ECDSA signature algorithms a certificate can be
/// signed with are each named by their standard name and graded
/// quantum-vulnerable, with a record for the signature.
pub proof fn law_classical_signatures_are_named_and_flagged(
    res: Result<CertFinding, CertError>,
    f: CertificateFields,
    key: KeyDetails,
    valid_from: Option<Seq<char>>,
    valid_until: Option<Seq<char>>,
    now_secs: int,
    now_nanos: int,
)
    requires
        graded(res, f, key, valid_from, valid_until, now_secs, now_nanos),
    ensures
        res matches Ok(c) ==> (f.signature_oid@ == "1.2.840.113549.1.1.5"@ ==> (c.signature_algorithm@
            == "sha1WithRSAEncryption"@ && c.signature_algorithm_vulnerable && signature_vulns(c).len() == 1)),
        res matches Ok(c) ==> (f.signature_oid@ == "1.2.840.113549.1.1.11"@ ==> (c.signature_algorithm@
            == "sha256WithRSAEncryption"@ && c.signature_algorithm_vulnerable && signature_vulns(c).len() == 1)),
        res matches Ok(c) ==> (f.signature_oid@ == "1.2.840.113549.1.1.12"@ ==> (c.signature_algorithm@
            == "sha384WithRSAEncryption"@ && c.signature_algorithm_vulnerable && signature_vulns(c).len() == 1)),
        res matches Ok(c) ==> (f.signature_oid@ == "1.2.840.113549.1.1.13"@ ==> (c.signature_algorithm@
            == "sha512WithRSAEncryption"@ && c.signature_algorithm_vulnerable && signature_vulns(c).len() == 1)),
        res matches Ok(c) ==> (f.signature_oid@ == "1.2.840.10045.4.3.2"@ ==> (c.signature_algorithm@
            == "ecdsa-with-SHA256"@ && c.signature_algorithm_vulnerable && signature_vulns(c).len() == 1)),
        res matches Ok(c) ==> (f.signature_oid@ == "1.2.840.10045.4.3.3"@ ==> (c.signature_algorithm@
            == "ecdsa-with-SHA384"@ && c.signature_algorithm_vulnerable && signature_vulns(c).len() == 1)),
        res matches Ok(c) ==> (f.signature_oid@ == "1.2.840.10045.4.3.4"@ ==> (c.signature_algorithm@
            == "ecdsa-with-SHA512"@ && c.signature_algorithm_vulnerable && signature_vulns(c).len() == 1)),
{
    reveal_strlit("1.2.840.113549.1.1.5");
    reveal_strlit("sha1WithRSAEncryption");
    reveal_strlit("1.2.840.113549.1.1.11");
    reveal_strlit("sha256WithRSAEncryption");
    reveal_strlit("1.2.840.113549.1.1.12");
    reveal_strlit("sha384WithRSAEncryption");
    reveal_strlit("1.2.840.113549.1.1.13");
    reveal_strlit("sha512WithRSAEncryption");
    reveal_strlit("1.2.840.10045.4.3.2");
    reveal_strlit("ecdsa-with-SHA256");
    reveal_strlit("1.2.840.10045.4.3.3");
    reveal_strlit("ecdsa-with-SHA384");
    reveal_strlit("1.2.840.10045.4.3.4");
    reveal_strlit("ecdsa-with-SHA512");
    assert("1.2.840.113549.1.1.5"@.len() == 20 && "1.2.840.113549.1.1.5"@[19] == '5');
    assert("sha1WithRSAEncryption"@.len() == 21 && "sha1WithRSAEncryption"@[3] == '1');
    lemma_trim_of_unpadded("sha1WithRSAEncryption"@);
    assert("1.2.840.113549.1.1.11"@.len() == 21 && "1.2.840.113549.1.1.11"@[20] == '1');
    assert("sha256WithRSAEncryption"@.len() == 23 && "sha256WithRSAEncryption"@[3] == '2');
    lemma_trim_of_unpadded("sha256WithRSAEncryption"@);
    assert("1.2.840.113549.1.1.12"@.len() == 21 && "1.2.840.113549.1.1.12"@[20] == '2');
    assert("sha384WithRSAEncryption"@.len() == 23 && "sha384WithRSAEncryption"@[3] == '3');
    lemma_trim_of_unpadded("sha384WithRSAEncryption"@);
    assert("1.2.840.113549.1.1.13"@.len() == 21 && "1.2.840.113549.1.1.13"@[20] == '3');
    assert("sha512WithRSAEncryption"@.len() == 23 && "sha512WithRSAEncryption"@[3] == '5');
    lemma_trim_of_unpadded("sha512WithRSAEncryption"@);
    assert("1.2.840.10045.4.3.2"@.len() == 19 && "1.2.840.10045.4.3.2"@[18] == '2');
    assert("ecdsa-with-SHA256"@.len() == 17 && "ecdsa-with-SHA256"@[14] == '2');
    lemma_trim_of_unpadded("ecdsa-with-SHA256"@);
    assert("1.2.840.10045.4.3.3"@.len() == 19 && "1.2.840.10045.4.3.3"@[18] == '3');
    assert("ecdsa-with-SHA384"@.len() == 17 && "ecdsa-with-SHA384"@[14] == '3');
    lemma_trim_of_unpadded("ecdsa-with-SHA384"@);
    assert("1.2.840.10045.4.3.4"@.len() == 19 && "1.2.840.10045.4.3.4"@[18] == '4');
    assert("ecdsa-with-SHA512"@.len() == 17 && "ecdsa-with-SHA512"@[14] == '5');
    lemma_trim_of_unpadded("ecdsa-with-SHA512"@);
}

/// A certificate key the grader marks quantum-vulnerable is recorded and
/// advised on: a key whose label starts with `RSA` gets an RSA certificate
/// record and one starting with `ECDSA` or `EC ` an ECDSA certificate
/// record (case aside), so every RSA and EC key label the grader writes is
/// recorded, with advice naming that algorithm.
pub proof fn law_vulnerable_certificate_keys_are_recorded(
    c: CertFinding,
    key_oid: Seq<char>,
    rsa_modulus: Option<Seq<u8>>,
    parameter_oid: Option<Seq<char>>,
)
    ensures
        "RSA"@.is_prefix_of(to_upper(c.key_algorithm@)) ==> key_vulns(c).len() == 1
            && key_vulns(c)[0].id == "RSA_CERTIFICATE"@,
        !"RSA"@.is_prefix_of(to_upper(c.key_algorithm@)) && ("ECDSA"@.is_prefix_of(
            to_upper(c.key_algorithm@),
        ) || "EC "@.is_prefix_of(to_upper(c.key_algorithm@))) ==> key_vulns(c).len() == 1
            && key_vulns(c)[0].id == "ECDSA_CERTIFICATE"@,
        c.key_algorithm@ == key_description(key_oid, rsa_modulus, parameter_oid).0 && key_oid
            == RSA_KEY_OID@ ==> key_description(key_oid, rsa_modulus, parameter_oid).1
            && key_vulns(c).len() == 1 && key_vulns(c)[0].id == "RSA_CERTIFICATE"@ && (rec_table(
            key_vulns(c)[0].id,
        ) matches Some(r) && has_infix(r.action, "RSA"@)),
        c.key_algorithm@ == key_description(key_oid, rsa_modulus, parameter_oid).0 && key_oid
            == EC_KEY_OID@ ==> key_description(key_oid, rsa_modulus, parameter_oid).1
            && key_vulns(c).len() == 1 && key_vulns(c)[0].id == "ECDSA_CERTIFICATE"@ && (rec_table(
            key_vulns(c)[0].id,
        ) matches Some(r) && has_infix(r.action, "ECDSA"@)),
{
    let label = c.key_algorithm@;
    reveal_strlit("RSA");
    reveal_strlit("RSA ");
    reveal_strlit("EC ");
    reveal_strlit("ECDSA");
    reveal_strlit("1.2.840.113549.1.1.1");
    reveal_strlit("1.2.840.10045.2.1");
    assert(RSA_KEY_OID@.len() == 20 && EC_KEY_OID@.len() == 17);
    law_advice_names_the_algorithm("RSA_CERTIFICATE"@);
    law_advice_names_the_algorithm("ECDSA_CERTIFICATE"@);
    if label == key_description(key_oid, rsa_modulus, parameter_oid).0 && label.len() >= 3 {
        lemma_to_upper_run(label, 0, 3);
        if key_oid == RSA_KEY_OID@ {
            assert(label.subrange(0, 3) =~= "RSA"@);
            assert(to_upper("RSA"@) =~= "RSA"@);
            assert(to_upper(label).subrange(0, 3) =~= "RSA"@);
        } else if key_oid == EC_KEY_OID@ {
            assert(label.subrange(0, 3) =~= "EC "@);
            assert(to_upper("EC "@) =~= "EC "@);
            assert(to_upper(label).subrange(0, 3) =~= "EC "@);
            assert(to_upper(label)[0] == 'E');
            assert(!"RSA"@.is_prefix_of(to_upper(label)));
        }
    }
}

} // verus!
