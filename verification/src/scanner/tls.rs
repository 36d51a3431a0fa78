//! The TLS finding of a handshake: protocol version, cipher suite and key
//! exchange names, each classified.

use vstd::prelude::*;

use crate::classifier::algorithms::{
    cipher_verdict, key_exchange_verdict, lemma_version_names, tls_version_vulnerable,
    AlgorithmClassifier,
};
use crate::models::finding::TlsFinding;
use crate::text::{
    chars_of, contains_str, has_infix, lemma_trim_of_unpadded, owned, push_chars, slice_chars,
    starts_with_str, string_of, to_upper, trim, upper_chars,
};

verus! {

/// Port of a TLS scan when none is given.
pub const DEFAULT_PORT: u16 = 443;
/// Seconds allowed for the TCP connect and for the handshake.
pub const TIMEOUT_SECS: u64 = 10;

/// Why a TLS probe failed.
#[derive(Debug)]
pub enum TlsScanError {
    Timeout { host: String, port: u16, secs: u64 },
    InvalidHostname(String),
    TcpConnect { host: String, port: u16, source: std::io::Error },
    Handshake { host: String, port: u16, source: std::io::Error },
}

#[verifier::external_type_specification]
#[verifier::external_body]
pub struct ExIoError(std::io::Error);

/// A finished handshake: the finding, and the DER bytes of the server's
/// leaf certificate when it sent one.
#[derive(Clone, Debug)]
pub struct TlsScanResult {
    pub finding: TlsFinding,
    pub peer_cert_der: Option<Vec<u8>>,
}

/// A negotiated protocol version. `Other` carries the name under which the
/// TLS library reports any other version.
#[derive(Clone, Debug)]
#[allow(non_camel_case_types)]
pub enum ProtocolVersion {
    SSLv2,
    SSLv3,
    TLSv1_0,
    TLSv1_1,
    TLSv1_2,
    TLSv1_3,
    Other(String),
}

/// A negotiated key-exchange group. `Other` carries the name under which the
/// TLS library reports any other group.
#[derive(Clone, Debug)]
#[allow(non_camel_case_types)]
pub enum NamedGroup {
    X25519,
    secp256r1,
    secp384r1,
    secp521r1,
    FFDHE2048,
    FFDHE3072,
    FFDHE4096,
    FFDHE6144,
    FFDHE8192,
    X25519MLKEM768,
    secp256r1MLKEM768,
    Other(String),
}

/// Display name of a negotiated protocol version (`unknown` when none).
pub open spec fn protocol_version_name(v: Option<ProtocolVersion>) -> Seq<char> {
    match v {
        Some(ProtocolVersion::TLSv1_3) => "TLSv1.3"@,
        Some(ProtocolVersion::TLSv1_2) => "TLSv1.2"@,
        Some(ProtocolVersion::TLSv1_1) => "TLSv1.1"@,
        Some(ProtocolVersion::TLSv1_0) => "TLSv1.0"@,
        Some(ProtocolVersion::SSLv3) => "SSLv3"@,
        Some(ProtocolVersion::SSLv2) => "SSLv2"@,
        Some(ProtocolVersion::Other(name)) => name@,
        None => "unknown"@,
    }
}

/// Key-exchange name of a group: the NIST curves are ECDHE, the finite-field
/// groups DHE, the rest go by their own names.
pub open spec fn group_name(g: NamedGroup) -> Seq<char> {
    match g {
        NamedGroup::X25519 => "X25519"@,
        NamedGroup::secp256r1 => "ECDHE"@,
        NamedGroup::secp384r1 => "ECDHE"@,
        NamedGroup::secp521r1 => "ECDHE"@,
        NamedGroup::FFDHE2048 => "DHE"@,
        NamedGroup::FFDHE3072 => "DHE"@,
        NamedGroup::FFDHE4096 => "DHE"@,
        NamedGroup::FFDHE6144 => "DHE"@,
        NamedGroup::FFDHE8192 => "DHE"@,
        NamedGroup::X25519MLKEM768 => "X25519MLKEM768"@,
        NamedGroup::secp256r1MLKEM768 => "secp256r1MLKEM768"@,
        NamedGroup::Other(name) => name@,
    }
}

/// The IANA form of a cipher-suite name: the TLS library's `TLS13_` prefix
/// becomes `TLS_`.
pub open spec fn iana_cipher_name(raw: Seq<char>) -> Seq<char> {
    if "TLS13_"@.is_prefix_of(raw) {
        "TLS_"@ + raw.skip(6)
    } else {
        raw
    }
}

/// Key exchange implied by a TLS 1.2 cipher-suite name, when the handshake
/// reported no group.
pub open spec fn kx_from_cipher(cipher: Seq<char>) -> Seq<char> {
    let u = to_upper(cipher);
    if has_infix(u, "ECDHE"@) {
        "ECDHE"@
    } else if has_infix(u, "ECDH_"@) {
        "ECDH"@
    } else if has_infix(u, "DHE"@) {
        "DHE"@
    } else if has_infix(u, "_DH_"@) {
        "DH"@
    } else if "TLS_RSA"@.is_prefix_of(u) {
        "RSA"@
    } else {
        "unknown"@
    }
}

/// Display name of a negotiated protocol version.
pub fn format_protocol_version(v: Option<ProtocolVersion>) -> (res: String)
    ensures
        res@ == protocol_version_name(v),
{
    match v {
        Some(ProtocolVersion::TLSv1_3) => owned("TLSv1.3"),
        Some(ProtocolVersion::TLSv1_2) => owned("TLSv1.2"),
        Some(ProtocolVersion::TLSv1_1) => owned("TLSv1.1"),
        Some(ProtocolVersion::TLSv1_0) => owned("TLSv1.0"),
        Some(ProtocolVersion::SSLv3) => owned("SSLv3"),
        Some(ProtocolVersion::SSLv2) => owned("SSLv2"),
        Some(ProtocolVersion::Other(name)) => name,
        None => owned("unknown"),
    }
}

/// Key-exchange name of a negotiated group.
pub fn kx_group_name(group: NamedGroup) -> (res: String)
    ensures
        res@ == group_name(group),
{
    match group {
        NamedGroup::X25519 => owned("X25519"),
        NamedGroup::secp256r1 | NamedGroup::secp384r1 | NamedGroup::secp521r1 => owned("ECDHE"),
        NamedGroup::FFDHE2048 | NamedGroup::FFDHE3072 | NamedGroup::FFDHE4096
        | NamedGroup::FFDHE6144 | NamedGroup::FFDHE8192 => owned("DHE"),
        NamedGroup::X25519MLKEM768 => owned("X25519MLKEM768"),
        NamedGroup::secp256r1MLKEM768 => owned("secp256r1MLKEM768"),
        NamedGroup::Other(name) => name,
    }
}

/// The IANA form of a cipher-suite name.
pub fn cipher_suite_name(raw: &str) -> (res: String)
    ensures
        res@ == iana_cipher_name(raw@),
{
    let v = chars_of(raw);
    if starts_with_str(v.as_slice(), "TLS13_") {
        proof {
            reveal_strlit("TLS13_");
        }
        let mut s = owned("TLS_");
        let rest = slice_chars(v.as_slice(), 6, v.len());
        push_chars(&mut s, rest.as_slice());
        assert(rest@ =~= raw@.skip(6));
        s
    } else {
        string_of(v.as_slice())
    }
}

/// Key exchange implied by a cipher-suite name.
pub fn derive_kx_from_cipher(cipher: &str) -> (res: String)
    ensures
        res@ == kx_from_cipher(cipher@),
{
    let v = chars_of(cipher);
    let u = upper_chars(v.as_slice());
    let s = u.as_slice();
    if contains_str(s, "ECDHE") {
        owned("ECDHE")
    } else if contains_str(s, "ECDH_") {
        owned("ECDH")
    } else if contains_str(s, "DHE") {
        owned("DHE")
    } else if contains_str(s, "_DH_") {
        owned("DH")
    } else if starts_with_str(s, "TLS_RSA") {
        owned("RSA")
    } else {
        owned("unknown")
    }
}

/// The finding for a handshake whose version, cipher-suite name (as the
/// TLS library spells it) and key-exchange group are given.
pub open spec fn handshake_finding(
    version: Option<ProtocolVersion>,
    cipher: Option<Seq<char>>,
    group: Option<NamedGroup>,
) -> (Seq<char>, bool, Seq<char>, bool, Seq<char>, bool) {
    let v = protocol_version_name(version);
    let cs = match cipher {
        Some(raw) => iana_cipher_name(raw),
        None => "unknown"@,
    };
    let kx = match group {
        Some(g) => group_name(g),
        None => kx_from_cipher(cs),
    };
    (
        v,
        tls_version_vulnerable(v),
        cs,
        cipher_verdict(cs).0,
        kx,
        key_exchange_verdict(kx).0,
    )
}

/// Opens TLS connections and reports what they negotiated.
pub struct TlsScanner;

impl TlsScanner {
    /// The result of a handshake: names classified, compression reported
    /// as `NULL` (TLS 1.3 has none), and the leaf certificate passed on.
    pub fn inspect_handshake(
        version: Option<ProtocolVersion>,
        cipher_suite: Option<String>,
        group: Option<NamedGroup>,
        peer_cert_der: Option<Vec<u8>>,
    ) -> (res: TlsScanResult)
        ensures
            ({
                let (v, vv, cs, csv, kx, kxv) = handshake_finding(
                    version,
                    match cipher_suite {
                        Some(c) => Some(c@),
                        None => None,
                    },
                    group,
                );
                let f = res.finding;
                &&& f.protocol_version@ == v
                &&& f.protocol_vulnerable == vv
                &&& f.cipher_suite@ == cs
                &&& f.cipher_vulnerable == csv
                &&& f.key_exchange@ == kx
                &&& f.key_exchange_vulnerable == kxv
                &&& f.compression@ == "NULL"@
                &&& !f.compression_vulnerable
            }),
            res.peer_cert_der == peer_cert_der,
    {
        let protocol_version = format_protocol_version(version);
        let protocol_vulnerable = AlgorithmClassifier::is_tls_version_vulnerable(
            protocol_version.as_str(),
        );
        let cipher = match cipher_suite {
            Some(raw) => cipher_suite_name(raw.as_str()),
            None => owned("unknown"),
        };
        let (cipher_vulnerable, _) = AlgorithmClassifier::is_cipher_suite_vulnerable(
            cipher.as_str(),
        );
        let key_exchange = match group {
            Some(g) => kx_group_name(g),
            None => derive_kx_from_cipher(cipher.as_str()),
        };
        let (key_exchange_vulnerable, _) = AlgorithmClassifier::is_key_exchange_vulnerable(
            key_exchange.as_str(),
        );
        let finding = TlsFinding {
            protocol_version,
            protocol_vulnerable,
            cipher_suite: cipher,
            cipher_vulnerable,
            key_exchange,
            key_exchange_vulnerable,
            compression: owned("NULL"),
            compression_vulnerable: false,
        };
        TlsScanResult { finding, peer_cert_der }
    }
}

/// The key-exchange names a NIST curve or a finite-field group is reported
/// under are graded quantum-vulnerable.
proof fn lemma_classical_group_names()
    ensures
        key_exchange_verdict("ECDHE"@).0,
        key_exchange_verdict("DHE"@).0,
{
    reveal_strlit("RSA");
    reveal_strlit("DH");
    reveal_strlit("DHE");
    reveal_strlit("ECDH");
    reveal_strlit("ECDHE");
    assert("RSA"@.len() == 3 && "DH"@.len() == 2 && "DHE"@.len() == 3 && "ECDH"@.len() == 4
        && "ECDHE"@.len() == 5);
    assert("RSA"@[0] == 'R' && "DHE"@[0] == 'D');
    lemma_trim_of_unpadded("ECDHE"@);
    lemma_trim_of_unpadded("DHE"@);
    assert(to_upper("ECDHE"@) =~= "ECDHE"@);
    assert(to_upper("DHE"@) =~= "DHE"@);
}

/// A handshake's grading: over the NIST curves (secp256r1, secp384r1,
/// secp521r1) the key exchange is ECDHE and over the finite-field groups
/// (FFDHE2048 to FFDHE8192) it is DHE, and either is flagged
/// quantum-vulnerable, whatever the cipher suite; every protocol version
/// before TLS 1.3 is flagged and TLS 1.3 is not.
pub proof fn law_classical_handshakes_are_flagged(
    version: Option<ProtocolVersion>,
    cipher: Option<Seq<char>>,
    group: Option<NamedGroup>,
)
    ensures
        group matches Some(g) && (g is secp256r1 || g is secp384r1 || g is secp521r1) ==> {
            &&& handshake_finding(version, cipher, group).4 == "ECDHE"@
            &&& handshake_finding(version, cipher, group).5
        },
        group matches Some(g) && (g is FFDHE2048 || g is FFDHE3072 || g is FFDHE4096
            || g is FFDHE6144 || g is FFDHE8192) ==> {
            &&& handshake_finding(version, cipher, group).4 == "DHE"@
            &&& handshake_finding(version, cipher, group).5
        },
        version matches Some(v) && (v is SSLv2 || v is SSLv3 || v is TLSv1_0 || v is TLSv1_1
            || v is TLSv1_2) ==> handshake_finding(version, cipher, group).1,
        version matches Some(v) && v is TLSv1_3 ==> !handshake_finding(version, cipher, group).1,
{
    lemma_classical_group_names();
    let name = protocol_version_name(version);
    if let Some(v) = version {
        if !(v is Other) {
            reveal_strlit("TLSv1.3");
            reveal_strlit("TLSv1.2");
            reveal_strlit("TLSv1.1");
            reveal_strlit("TLSv1.0");
            reveal_strlit("SSLv3");
            reveal_strlit("SSLv2");
            reveal_strlit("TLSV1.3");
            reveal_strlit("TLSV1.2");
            reveal_strlit("TLSV1.1");
            reveal_strlit("TLSV1.0");
            reveal_strlit("SSLV3");
            reveal_strlit("SSLV2");
            assert(name.len() > 0);
            lemma_trim_of_unpadded(name);
            lemma_version_names(name);
            match v {
                ProtocolVersion::TLSv1_3 => assert(to_upper(name) =~= "TLSV1.3"@),
                ProtocolVersion::TLSv1_2 => assert(to_upper(name) =~= "TLSV1.2"@),
                ProtocolVersion::TLSv1_1 => assert(to_upper(name) =~= "TLSV1.1"@),
                ProtocolVersion::TLSv1_0 => assert(to_upper(name) =~= "TLSV1.0"@),
                ProtocolVersion::SSLv3 => assert(to_upper(name) =~= "SSLV3"@),
                ProtocolVersion::SSLv2 => assert(to_upper(name) =~= "SSLV2"@),
                ProtocolVersion::Other(_) => {},
            }
        }
    }
}

} // verus!
