//! Classification of observed algorithms, scoring, and remediation advice.

pub mod algorithms;
pub mod recommendations;
pub mod scoring;

use vstd::prelude::*;

use crate::classifier::algorithms::{
    cert_vulns, cipher_vulns, expected_vulnerabilities, expired_vulns, hsts_vulns, http_vulns,
    key_exchange_vulns, key_vulns, leak_vulns, self_signed_vulns, signature_vulns, tls_vulns,
    version_vulns,
};
use crate::classifier::recommendations::rec_table;
use crate::classifier::scoring::weight;
use crate::models::finding::{CertFinding, HttpFinding, TlsFinding, VulnerabilityView};
use crate::text::trim;

verus! {

/// The part of the vulnerability list a record id belongs to, in list
/// order: protocol version, key exchange, cipher suite, expiry, self-signing,
/// certificate key, signature, HSTS, `Server` header; -1 for any other id.
spec fn slot(id: Seq<char>) -> int {
    if id == "TLS_LEGACY_VERSION"@ || id == "TLS_VERSION_VULNERABLE"@ {
        0
    } else if id == "RSA_KEY_EXCHANGE"@ || id == "ECDHE_KEY_EXCHANGE"@ || id
        == "DH_KEY_EXCHANGE"@ {
        1
    } else if id == "NULL_CIPHER"@ || id == "EXPORT_CIPHER"@ || id == "RC4_CIPHER"@ || id
        == "TRIPLE_DES_CIPHER"@ || id == "CBC_CIPHER"@ || id == "MD5_CIPHER"@ || id
        == "SHA1_CIPHER"@ || id == "VULNERABLE_CIPHER"@ {
        2
    } else if id == "CERT_EXPIRED"@ {
        3
    } else if id == "CERT_SELF_SIGNED"@ {
        4
    } else if id == "RSA_CERTIFICATE"@ || id == "ECDSA_CERTIFICATE"@ {
        5
    } else if id == "SHA1_IN_CHAIN"@ || id == "ECDSA_SIGNATURE"@ || id == "RSA_SIGNATURE"@ {
        6
    } else if id == "NO_HSTS"@ {
        7
    } else if id == "SERVER_HEADER_LEAK"@ {
        8
    } else {
        -1
    }
}

/// An id with advice and a penalty, in part `k` of the list.
spec fn settled(id: Seq<char>, k: int) -> bool {
    &&& slot(id) == k
    &&& weight(id) > 0
    &&& rec_table(id) is Some
}

/// At most one record, and it belongs to part `k`.
spec fn placed(s: Seq<VulnerabilityView>, k: int) -> bool {
    &&& s.len() <= 1
    &&& forall|i: int| 0 <= i < s.len() ==> settled(#[trigger] s[i].id, k)
}

/// The records so far come from parts below `k`, one at most from each,
/// in increasing part order.
spec fn ordered_below(s: Seq<VulnerabilityView>, k: int) -> bool {
    &&& s.len() <= k
    &&& forall|i: int|
        0 <= i < s.len() ==> 0 <= slot(#[trigger] s[i].id) < k && weight(s[i].id) > 0 && rec_table(
            s[i].id,
        ) is Some
    &&& forall|i: int, j: int|
        0 <= i < j < s.len() ==> slot(#[trigger] s[i].id) < slot(#[trigger] s[j].id)
}

/// The length and leading characters of each record id, which tell the ids
/// apart.
pub(crate) proof fn lemma_id_shapes()
    ensures
        "TLS_LEGACY_VERSION"@.len() == 18,
        "TLS_LEGACY_VERSION"@[0] == 'T',
        "TLS_VERSION_VULNERABLE"@.len() == 22,
        "TLS_VERSION_VULNERABLE"@[0] == 'T',
        "RSA_KEY_EXCHANGE"@.len() == 16,
        "RSA_KEY_EXCHANGE"@[0] == 'R',
        "ECDHE_KEY_EXCHANGE"@.len() == 18,
        "ECDHE_KEY_EXCHANGE"@[0] == 'E',
        "DH_KEY_EXCHANGE"@.len() == 15,
        "DH_KEY_EXCHANGE"@[0] == 'D',
        "VULNERABLE_KEY_EXCHANGE"@.len() == 23,
        "VULNERABLE_KEY_EXCHANGE"@[0] == 'V',
        "NULL_CIPHER"@.len() == 11,
        "NULL_CIPHER"@[0] == 'N',
        "EXPORT_CIPHER"@.len() == 13,
        "EXPORT_CIPHER"@[0] == 'E',
        "RC4_CIPHER"@.len() == 10,
        "RC4_CIPHER"@[0] == 'R',
        "TRIPLE_DES_CIPHER"@.len() == 17,
        "TRIPLE_DES_CIPHER"@[0] == 'T',
        "CBC_CIPHER"@.len() == 10,
        "CBC_CIPHER"@[0] == 'C',
        "MD5_CIPHER"@.len() == 10,
        "MD5_CIPHER"@[0] == 'M',
        "SHA1_CIPHER"@.len() == 11,
        "SHA1_CIPHER"@[0] == 'S',
        "VULNERABLE_CIPHER"@.len() == 17,
        "VULNERABLE_CIPHER"@[0] == 'V',
        "CERT_EXPIRED"@.len() == 12,
        "CERT_EXPIRED"@[0] == 'C',
        "CERT_SELF_SIGNED"@.len() == 16,
        "CERT_SELF_SIGNED"@[0] == 'C',
        "RSA_CERTIFICATE"@.len() == 15,
        "RSA_CERTIFICATE"@[0] == 'R',
        "ECDSA_CERTIFICATE"@.len() == 17,
        "ECDSA_CERTIFICATE"@[0] == 'E',
        "SHA1_IN_CHAIN"@.len() == 13,
        "SHA1_IN_CHAIN"@[0] == 'S',
        "ECDSA_SIGNATURE"@.len() == 15,
        "ECDSA_SIGNATURE"@[0] == 'E',
        "RSA_SIGNATURE"@.len() == 13,
        "RSA_SIGNATURE"@[0] == 'R',
        "NO_HSTS"@.len() == 7,
        "NO_HSTS"@[0] == 'N',
        "SERVER_HEADER_LEAK"@.len() == 18,
        "SERVER_HEADER_LEAK"@[0] == 'S',
        "TLS_SCAN_FAILED"@.len() == 15,
        "TLS_SCAN_FAILED"@[0] == 'T',
        "CERT_SCAN_FAILED"@.len() == 16,
        "CERT_SCAN_FAILED"@[0] == 'C',
        "CERT_SELF_SIGNED"@[6] == 'E',
        "CERT_SCAN_FAILED"@[6] == 'C',
{
    reveal_strlit("TLS_LEGACY_VERSION");
    reveal_strlit("TLS_VERSION_VULNERABLE");
    reveal_strlit("RSA_KEY_EXCHANGE");
    reveal_strlit("ECDHE_KEY_EXCHANGE");
    reveal_strlit("DH_KEY_EXCHANGE");
    reveal_strlit("VULNERABLE_KEY_EXCHANGE");
    reveal_strlit("NULL_CIPHER");
    reveal_strlit("EXPORT_CIPHER");
    reveal_strlit("RC4_CIPHER");
    reveal_strlit("TRIPLE_DES_CIPHER");
    reveal_strlit("CBC_CIPHER");
    reveal_strlit("MD5_CIPHER");
    reveal_strlit("SHA1_CIPHER");
    reveal_strlit("VULNERABLE_CIPHER");
    reveal_strlit("CERT_EXPIRED");
    reveal_strlit("CERT_SELF_SIGNED");
    reveal_strlit("RSA_CERTIFICATE");
    reveal_strlit("ECDSA_CERTIFICATE");
    reveal_strlit("SHA1_IN_CHAIN");
    reveal_strlit("ECDSA_SIGNATURE");
    reveal_strlit("RSA_SIGNATURE");
    reveal_strlit("NO_HSTS");
    reveal_strlit("SERVER_HEADER_LEAK");
    reveal_strlit("TLS_SCAN_FAILED");
    reveal_strlit("CERT_SCAN_FAILED");
}

#[verifier::rlimit(50)]
proof fn lemma_tls_ids()
    ensures
        settled("TLS_LEGACY_VERSION"@, 0),
        settled("TLS_VERSION_VULNERABLE"@, 0),
        settled("RSA_KEY_EXCHANGE"@, 1),
        settled("ECDHE_KEY_EXCHANGE"@, 1),
        settled("DH_KEY_EXCHANGE"@, 1),
{
    lemma_id_shapes();
}

#[verifier::rlimit(50)]
proof fn lemma_cipher_ids()
    ensures
        settled("NULL_CIPHER"@, 2),
        settled("EXPORT_CIPHER"@, 2),
        settled("RC4_CIPHER"@, 2),
        settled("TRIPLE_DES_CIPHER"@, 2),
        settled("CBC_CIPHER"@, 2),
        settled("MD5_CIPHER"@, 2),
        settled("SHA1_CIPHER"@, 2),
        settled("VULNERABLE_CIPHER"@, 2),
{
    lemma_id_shapes();
}

#[verifier::rlimit(50)]
proof fn lemma_cert_and_http_ids()
    ensures
        settled("CERT_EXPIRED"@, 3),
        settled("CERT_SELF_SIGNED"@, 4),
        settled("RSA_CERTIFICATE"@, 5),
        settled("ECDSA_CERTIFICATE"@, 5),
        settled("SHA1_IN_CHAIN"@, 6),
        settled("ECDSA_SIGNATURE"@, 6),
        settled("RSA_SIGNATURE"@, 6),
        settled("NO_HSTS"@, 7),
        settled("SERVER_HEADER_LEAK"@, 8),
{
    lemma_id_shapes();
}

proof fn lemma_tls_parts_placed(t: TlsFinding)
    requires
        trim(t.key_exchange@) == t.key_exchange@,
    ensures
        placed(version_vulns(t), 0),
        placed(key_exchange_vulns(t), 1),
        placed(cipher_vulns(t), 2),
{
    lemma_tls_ids();
    lemma_cipher_ids();
}

proof fn lemma_cert_parts_placed(c: CertFinding)
    ensures
        placed(expired_vulns(c), 3),
        placed(self_signed_vulns(c), 4),
        placed(key_vulns(c), 5),
        placed(signature_vulns(c), 6),
{
    lemma_cert_and_http_ids();
}

proof fn lemma_http_parts_placed(h: HttpFinding)
    ensures
        placed(hsts_vulns(h), 7),
        placed(leak_vulns(h), 8),
{
    lemma_cert_and_http_ids();
}

proof fn lemma_append_placed(acc: Seq<VulnerabilityView>, s: Seq<VulnerabilityView>, k: int)
    requires
        ordered_below(acc, k),
        placed(s, k),
        k >= 0,
    ensures
        ordered_below(acc + s, k + 1),
{
    let r = acc + s;
    assert forall|i: int| 0 <= i < r.len() implies 0 <= slot(#[trigger] r[i].id) < k + 1
        && weight(r[i].id) > 0 && rec_table(r[i].id) is Some by {
        if i < acc.len() {
            assert(r[i] == acc[i]);
        } else {
            assert(r[i] == s[i - acc.len()]);
        }
    }
    assert forall|i: int, j: int| 0 <= i < j < r.len() implies slot(#[trigger] r[i].id) < slot(
        #[trigger] r[j].id,
    ) by {
        if j < acc.len() {
            assert(r[i] == acc[i]);
            assert(r[j] == acc[j]);
        } else if i < acc.len() {
            assert(r[i] == acc[i]);
            assert(r[j] == s[j - acc.len()]);
        } else {
            assert(s.len() <= 1);
        }
    }
}

proof fn lemma_chain(
    v: Seq<VulnerabilityView>,
    k: Seq<VulnerabilityView>,
    ci: Seq<VulnerabilityView>,
    e: Seq<VulnerabilityView>,
    ss: Seq<VulnerabilityView>,
    ky: Seq<VulnerabilityView>,
    sg: Seq<VulnerabilityView>,
    hs: Seq<VulnerabilityView>,
    lk: Seq<VulnerabilityView>,
)
    requires
        placed(v, 0),
        placed(k, 1),
        placed(ci, 2),
        placed(e, 3),
        placed(ss, 4),
        placed(ky, 5),
        placed(sg, 6),
        placed(hs, 7),
        placed(lk, 8),
    ensures
        ordered_below(v + k + ci + e + ss + ky + sg + hs + lk, 9),
{
    let none: Seq<VulnerabilityView> = seq![];
    assert(none + v =~= v);
    lemma_append_placed(none, v, 0);
    lemma_append_placed(v, k, 1);
    lemma_append_placed(v + k, ci, 2);
    lemma_append_placed(v + k + ci, e, 3);
    lemma_append_placed(v + k + ci + e, ss, 4);
    lemma_append_placed(v + k + ci + e + ss, ky, 5);
    lemma_append_placed(v + k + ci + e + ss + ky, sg, 6);
    lemma_append_placed(v + k + ci + e + ss + ky + sg, hs, 7);
    lemma_append_placed(v + k + ci + e + ss + ky + sg + hs, lk, 8);
}

/// Records in increasing part order carry distinct ids, each with advice
/// and a penalty.
spec fn settled_list(s: Seq<VulnerabilityView>) -> bool {
    &&& s.len() <= 9
    &&& forall|i: int, j: int|
        0 <= i < s.len() && 0 <= j < s.len() && i != j ==> (#[trigger] s[i]).id != (
        #[trigger] s[j]).id
    &&& forall|i: int|
        0 <= i < s.len() ==> rec_table((#[trigger] s[i]).id) is Some && weight(s[i].id) > 0
}

proof fn lemma_ordered_is_settled(s: Seq<VulnerabilityView>)
    requires
        ordered_below(s, 9),
    ensures
        settled_list(s),
{
    assert forall|i: int, j: int|
        0 <= i < s.len() && 0 <= j < s.len() && i != j implies (#[trigger] s[i]).id != (
    #[trigger] s[j]).id by {
        if i < j {
            assert(slot(s[i].id) < slot(s[j].id));
        } else {
            assert(slot(s[j].id) < slot(s[i].id));
        }
    }
}

/// The vulnerability list of a scan is its TLS records, then its
/// certificate records, then its HTTP records; no id occurs twice in it (so
/// it holds at most nine records); and every id in it has advice and a
/// penalty. This holds whenever the TLS probe reports the key exchange
/// without surrounding whitespace, as it does.
pub proof fn law_vulnerability_list_is_settled(
    tls: Option<TlsFinding>,
    cert: Option<CertFinding>,
    http: Option<HttpFinding>,
)
    requires
        tls matches Some(t) ==> trim(t.key_exchange@) == t.key_exchange@,
    ensures
        expected_vulnerabilities(tls, cert, http) == expected_vulnerabilities(tls, None, None)
            + expected_vulnerabilities(None, cert, None) + expected_vulnerabilities(
            None,
            None,
            http,
        ),
        expected_vulnerabilities(tls, cert, http).len() <= 9,
        forall|i: int, j: int|
            0 <= i < expected_vulnerabilities(tls, cert, http).len() && 0 <= j
                < expected_vulnerabilities(tls, cert, http).len() && i != j
                ==> (#[trigger] expected_vulnerabilities(tls, cert, http)[i]).id != (
            #[trigger] expected_vulnerabilities(tls, cert, http)[j]).id,
        forall|i: int|
            0 <= i < expected_vulnerabilities(tls, cert, http).len() ==> rec_table(
                (#[trigger] expected_vulnerabilities(tls, cert, http)[i]).id,
            ) is Some && weight(expected_vulnerabilities(tls, cert, http)[i].id) > 0,
{
    let none: Seq<VulnerabilityView> = seq![];
    let (v, k, ci) = match tls {
        Some(t) => {
            lemma_tls_parts_placed(t);
            (version_vulns(t), key_exchange_vulns(t), cipher_vulns(t))
        },
        None => (none, none, none),
    };
    let (e, ss, ky, sg) = match cert {
        Some(c) => {
            lemma_cert_parts_placed(c);
            (expired_vulns(c), self_signed_vulns(c), key_vulns(c), signature_vulns(c))
        },
        None => (none, none, none, none),
    };
    let (hs, lk) = match http {
        Some(h) => {
            lemma_http_parts_placed(h);
            (hsts_vulns(h), leak_vulns(h))
        },
        None => (none, none),
    };
    lemma_chain(v, k, ci, e, ss, ky, sg, hs, lk);
    let all = expected_vulnerabilities(tls, cert, http);
    assert(expected_vulnerabilities(tls, None, None) =~= v + k + ci);
    assert(expected_vulnerabilities(None, cert, None) =~= e + ss + ky + sg);
    assert(expected_vulnerabilities(None, None, http) =~= hs + lk);
    assert(all =~= v + k + ci + e + ss + ky + sg + hs + lk);
    lemma_ordered_is_settled(all);
}

} // verus!
