//! Additive risk scoring: each vulnerability id carries penalty points,
//! the total is capped at 100, and the capped score picks the level.

use vstd::prelude::*;

use crate::classifier::algorithms::{
    expected_vulnerabilities, key_exchange_id, key_exchange_verdict, key_exchange_vulns,
    tls_vulns, version_vulns,
};
use crate::models::finding::{
    vuln_views, CertFinding, HttpFinding, TlsFinding, Vulnerability, VulnerabilityView,
};
use crate::models::risk::{level_for_score, level_label, RiskLevel, RiskScore};
use crate::text::{chars_of, decimal, eq_str, owned, push_decimal, push_str, to_upper, trim};

verus! {

/// Penalty points of a vulnerability id; ids not listed weigh nothing.
pub open spec fn weight(id: Seq<char>) -> nat {
    if id == "TLS_LEGACY_VERSION"@ {
        20
    } else if id == "TLS_VERSION_VULNERABLE"@ {
        10
    } else if id == "RSA_KEY_EXCHANGE"@ {
        35
    } else if id == "ECDHE_KEY_EXCHANGE"@ {
        30
    } else if id == "DH_KEY_EXCHANGE"@ {
        25
    } else if id == "NULL_CIPHER"@ {
        40
    } else if id == "EXPORT_CIPHER"@ {
        30
    } else if id == "RC4_CIPHER"@ {
        20
    } else if id == "TRIPLE_DES_CIPHER"@ {
        15
    } else if id == "CBC_CIPHER"@ {
        10
    } else if id == "MD5_CIPHER"@ {
        15
    } else if id == "SHA1_CIPHER"@ {
        10
    } else if id == "VULNERABLE_CIPHER"@ {
        10
    } else if id == "RSA_CERTIFICATE"@ {
        25
    } else if id == "ECDSA_CERTIFICATE"@ {
        20
    } else if id == "RSA_SIGNATURE"@ {
        25
    } else if id == "ECDSA_SIGNATURE"@ {
        20
    } else if id == "SHA1_IN_CHAIN"@ {
        15
    } else if id == "CERT_EXPIRED"@ {
        20
    } else if id == "CERT_SELF_SIGNED"@ {
        10
    } else if id == "NO_HSTS"@ {
        5
    } else if id == "SERVER_HEADER_LEAK"@ {
        5
    } else if id == "TLS_SCAN_FAILED"@ {
        40
    } else if id == "CERT_SCAN_FAILED"@ {
        30
    } else {
        0
    }
}

/// Sum of the penalty points of a list of vulnerabilities.
pub open spec fn total_weight(vs: Seq<VulnerabilityView>) -> nat
    decreases vs.len(),
{
    if vs.len() == 0 {
        0
    } else {
        total_weight(vs.drop_last()) + weight(vs.last().id)
    }
}

/// The 0–100 score: the total penalty, capped at 100.
pub open spec fn score_value(vs: Seq<VulnerabilityView>) -> nat {
    if total_weight(vs) > 100 {
        100
    } else {
        total_weight(vs)
    }
}

/// Ids of the key exchanges that expose recorded traffic to later decryption.
pub open spec fn is_harvest_id(id: Seq<char>) -> bool {
    id == "RSA_KEY_EXCHANGE"@ || id == "ECDHE_KEY_EXCHANGE"@ || id == "DH_KEY_EXCHANGE"@
}

/// Whether some vulnerability is a quantum-vulnerable key exchange.
pub open spec fn harvest_present(vs: Seq<VulnerabilityView>) -> bool {
    exists|i: int| 0 <= i < vs.len() && is_harvest_id(#[trigger] vs[i].id)
}

/// The short summary attached by [`RiskScorer::calculate`].
pub open spec fn compose_summary_text(
    value: nat,
    level: RiskLevel,
    harvest: bool,
    count: nat,
) -> Seq<char> {
    "Risk score "@ + decimal(value) + "/100 ("@ + level_label(level) + "). "@ + decimal(count)
        + " vulnerabilit"@ + (if count == 1 {
        "y"@
    } else {
        "ies"@
    }) + " found."@ + (if harvest {
        HARVEST_SHORT@
    } else {
        ""@
    })
}

pub const HARVEST_SHORT: &'static str = " Harvest-now-decrypt-later risk detected.";
pub const HARVEST_LONG: &'static str = " A quantum-vulnerable key exchange was detected, meaning past encrypted sessions are at risk of future decryption by quantum computers (harvest now, decrypt later).";
pub const ACTION_CRITICAL: &'static str = " Immediate migration to ML-KEM-768 hybrid key exchange and ML-DSA-65 certificate signatures is recommended.";
pub const ACTION_HIGH: &'static str = " Urgent migration to NIST post-quantum primitives (FIPS 203/204) should be scheduled.";
pub const ACTION_MEDIUM: &'static str = " Plan a post-quantum migration within the next 6 months.";
pub const ACTION_LOW: &'static str = " Monitor cryptographic posture and prepare a migration plan.";
pub const ACTION_PASS: &'static str = " The endpoint meets current post-quantum readiness guidance.";
pub const ACTION_UNKNOWN: &'static str = " The endpoint could not be assessed.";
pub const ASSESSMENT_TAIL: &'static str = " on the RonwayScanner post-quantum assessment.";

/// The advice sentence for a level.
pub open spec fn action_clause(level: RiskLevel) -> Seq<char> {
    match level {
        RiskLevel::Critical => ACTION_CRITICAL@,
        RiskLevel::High => ACTION_HIGH@,
        RiskLevel::Medium => ACTION_MEDIUM@,
        RiskLevel::Low => ACTION_LOW@,
        RiskLevel::Pass => ACTION_PASS@,
        RiskLevel::Unknown => ACTION_UNKNOWN@,
    }
}

/// The executive summary naming the target.
pub open spec fn executive_summary(
    target: Seq<char>,
    value: nat,
    level: RiskLevel,
    harvest: bool,
) -> Seq<char> {
    target + " scored "@ + decimal(value) + "/100 ("@ + level_label(level) + ")"@ + ASSESSMENT_TAIL@
        + (if harvest {
        HARVEST_LONG@
    } else {
        ""@
    }) + action_clause(level)
}

/// Turns a vulnerability list into a score.
pub struct RiskScorer;

impl RiskScorer {
    /// Sum the penalties (capped at 100), derive the level, flag harvest
    /// risk, and attach a one-line summary.
    pub fn calculate(vulnerabilities: &[Vulnerability]) -> (res: RiskScore)
        ensures
            res.value as nat == score_value(vuln_views(vulnerabilities@)),
            res.value <= 100,
            res.level == level_for_score(res.value as int),
            res.harvest_risk == harvest_present(vuln_views(vulnerabilities@)),
            res.summary@ == compose_summary_text(
                res.value as nat,
                res.level,
                res.harvest_risk,
                vulnerabilities@.len(),
            ),
    {
        let ghost views = vuln_views(vulnerabilities@);
        let mut score: u16 = 0;
        for i in 0..vulnerabilities.len()
            invariant
                views == vuln_views(vulnerabilities@),
                score as nat == (if total_weight(views.take(i as int)) > 65535 {
                    65535
                } else {
                    total_weight(views.take(i as int))
                }),
        {
            assert(views.take(i + 1).drop_last() =~= views.take(i as int));
            let w = Self::weight_for(vulnerabilities[i].id.as_str());
            score = score.saturating_add(w);
        }
        assert(views.take(vulnerabilities.len() as int) =~= views);
        let value: u8 = if score > 100 {
            100
        } else {
            score as u8
        };
        let level = RiskLevel::from_score(value);
        let harvest_risk = Self::harvest_risk_present(vulnerabilities);
        let summary = Self::compose_summary(value, &level, harvest_risk, vulnerabilities.len());
        RiskScore { value, level, summary, harvest_risk }
    }

    /// Whether some vulnerability is an RSA, ECDHE or DH key exchange.
    pub fn harvest_risk_present(vulnerabilities: &[Vulnerability]) -> (res: bool)
        ensures
            res == harvest_present(vuln_views(vulnerabilities@)),
    {
        let ghost views = vuln_views(vulnerabilities@);
        for i in 0..vulnerabilities.len()
            invariant
                views == vuln_views(vulnerabilities@),
                forall|j: int| 0 <= j < i ==> !is_harvest_id(#[trigger] views[j].id),
        {
            let id = chars_of(vulnerabilities[i].id.as_str());
            let s = id.as_slice();
            if eq_str(s, "RSA_KEY_EXCHANGE") || eq_str(s, "ECDHE_KEY_EXCHANGE") || eq_str(
                s,
                "DH_KEY_EXCHANGE",
            ) {
                assert(is_harvest_id(views[i as int].id));
                return true;
            }
        }
        false
    }

    /// The executive summary for `target`: score, level, harvest warning and
    /// the advice that goes with the level.
    pub fn generate_summary(score: &RiskScore, target: &str) -> (res: String)
        ensures
            res@ == executive_summary(target@, score.value as nat, score.level, score.harvest_risk),
    {
        let mut s = owned(target);
        push_str(&mut s, " scored ");
        push_decimal(&mut s, score.value as u64);
        push_str(&mut s, "/100 (");
        push_str(&mut s, score.level.label());
        push_str(&mut s, ")");
        push_str(&mut s, ASSESSMENT_TAIL);
        let ghost head = s@;
        if score.harvest_risk {
            push_str(&mut s, HARVEST_LONG);
        }
        assert(s@ =~= head + (if score.harvest_risk { HARVEST_LONG@ } else { ""@ })) by {
            reveal_strlit("");
        }
        let action = match score.level {
            RiskLevel::Critical => ACTION_CRITICAL,
            RiskLevel::High => ACTION_HIGH,
            RiskLevel::Medium => ACTION_MEDIUM,
            RiskLevel::Low => ACTION_LOW,
            RiskLevel::Pass => ACTION_PASS,
            RiskLevel::Unknown => ACTION_UNKNOWN,
        };
        push_str(&mut s, action);
        s
    }

    fn compose_summary(value: u8, level: &RiskLevel, harvest_risk: bool, vuln_count: usize) -> (res:
        String)
        ensures
            res@ == compose_summary_text(value as nat, *level, harvest_risk, vuln_count as nat),
    {
        let mut s = owned("Risk score ");
        push_decimal(&mut s, value as u64);
        push_str(&mut s, "/100 (");
        push_str(&mut s, level.label());
        push_str(&mut s, "). ");
        push_decimal(&mut s, vuln_count as u64);
        push_str(&mut s, " vulnerabilit");
        if vuln_count == 1 {
            push_str(&mut s, "y");
        } else {
            push_str(&mut s, "ies");
        }
        push_str(&mut s, " found.");
        let ghost head = s@;
        if harvest_risk {
            push_str(&mut s, HARVEST_SHORT);
        }
        assert(s@ =~= head + (if harvest_risk { HARVEST_SHORT@ } else { ""@ })) by {
            reveal_strlit("");
        }
        s
    }

    /// Penalty points of one vulnerability id.
    pub fn weight_for(id: &str) -> (res: u16)
        ensures
            res as nat == weight(id@),
    {
        let v = chars_of(id);
        let s = v.as_slice();
        if eq_str(s, "TLS_LEGACY_VERSION") {
            20
        } else if eq_str(s, "TLS_VERSION_VULNERABLE") {
            10
        } else if eq_str(s, "RSA_KEY_EXCHANGE") {
            35
        } else if eq_str(s, "ECDHE_KEY_EXCHANGE") {
            30
        } else if eq_str(s, "DH_KEY_EXCHANGE") {
            25
        } else if eq_str(s, "NULL_CIPHER") {
            40
        } else if eq_str(s, "EXPORT_CIPHER") {
            30
        } else if eq_str(s, "RC4_CIPHER") {
            20
        } else if eq_str(s, "TRIPLE_DES_CIPHER") {
            15
        } else if eq_str(s, "CBC_CIPHER") {
            10
        } else if eq_str(s, "MD5_CIPHER") {
            15
        } else if eq_str(s, "SHA1_CIPHER") {
            10
        } else if eq_str(s, "VULNERABLE_CIPHER") {
            10
        } else if eq_str(s, "RSA_CERTIFICATE") {
            25
        } else if eq_str(s, "ECDSA_CERTIFICATE") {
            20
        } else if eq_str(s, "RSA_SIGNATURE") {
            25
        } else if eq_str(s, "ECDSA_SIGNATURE") {
            20
        } else if eq_str(s, "SHA1_IN_CHAIN") {
            15
        } else if eq_str(s, "CERT_EXPIRED") {
            20
        } else if eq_str(s, "CERT_SELF_SIGNED") {
            10
        } else if eq_str(s, "NO_HSTS") {
            5
        } else if eq_str(s, "SERVER_HEADER_LEAK") {
            5
        } else if eq_str(s, "TLS_SCAN_FAILED") {
            40
        } else if eq_str(s, "CERT_SCAN_FAILED") {
            30
        } else {
            0
        }
    }
}

// ─────────────────────────── laws ───────────────────────────

proof fn lemma_total_weight_concat(a: Seq<VulnerabilityView>, b: Seq<VulnerabilityView>)
    ensures
        total_weight(a + b) == total_weight(a) + total_weight(b),
    decreases b.len(),
{
    if b.len() == 0 {
        assert(a + b =~= a);
    } else {
        lemma_total_weight_concat(a, b.drop_last());
        assert((a + b).drop_last() =~= a + b.drop_last());
    }
}

proof fn lemma_views_concat(a: Seq<Vulnerability>, b: Seq<Vulnerability>)
    ensures
        vuln_views(a + b) == vuln_views(a) + vuln_views(b),
{
    assert(vuln_views(a + b) =~= vuln_views(a) + vuln_views(b));
}

/// Scores are additive penalties: reporting more vulnerabilities never
/// lowers the score.
pub proof fn law_score_never_drops_with_more_findings(
    found: Seq<Vulnerability>,
    more: Seq<Vulnerability>,
)
    ensures
        score_value(vuln_views(found)) <= score_value(vuln_views(found + more)),
        harvest_present(vuln_views(found)) ==> harvest_present(vuln_views(found + more)),
{
    lemma_views_concat(found, more);
    lemma_total_weight_concat(vuln_views(found), vuln_views(more));
    if harvest_present(vuln_views(found)) {
        let i = choose|i: int|
            0 <= i < vuln_views(found).len() && is_harvest_id(#[trigger] vuln_views(found)[i].id);
        assert(vuln_views(found + more)[i] == vuln_views(found)[i]);
    }
}

proof fn lemma_total_weight_remove(t: Seq<VulnerabilityView>, j: int)
    requires
        0 <= j < t.len(),
    ensures
        total_weight(t) == total_weight(t.remove(j)) + weight(t[j].id),
{
    let a = t.take(j);
    let one = seq![t[j]];
    let b = t.skip(j + 1);
    assert(t =~= a + one + b);
    assert(t.remove(j) =~= a + b);
    assert(one.drop_last() =~= Seq::<VulnerabilityView>::empty());
    assert(one.last() == t[j]);
    assert(total_weight(one) == weight(t[j].id)) by {
        reveal_with_fuel(total_weight, 2);
    }
    lemma_total_weight_concat(a + one, b);
    lemma_total_weight_concat(a, one);
    lemma_total_weight_concat(a, b);
}

proof fn lemma_total_weight_multiset(s: Seq<VulnerabilityView>, t: Seq<VulnerabilityView>)
    requires
        s.to_multiset() == t.to_multiset(),
    ensures
        total_weight(s) == total_weight(t),
    decreases s.len(),
{
    s.to_multiset_ensures();
    t.to_multiset_ensures();
    if s.len() == 0 {
        assert(t.len() == 0);
    } else {
        let x = s.last();
        assert(s.contains(x)) by {
            assert(s[s.len() - 1] == x);
        }
        assert(s.to_multiset().count(x) > 0);
        assert(t.to_multiset().count(x) > 0);
        assert(t.contains(x));
        let j = choose|j: int| 0 <= j < t.len() && t[j] == x;
        assert(s.drop_last() =~= s.remove(s.len() - 1));
        assert(s.drop_last().to_multiset() == t.remove(j).to_multiset());
        lemma_total_weight_multiset(s.drop_last(), t.remove(j));
        lemma_total_weight_remove(t, j);
    }
}

proof fn lemma_harvest_multiset(s: Seq<VulnerabilityView>, t: Seq<VulnerabilityView>)
    requires
        s.to_multiset() == t.to_multiset(),
    ensures
        harvest_present(s) ==> harvest_present(t),
{
    s.to_multiset_ensures();
    t.to_multiset_ensures();
    if harvest_present(s) {
        let i = choose|i: int| 0 <= i < s.len() && is_harvest_id(#[trigger] s[i].id);
        assert(s.contains(s[i]));
        assert(s.to_multiset().count(s[i]) > 0);
        assert(t.to_multiset().count(s[i]) > 0);
        assert(t.contains(s[i]));
        let j = choose|j: int| 0 <= j < t.len() && t[j] == s[i];
        assert(is_harvest_id(t[j].id));
    }
}

/// The score and the harvest flag do not depend on the order in which the
/// vulnerabilities were listed: two lists holding the same records, each as
/// often, in any order, score alike.
pub proof fn law_score_ignores_order(first: Seq<Vulnerability>, second: Seq<Vulnerability>)
    requires
        vuln_views(first).to_multiset() == vuln_views(second).to_multiset(),
    ensures
        score_value(vuln_views(first)) == score_value(vuln_views(second)),
        harvest_present(vuln_views(first)) == harvest_present(vuln_views(second)),
{
    lemma_total_weight_multiset(vuln_views(first), vuln_views(second));
    lemma_harvest_multiset(vuln_views(first), vuln_views(second));
    lemma_harvest_multiset(vuln_views(second), vuln_views(first));
}

/// Key exchanges broken by Shor's algorithm, by upper-cased name.
pub open spec fn is_classical_key_exchange(name: Seq<char>) -> bool {
    name == "RSA"@ || name == "DH"@ || name == "DHE"@ || name == "ECDH"@ || name == "ECDHE"@
}

/// The harvest-now-decrypt-later flag is raised whenever the handshake used
/// RSA, DH, DHE, ECDH or ECDHE key exchange (named without surrounding
/// whitespace, as the TLS probe reports it).
pub proof fn law_classical_key_exchange_raises_harvest_risk(
    tls: TlsFinding,
    cert: Option<CertFinding>,
    http: Option<HttpFinding>,
)
    requires
        trim(tls.key_exchange@) == tls.key_exchange@,
        is_classical_key_exchange(to_upper(tls.key_exchange@)),
    ensures
        harvest_present(expected_vulnerabilities(Some(tls), cert, http)),
{
    let kx = tls.key_exchange@;
    assert(key_exchange_verdict(kx).0);
    let k = key_exchange_vulns(tls);
    assert(k.len() == 1);
    assert(is_harvest_id(k[0].id));
    let all = expected_vulnerabilities(Some(tls), cert, http);
    let i = version_vulns(tls).len() as int;
    assert(all[i] == k[0]);
}

} // verus!
