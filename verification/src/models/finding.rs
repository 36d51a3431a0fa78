//! What each probe observed, and the vulnerabilities and recommendations
//! derived from it.

use vstd::prelude::*;

use crate::models::risk::RiskLevel;

verus! {

/// What the TLS handshake negotiated.
#[derive(Clone, Debug)]
pub struct TlsFinding {
    pub protocol_version: String,
    pub protocol_vulnerable: bool,
    pub cipher_suite: String,
    pub cipher_vulnerable: bool,
    pub key_exchange: String,
    pub key_exchange_vulnerable: bool,
    pub compression: String,
    pub compression_vulnerable: bool,
}

/// What the leaf certificate holds.
#[derive(Clone, Debug)]
pub struct CertFinding {
    pub subject: String,
    pub issuer: String,
    pub key_algorithm: String,
    pub key_algorithm_vulnerable: bool,
    pub signature_algorithm: String,
    pub signature_algorithm_vulnerable: bool,
    pub valid_from: String,
    pub valid_until: String,
    pub days_remaining: i64,
    pub is_expired: bool,
    pub is_self_signed: bool,
    pub ct_logged: bool,
}

/// The security headers of the HTTPS response.
#[derive(Clone, Debug)]
pub struct HttpFinding {
    pub hsts_enabled: bool,
    pub hsts_max_age: Option<u64>,
    pub csp_present: bool,
    pub x_frame_options: Option<String>,
    pub server_header: Option<String>,
}

/// One weakness found by a scan. `cvss_tenths` is the CVSS-equivalent
/// score in tenths of a point (74 stands for 7.4).
#[derive(Clone, Debug)]
pub struct Vulnerability {
    pub id: String,
    pub title: String,
    pub description: String,
    pub severity: RiskLevel,
    pub nist_reference: String,
    pub cvss_tenths: u8,
}

/// The abstract content of a [`Vulnerability`].
pub struct VulnerabilityView {
    pub id: Seq<char>,
    pub title: Seq<char>,
    pub description: Seq<char>,
    pub severity: RiskLevel,
    pub nist_reference: Seq<char>,
    pub cvss_tenths: u8,
}

impl View for Vulnerability {
    type V = VulnerabilityView;

    open spec fn view(&self) -> VulnerabilityView {
        VulnerabilityView {
            id: self.id@,
            title: self.title@,
            description: self.description@,
            severity: self.severity,
            nist_reference: self.nist_reference@,
            cvss_tenths: self.cvss_tenths,
        }
    }
}

/// One remediation step.
#[derive(Clone, Debug)]
pub struct Recommendation {
    pub priority: u8,
    pub action: String,
    pub current: String,
    pub replace_with: String,
    pub effort_weeks: u8,
    pub nist_algorithm: String,
}

/// The abstract content of a [`Recommendation`].
pub struct RecommendationView {
    pub priority: u8,
    pub action: Seq<char>,
    pub current: Seq<char>,
    pub replace_with: Seq<char>,
    pub effort_weeks: u8,
    pub nist_algorithm: Seq<char>,
}

impl View for Recommendation {
    type V = RecommendationView;

    open spec fn view(&self) -> RecommendationView {
        RecommendationView {
            priority: self.priority,
            action: self.action@,
            current: self.current@,
            replace_with: self.replace_with@,
            effort_weeks: self.effort_weeks,
            nist_algorithm: self.nist_algorithm@,
        }
    }
}

/// The views of a list of vulnerabilities.
pub open spec fn vuln_views(v: Seq<Vulnerability>) -> Seq<VulnerabilityView> {
    v.map_values(|x: Vulnerability| x@)
}

/// The views of a list of recommendations.
pub open spec fn rec_views(v: Seq<Recommendation>) -> Seq<RecommendationView> {
    v.map_values(|x: Recommendation| x@)
}

impl TlsFinding {
    /// A field-for-field copy.
    pub fn duplicate(&self) -> (res: Self)
        ensures
            res == *self,
    {
        TlsFinding {
            protocol_version: self.protocol_version.clone(),
            protocol_vulnerable: self.protocol_vulnerable,
            cipher_suite: self.cipher_suite.clone(),
            cipher_vulnerable: self.cipher_vulnerable,
            key_exchange: self.key_exchange.clone(),
            key_exchange_vulnerable: self.key_exchange_vulnerable,
            compression: self.compression.clone(),
            compression_vulnerable: self.compression_vulnerable,
        }
    }
}

impl CertFinding {
    /// A field-for-field copy.
    pub fn duplicate(&self) -> (res: Self)
        ensures
            res == *self,
    {
        CertFinding {
            subject: self.subject.clone(),
            issuer: self.issuer.clone(),
            key_algorithm: self.key_algorithm.clone(),
            key_algorithm_vulnerable: self.key_algorithm_vulnerable,
            signature_algorithm: self.signature_algorithm.clone(),
            signature_algorithm_vulnerable: self.signature_algorithm_vulnerable,
            valid_from: self.valid_from.clone(),
            valid_until: self.valid_until.clone(),
            days_remaining: self.days_remaining,
            is_expired: self.is_expired,
            is_self_signed: self.is_self_signed,
            ct_logged: self.ct_logged,
        }
    }
}

/// A copy of an optional string.
pub fn duplicate_opt_string(s: &Option<String>) -> (res: Option<String>)
    ensures
        res == *s,
{
    match s {
        Some(x) => Some(x.clone()),
        None => None,
    }
}

impl HttpFinding {
    /// A field-for-field copy.
    pub fn duplicate(&self) -> (res: Self)
        ensures
            res == *self,
    {
        HttpFinding {
            hsts_enabled: self.hsts_enabled,
            hsts_max_age: self.hsts_max_age,
            csp_present: self.csp_present,
            x_frame_options: duplicate_opt_string(&self.x_frame_options),
            server_header: duplicate_opt_string(&self.server_header),
        }
    }
}

impl Vulnerability {
    /// A field-for-field copy.
    pub fn duplicate(&self) -> (res: Self)
        ensures
            res == *self,
    {
        Vulnerability {
            id: self.id.clone(),
            title: self.title.clone(),
            description: self.description.clone(),
            severity: self.severity,
            nist_reference: self.nist_reference.clone(),
            cvss_tenths: self.cvss_tenths,
        }
    }
}

impl Recommendation {
    /// A field-for-field copy.
    pub fn duplicate(&self) -> (res: Self)
        ensures
            res == *self,
    {
        Recommendation {
            priority: self.priority,
            action: self.action.clone(),
            current: self.current.clone(),
            replace_with: self.replace_with.clone(),
            effort_weeks: self.effort_weeks,
            nist_algorithm: self.nist_algorithm.clone(),
        }
    }
}

/// A copy of a list of vulnerabilities.
pub fn duplicate_vulns(v: &Vec<Vulnerability>) -> (res: Vec<Vulnerability>)
    ensures
        res@ == v@,
{
    let mut res: Vec<Vulnerability> = Vec::new();
    for i in 0..v.len()
        invariant
            res@ == v@.take(i as int),
    {
        res.push(v[i].duplicate());
        assert(v@.take(i + 1) =~= v@.take(i as int).push(v@[i as int]));
    }
    assert(v@.take(v.len() as int) =~= v@);
    res
}

} // verus!
