//! The assembled result of one scan.

use vstd::prelude::*;

use crate::models::finding::{CertFinding, HttpFinding, Recommendation, TlsFinding, Vulnerability};
use crate::models::risk::{RiskLevel, RiskScore};

verus! {

/// Which endpoint was scanned, and when.
#[derive(Clone, Debug)]
pub struct ScanTarget {
    pub domain: String,
    pub ip_address: Option<String>,
    pub port: u16,
    pub scanned_at: String,
    pub scan_duration_ms: u64,
}

impl ScanTarget {
    /// A field-for-field copy.
    pub fn duplicate(&self) -> (res: Self)
        ensures
            res == *self,
    {
        ScanTarget {
            domain: self.domain.clone(),
            ip_address: crate::models::finding::duplicate_opt_string(&self.ip_address),
            port: self.port,
            scanned_at: self.scanned_at.clone(),
            scan_duration_ms: self.scan_duration_ms,
        }
    }
}

/// Everything one scan produced.
#[derive(Clone, Debug)]
pub struct ScanReport {
    pub target: ScanTarget,
    pub risk_score: RiskScore,
    pub tls: Option<TlsFinding>,
    pub certificate: Option<CertFinding>,
    pub http: Option<HttpFinding>,
    pub vulnerabilities: Vec<Vulnerability>,
    pub recommendations: Vec<Recommendation>,
    pub summary: String,
    pub quantum_ready: bool,
}

impl ScanReport {
    /// Whether the score is High or Critical.
    pub fn is_critical(&self) -> (res: bool)
        ensures
            res == (self.risk_score.level == RiskLevel::Critical || self.risk_score.level
                == RiskLevel::High),
    {
        match self.risk_score.level {
            RiskLevel::Critical | RiskLevel::High => true,
            _ => false,
        }
    }

    pub fn vulnerability_count(&self) -> (res: usize)
        ensures
            res == self.vulnerabilities@.len(),
    {
        self.vulnerabilities.len()
    }

    pub fn has_harvest_risk(&self) -> (res: bool)
        ensures
            res == self.risk_score.harvest_risk,
    {
        self.risk_score.harvest_risk
    }

    /// Whether no probe answered: no TLS, certificate or HTTP finding.
    pub fn is_unreachable(&self) -> (res: bool)
        ensures
            res == (self.tls is None && self.certificate is None && self.http is None),
    {
        self.tls.is_none() && self.certificate.is_none() && self.http.is_none()
    }
}

} // verus!
