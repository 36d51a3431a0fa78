//! Scan history: the row recorded for each scan served by the API, and the
//! summaries read back from it. The database itself is driven by the
//! server program; what goes into a row is decided here.

use vstd::prelude::*;

use crate::models::report::ScanReport;
use crate::models::risk::level_label;
use crate::text::owned;

verus! {

/// One row of scan history, without the full report or the client address.
#[derive(Clone, Debug)]
pub struct ScanSummary {
    pub id: i64,
    pub scanned_at: String,
    pub target_domain: String,
    pub target_port: i64,
    pub risk_score: i64,
    pub risk_level: String,
    pub harvest_risk: bool,
    pub quantum_ready: bool,
    pub vulnerability_count: i64,
    pub created_at: String,
}

/// Per-site rollup: how often a domain was scanned and how it looked last.
#[derive(Clone, Debug)]
pub struct SiteAggregate {
    pub target_domain: String,
    pub scan_count: i64,
    pub first_scanned: String,
    pub last_scanned: String,
    pub latest_risk_score: i64,
    pub latest_risk_level: String,
}

/// The columns recorded for one scan, besides the client address and the
/// full report.
#[derive(Clone, Debug)]
pub struct ScanRecord {
    pub scanned_at: String,
    pub target_domain: String,
    pub target_port: i64,
    pub risk_score: i64,
    pub risk_level: String,
    pub harvest_risk: i64,
    pub quantum_ready: i64,
    pub vulnerability_count: i64,
}

impl ScanRecord {
    /// The columns recorded for a report: its target and time, its score
    /// and level label, its flags as 0 or 1, and how many vulnerabilities
    /// it lists.
    pub fn of_report(report: &ScanReport) -> (res: ScanRecord)
        ensures
            res.scanned_at@ == report.target.scanned_at@,
            res.target_domain@ == report.target.domain@,
            res.target_port == report.target.port as i64,
            res.risk_score == report.risk_score.value as i64,
            res.risk_level@ == level_label(report.risk_score.level),
            res.harvest_risk == if report.risk_score.harvest_risk {
                1i64
            } else {
                0i64
            },
            res.quantum_ready == if report.quantum_ready {
                1i64
            } else {
                0i64
            },
            res.vulnerability_count == report.vulnerabilities@.len() as i64,
    {
        let count = report.vulnerabilities.len();
        ScanRecord {
            scanned_at: owned(report.target.scanned_at.as_str()),
            target_domain: owned(report.target.domain.as_str()),
            target_port: report.target.port as i64,
            risk_score: report.risk_score.value as i64,
            risk_level: owned(report.risk_score.level.label()),
            harvest_risk: if report.risk_score.harvest_risk {
                1
            } else {
                0
            },
            quantum_ready: if report.quantum_ready {
                1
            } else {
                0
            },
            vulnerability_count: count as i64,
        }
    }
}

} // verus!
