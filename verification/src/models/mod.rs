//! Data carried through a scan: findings, vulnerabilities, scores, reports.

pub mod finding;
pub mod report;
pub mod risk;
