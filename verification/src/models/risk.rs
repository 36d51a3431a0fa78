//! Risk levels and the risk score.

use vstd::prelude::*;

verus! {

/// How severe a score or a single vulnerability is. `Unknown` marks a scan
/// that reached nothing and so could not be graded.
#[derive(Clone, Copy, Debug, PartialEq, Eq, Structural)]
pub enum RiskLevel {
    Critical,
    High,
    Medium,
    Low,
    Pass,
    Unknown,
}

/// The level a score falls in: 80 and up Critical, 60–79 High, 40–59 Medium,
/// 20–39 Low, below 20 Pass.
pub open spec fn level_for_score(score: int) -> RiskLevel {
    if score >= 80 {
        RiskLevel::Critical
    } else if score >= 60 {
        RiskLevel::High
    } else if score >= 40 {
        RiskLevel::Medium
    } else if score >= 20 {
        RiskLevel::Low
    } else {
        RiskLevel::Pass
    }
}

/// Ranks the graded levels: Pass 0 up to Critical 4 (Unknown ranks below Pass).
pub open spec fn severity_rank(level: RiskLevel) -> int {
    match level {
        RiskLevel::Critical => 4,
        RiskLevel::High => 3,
        RiskLevel::Medium => 2,
        RiskLevel::Low => 1,
        RiskLevel::Pass => 0,
        RiskLevel::Unknown => -1,
    }
}

/// Human-readable name of a level.
pub open spec fn level_label(level: RiskLevel) -> Seq<char> {
    match level {
        RiskLevel::Critical => "Critical"@,
        RiskLevel::High => "High"@,
        RiskLevel::Medium => "Medium"@,
        RiskLevel::Low => "Low"@,
        RiskLevel::Pass => "Pass"@,
        RiskLevel::Unknown => "Unknown"@,
    }
}

/// Hex colour used to render a level.
pub open spec fn level_color(level: RiskLevel) -> Seq<char> {
    match level {
        RiskLevel::Critical => "#dc2626"@,
        RiskLevel::High => "#ea580c"@,
        RiskLevel::Medium => "#ca8a04"@,
        RiskLevel::Low => "#65a30d"@,
        RiskLevel::Pass => "#16a34a"@,
        RiskLevel::Unknown => "#6b7280"@,
    }
}

impl RiskLevel {
    /// The level of a 0–100 risk score.
    pub fn from_score(score: u8) -> (res: Self)
        ensures
            res == level_for_score(score as int),
    {
        if score >= 80 {
            RiskLevel::Critical
        } else if score >= 60 {
            RiskLevel::High
        } else if score >= 40 {
            RiskLevel::Medium
        } else if score >= 20 {
            RiskLevel::Low
        } else {
            RiskLevel::Pass
        }
    }

    pub fn label(&self) -> (res: &'static str)
        ensures
            res@ == level_label(*self),
    {
        match self {
            RiskLevel::Critical => "Critical",
            RiskLevel::High => "High",
            RiskLevel::Medium => "Medium",
            RiskLevel::Low => "Low",
            RiskLevel::Pass => "Pass",
            RiskLevel::Unknown => "Unknown",
        }
    }

    pub fn color_code(&self) -> (res: &'static str)
        ensures
            res@ == level_color(*self),
    {
        match self {
            RiskLevel::Critical => "#dc2626",
            RiskLevel::High => "#ea580c",
            RiskLevel::Medium => "#ca8a04",
            RiskLevel::Low => "#65a30d",
            RiskLevel::Pass => "#16a34a",
            RiskLevel::Unknown => "#6b7280",
        }
    }
}

/// The graded outcome of a scan.
#[derive(Clone, Debug)]
pub struct RiskScore {
    pub value: u8,
    pub level: RiskLevel,
    pub summary: String,
    pub harvest_risk: bool,
}

impl RiskScore {
    /// A field-for-field copy.
    pub fn duplicate(&self) -> (res: Self)
        ensures
            res == *self,
    {
        RiskScore {
            value: self.value,
            level: self.level,
            summary: self.summary.clone(),
            harvest_risk: self.harvest_risk,
        }
    }
}

/// A higher score never lands in a less severe level.
pub proof fn law_higher_score_is_never_less_severe(a: int, b: int)
    requires
        a <= b,
    ensures
        severity_rank(level_for_score(a)) <= severity_rank(level_for_score(b)),
{
}

} // verus!
