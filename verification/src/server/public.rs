//! The free-tier view of a scan report served by the API: the whole
//! assessment, but only the first few remediation headlines.

use vstd::prelude::*;

use crate::text::string_views;
use crate::models::finding::{
    duplicate_vulns, rec_views, CertFinding, HttpFinding, Recommendation, RecommendationView,
    TlsFinding, Vulnerability,
};
use crate::models::report::{ScanReport, ScanTarget};
use crate::models::risk::RiskScore;
use crate::text::owned;

verus! {

/// Action headlines shown in the free tier.
pub const FREE_TIER_ACTION_PREVIEW: usize = 3;

pub const UPGRADE_MESSAGE: &'static str = "Full PQC migration roadmap — exact configurations, rollout sequencing, and effort estimates — is delivered via a BPxAI engagement.";
pub const UPGRADE_URL: &'static str = "https://bpxai.com/quantum";

/// Where the full remediation roadmap is offered.
#[derive(Clone, Debug)]
pub struct Upgrade {
    pub message: String,
    pub url: String,
}

/// What the API returns for a scan: the assessment in full, the first
/// distinct action headlines, how many more there are, and the upgrade pointer.
#[derive(Clone, Debug)]
pub struct PublicScanReport {
    pub target: ScanTarget,
    pub risk_score: RiskScore,
    pub quantum_ready: bool,
    pub summary: String,
    pub tls: Option<TlsFinding>,
    pub certificate: Option<CertFinding>,
    pub http: Option<HttpFinding>,
    pub vulnerabilities: Vec<Vulnerability>,
    pub recommended_actions: Vec<String>,
    pub additional_recommendations: usize,
    pub upgrade: Upgrade,
}

/// The action headlines of the recommendations, each once, in order of
/// first appearance.
pub open spec fn distinct_action_texts(rs: Seq<RecommendationView>) -> Seq<Seq<char>>
    decreases rs.len(),
{
    if rs.len() == 0 {
        seq![]
    } else {
        let prev = distinct_action_texts(rs.drop_last());
        if prev.contains(rs.last().action) {
            prev
        } else {
            prev.push(rs.last().action)
        }
    }
}

/// The action headlines of the recommendations, each once, in order.
pub fn distinct_actions(recs: &Vec<Recommendation>) -> (res: Vec<String>)
    ensures
        string_views(res@) == distinct_action_texts(rec_views(recs@)),
{
    let ghost rs = rec_views(recs@);
    let mut res: Vec<String> = Vec::new();
    for i in 0..recs.len()
        invariant
            rs == rec_views(recs@),
            string_views(res@) == distinct_action_texts(rs.take(i as int)),
    {
        assert(rs.take(i + 1).drop_last() =~= rs.take(i as int));
        assert(rs.take(i + 1).last() == recs@[i as int]@);
        let action = &recs[i].action;
        let mut seen = false;
        let mut j: usize = 0;
        while j < res.len()
            invariant
                j <= res@.len(),
                seen == exists|k: int| 0 <= k < j && res@[k]@ == action@,
            decreases res.len() - j,
        {
            if res[j] == *action {
                seen = true;
            }
            j = j + 1;
        }
        proof {
            let sv = string_views(res@);
            if seen {
                let k = choose|k: int| 0 <= k < res@.len() && res@[k]@ == action@;
                assert(sv[k] == action@);
            } else {
                assert forall|k: int| 0 <= k < sv.len() implies sv[k] != action@ by {
                    assert(sv[k] == res@[k]@);
                }
            }
        }
        if !seen {
            res.push(action.clone());
            assert(string_views(res@) =~= distinct_action_texts(rs.take(i + 1)));
        }
    }
    assert(rs.take(recs.len() as int) =~= rs);
    res
}

impl PublicScanReport {
    /// The free-tier projection of a report: everything but the detailed
    /// roadmap, whose action headlines are de-duplicated and cut to three.
    pub fn from_report(report: &ScanReport) -> (res: Self)
        ensures
            res.target == report.target,
            res.risk_score == report.risk_score,
            res.quantum_ready == report.quantum_ready,
            res.summary == report.summary,
            res.tls == report.tls,
            res.certificate == report.certificate,
            res.http == report.http,
            res.vulnerabilities@ == report.vulnerabilities@,
            ({
                let all = distinct_action_texts(rec_views(report.recommendations@));
                let shown = if all.len() < FREE_TIER_ACTION_PREVIEW {
                    all.len()
                } else {
                    FREE_TIER_ACTION_PREVIEW as nat
                };
                &&& string_views(res.recommended_actions@) == all.take(shown as int)
                &&& res.additional_recommendations == all.len() - shown
            }),
            res.upgrade.message@ == UPGRADE_MESSAGE@,
            res.upgrade.url@ == UPGRADE_URL@,
    {
        let distinct = distinct_actions(&report.recommendations);
        let ghost all = string_views(distinct@);
        let mut shown: Vec<String> = Vec::new();
        let mut i: usize = 0;
        while i < distinct.len() && i < FREE_TIER_ACTION_PREVIEW
            invariant
                i <= distinct@.len(),
                all == string_views(distinct@),
                string_views(shown@) == all.take(i as int),
                shown@.len() == i,
                i <= FREE_TIER_ACTION_PREVIEW,
            decreases distinct.len() - i,
        {
            assert(all[i as int] == distinct@[i as int]@);
            shown.push(distinct[i].clone());
            assert(string_views(shown@) =~= all.take(i + 1));
            i = i + 1;
        }
        let additional = distinct.len() - shown.len();
        proof {
            let want = distinct_action_texts(rec_views(report.recommendations@));
            assert(want == all);
            assert(all.len() == distinct@.len());
            let n = if all.len() < FREE_TIER_ACTION_PREVIEW {
                all.len()
            } else {
                FREE_TIER_ACTION_PREVIEW as nat
            };
            assert(i == n);
        }
        PublicScanReport {
            target: report.target.duplicate(),
            risk_score: report.risk_score.duplicate(),
            quantum_ready: report.quantum_ready,
            summary: report.summary.clone(),
            tls: match &report.tls {
                Some(t) => Some(t.duplicate()),
                None => None,
            },
            certificate: match &report.certificate {
                Some(c) => Some(c.duplicate()),
                None => None,
            },
            http: match &report.http {
                Some(h) => Some(h.duplicate()),
                None => None,
            },
            vulnerabilities: duplicate_vulns(&report.vulnerabilities),
            recommended_actions: shown,
            additional_recommendations: additional,
            upgrade: Upgrade { message: owned(UPGRADE_MESSAGE), url: owned(UPGRADE_URL) },
        }
    }
}

/// The free tier never shows more than three headlines, never repeats one,
/// and shown plus withheld headlines account for every distinct action.
pub proof fn law_free_tier_preview(recs: Seq<Recommendation>)
    ensures
        ({
            let all = distinct_action_texts(rec_views(recs));
            let shown = if all.len() < FREE_TIER_ACTION_PREVIEW {
                all.len()
            } else {
                FREE_TIER_ACTION_PREVIEW as nat
            };
            &&& shown <= FREE_TIER_ACTION_PREVIEW
            &&& all.take(shown as int).no_duplicates()
            &&& shown + (all.len() - shown) == all.len()
        }),
{
    let all = distinct_action_texts(rec_views(recs));
    lemma_distinct_actions_unique(rec_views(recs));
}

proof fn lemma_distinct_actions_unique(rs: Seq<RecommendationView>)
    ensures
        distinct_action_texts(rs).no_duplicates(),
        forall|n: int| 0 <= n <= distinct_action_texts(rs).len() ==> #[trigger] distinct_action_texts(rs).take(n).no_duplicates(),
    decreases rs.len(),
{
    if rs.len() > 0 {
        lemma_distinct_actions_unique(rs.drop_last());
    }
    let d = distinct_action_texts(rs);
    assert forall|n: int| 0 <= n <= d.len() implies #[trigger] d.take(n).no_duplicates() by {
        assert forall|a: int, b: int| 0 <= a < b < d.take(n).len() implies d.take(n)[a] != d.take(n)[b] by {
            assert(d.take(n)[a] == d[a]);
            assert(d.take(n)[b] == d[b]);
        }
    }
}

} // verus!
