//! The text report printed to a terminal: what it says, in which order, and
//! how each piece is emphasised. The emphasis is given as a [`Paint`]; the
//! program that prints the report turns it into terminal colours.

use vstd::prelude::*;

use crate::text::string_views;
use crate::models::finding::{rec_views, CertFinding, HttpFinding, TlsFinding, Vulnerability};
use crate::models::report::ScanReport;
use crate::models::risk::{level_label, RiskLevel};
use crate::server::public::{distinct_action_texts, distinct_actions};
use crate::text::{decimal, owned, push_decimal, push_signed_decimal, push_str, signed_decimal};

verus! {

/// How a piece of terminal text is emphasised.
#[derive(Clone, Copy, Debug, PartialEq, Eq, Structural)]
pub enum Paint {
    Plain,
    Bold,
    Dimmed,
    BoldUnderline,
    Cyan,
    BoldCyan,
    BrightCyan,
    CyanUnderline,
    Green,
    BoldGreen,
    Yellow,
    BoldYellow,
    BrightYellow,
    Red,
    BoldRed,
    BoldBrightRed,
}

/// A piece of terminal text and its emphasis.
#[derive(Clone, Debug)]
pub struct Span {
    pub text: String,
    pub paint: Paint,
}

/// The abstract content of a [`Span`].
pub struct SpanView {
    pub text: Seq<char>,
    pub paint: Paint,
}

/// A span with the given text and emphasis.
pub open spec fn sp(text: Seq<char>, paint: Paint) -> SpanView {
    SpanView { text, paint }
}

/// The abstract content of each span.
pub open spec fn spans_of(v: Seq<Span>) -> Seq<SpanView> {
    v.map_values(|s: Span| sp(s.text@, s.paint))
}

/// The wordmark at the top of every text report.
pub const BANNER_ART: &'static str = r#"
   ____
  |  _ \ ___  _ ____      ____ _ _   _
  | |_) / _ \| '_ \ \ /\ / / _` | | | |
  |  _ < (_) | | | \ V  V / (_| | |_| |
  |_| \_\___/|_| |_|\_/\_/ \__,_|\__, |
                                 |___/ "#;
pub const BANNER_TITLE: &'static str = "⚛  Post-Quantum Cryptographic Scanner";
pub const BANNER_MOTTO: &'static str = "\"Know your quantum risk before it knows you.\"";
pub const HARVEST_HEADLINE: &'static str = "Harvest-now-decrypt-later risk";
pub const HARVEST_EXPLANATION: &'static str = "traffic captured today can be decrypted once quantum hardware arrives";
pub const ROADMAP_LINE_1: &'static str = "The full PQC migration roadmap — exact configurations, rollout";
pub const ROADMAP_LINE_2: &'static str = "sequencing, and effort estimates — is a BPxAI engagement.";
pub const ROADMAP_URL: &'static str = "bpxai.com/quantum";
pub const UNREACHABLE_CAUSES: &'static str = " Likely causes:\n   • the host is unreachable, or the port is closed / firewalled\n   • the service on that port does not speak TLS\n   • the hostname did not resolve in DNS\n";

// ─────────────────────────── specifications ───────────────────────────

/// The horizontal rule: 56 box-drawing dashes.
pub open spec fn rule_text() -> Seq<char> {
    Seq::new(56, |i: int| '─')
}

/// The emphasis of a risk level's label.
pub open spec fn level_paint_of(level: RiskLevel) -> Paint {
    match level {
        RiskLevel::Critical => Paint::BoldRed,
        RiskLevel::High => Paint::BoldBrightRed,
        RiskLevel::Medium => Paint::BoldYellow,
        RiskLevel::Low => Paint::BrightYellow,
        RiskLevel::Pass => Paint::BoldGreen,
        RiskLevel::Unknown => Paint::Dimmed,
    }
}

/// The one-line advice under the score.
pub open spec fn tagline_of(level: RiskLevel) -> Seq<char> {
    match level {
        RiskLevel::Critical => "Immediate action required — quantum-vulnerable cryptography in active use."@,
        RiskLevel::High => "Urgent — begin post-quantum migration planning now."@,
        RiskLevel::Medium => "Plan a post-quantum migration within roughly six months."@,
        RiskLevel::Low => "Largely sound — monitor posture and prepare a migration plan."@,
        RiskLevel::Pass => "Meets current post-quantum readiness guidance."@,
        RiskLevel::Unknown => "The endpoint could not be assessed."@,
    }
}

/// The wordmark block.
pub open spec fn banner_spans() -> Seq<SpanView> {
    seq![
        sp(BANNER_ART@, Paint::BoldCyan),
        sp("\n  "@, Paint::Plain),
        sp(BANNER_TITLE@, Paint::BrightCyan),
        sp("\n  "@, Paint::Plain),
        sp(BANNER_MOTTO@, Paint::Dimmed),
        sp("\n\n"@, Paint::Plain),
    ]
}

/// The maker's mark at the foot of every text report.
pub open spec fn signature_spans() -> Seq<SpanView> {
    seq![
        sp("\n"@, Paint::Plain),
        sp(rule_text(), Paint::Dimmed),
        sp("\n "@, Paint::Plain),
        sp("Made by"@, Paint::Dimmed),
        sp(" "@, Paint::Plain),
        sp("Koleen BP"@, Paint::Bold),
        sp("\n "@, Paint::Plain),
        sp("BPxAI"@, Paint::Bold),
        sp(" · "@, Paint::Plain),
        sp("bpxai.com"@, Paint::Cyan),
        sp(" · "@, Paint::Plain),
        sp("koleenbp.com"@, Paint::Cyan),
        sp("\n"@, Paint::Plain),
        sp(rule_text(), Paint::Dimmed),
        sp("\n"@, Paint::Plain),
    ]
}

/// Wordmark, target and scan time, between rules.
pub open spec fn header_spans(r: ScanReport) -> Seq<SpanView> {
    banner_spans() + seq![
        sp(rule_text(), Paint::Dimmed),
        sp("\n "@, Paint::Plain),
        sp("Target "@, Paint::Bold),
        sp("   "@, Paint::Plain),
        sp(r.target.domain@, Paint::Bold),
        sp(":"@ + decimal(r.target.port as nat) + "\n "@, Paint::Plain),
        sp("Scanned"@, Paint::Bold),
        sp("  "@ + r.target.scanned_at@ + "  ("@ + decimal(r.target.scan_duration_ms as nat)
            + " ms)\n"@, Paint::Plain),
        sp(rule_text(), Paint::Dimmed),
        sp("\n"@, Paint::Plain),
    ]
}

/// What is printed in place of a grade when no probe answered.
pub open spec fn unreachable_spans(r: ScanReport) -> Seq<SpanView> {
    seq![
        sp("\n "@, Paint::Plain),
        sp("Scan incomplete:"@, Paint::BoldYellow),
        sp(" could not complete a TLS handshake with "@ + r.target.domain@ + ":"@ + decimal(
            r.target.port as nat,
        ) + ".\n\n"@ + UNREACHABLE_CAUSES@ + "\n "@, Paint::Plain),
        sp("Tip:"@, Paint::BoldCyan),
        sp("  use a bare hostname such as "@, Paint::Plain),
        sp("example.com"@, Paint::Cyan),
        sp(" and confirm the port is serving HTTPS.\n"@, Paint::Plain),
    ]
}

/// Score, level, advice, harvest warning and quantum readiness.
pub open spec fn score_spans(r: ScanReport) -> Seq<SpanView> {
    let level = r.risk_score.level;
    let harvest: Seq<SpanView> = if r.risk_score.harvest_risk {
        seq![
            sp(" "@, Paint::Plain),
            sp(HARVEST_HEADLINE@, Paint::BoldRed),
            sp("\n   "@, Paint::Plain),
            sp(HARVEST_EXPLANATION@, Paint::Red),
            sp("\n"@, Paint::Plain),
        ]
    } else {
        seq![]
    };
    seq![
        sp("\n "@, Paint::Plain),
        sp("Risk score"@, Paint::Bold),
        sp("   "@, Paint::Plain),
        sp(decimal(r.risk_score.value as nat), Paint::Bold),
        sp("/100"@, Paint::Dimmed),
        sp("   "@, Paint::Plain),
        sp(level_label(level), level_paint_of(level)),
        sp("\n   "@, Paint::Plain),
        sp(tagline_of(level), Paint::Dimmed),
        sp("\n"@, Paint::Plain),
    ] + harvest + seq![
        sp(" "@, Paint::Plain),
        sp("Quantum-ready:"@, Paint::Bold),
        sp("  "@, Paint::Plain),
        if r.quantum_ready {
            sp("yes"@, Paint::BoldGreen)
        } else {
            sp("no"@, Paint::BoldRed)
        },
        sp("\n"@, Paint::Plain),
    ]
}

/// A probe's heading followed by `not available`.
pub open spec fn missing_spans(label: Seq<char>, gap: Seq<char>) -> Seq<SpanView> {
    seq![
        sp("   "@, Paint::Plain),
        sp(label, Paint::BoldCyan),
        sp(gap, Paint::Plain),
        sp("not available"@, Paint::Dimmed),
        sp("\n"@, Paint::Plain),
    ]
}

/// `on` in green or `off` in yellow.
pub open spec fn switch_span(on: bool) -> SpanView {
    if on {
        sp("on"@, Paint::Green)
    } else {
        sp("off"@, Paint::Yellow)
    }
}

/// The one-line TLS observation.
pub open spec fn tls_spans(tls: Option<TlsFinding>) -> Seq<SpanView> {
    match tls {
        Some(t) => seq![
            sp("   "@, Paint::Plain),
            sp("TLS "@, Paint::BoldCyan),
            sp("   "@ + t.protocol_version@ + " · "@ + t.cipher_suite@ + " · kx="@
                + t.key_exchange@ + "\n"@, Paint::Plain),
        ],
        None => missing_spans("TLS "@, "   "@),
    }
}

/// The one-line certificate observation.
pub open spec fn cert_spans(cert: Option<CertFinding>) -> Seq<SpanView> {
    match cert {
        Some(c) => seq![
            sp("   "@, Paint::Plain),
            sp("Cert"@, Paint::BoldCyan),
            sp("  "@ + c.subject@ + " · "@ + c.key_algorithm@ + " · "@ + c.signature_algorithm@
                + " · expires in "@ + signed_decimal(c.days_remaining as int) + " days\n"@,
                Paint::Plain),
        ],
        None => missing_spans("Cert"@, "  "@),
    }
}

/// The one-line HTTP observation.
pub open spec fn http_spans(http: Option<HttpFinding>) -> Seq<SpanView> {
    match http {
        Some(h) => seq![
            sp("   "@, Paint::Plain),
            sp("HTTP"@, Paint::BoldCyan),
            sp("  HSTS "@, Paint::Plain),
            switch_span(h.hsts_enabled),
            sp(" · CSP "@, Paint::Plain),
            switch_span(h.csp_present),
            sp(" · server "@ + match h.server_header {
                Some(s) => s@,
                None => "—"@,
            } + "\n"@, Paint::Plain),
        ],
        None => missing_spans("HTTP"@, "  "@),
    }
}

/// What the probes observed.
pub open spec fn observed_spans(r: ScanReport) -> Seq<SpanView> {
    seq![
        sp("\n "@, Paint::Plain),
        sp("What we observed"@, Paint::BoldUnderline),
        sp("\n"@, Paint::Plain),
    ] + tls_spans(r.tls) + cert_spans(r.certificate) + http_spans(r.http)
}

/// A CVSS-equivalent score given in tenths, printed with one decimal.
pub open spec fn tenths_text(t: u8) -> Seq<char> {
    decimal((t / 10) as nat) + "."@ + decimal((t % 10) as nat)
}

/// The lines of one vulnerability.
pub open spec fn vulnerability_spans(v: Vulnerability) -> Seq<SpanView> {
    let description: Seq<SpanView> = if v.description@.len() > 0 {
        seq![
            sp("        "@, Paint::Plain),
            sp(v.description@, Paint::Dimmed),
            sp("\n"@, Paint::Plain),
        ]
    } else {
        seq![]
    };
    seq![
        sp("   ["@, Paint::Plain),
        sp(level_label(v.severity), level_paint_of(v.severity)),
        sp("] "@, Paint::Plain),
        sp(v.title@, Paint::Bold),
        sp("\n"@, Paint::Plain),
    ] + description + seq![
        sp("        "@, Paint::Plain),
        sp("ref "@ + v.nist_reference@ + " · CVSS≈"@ + tenths_text(v.cvss_tenths), Paint::Dimmed),
        sp("\n"@, Paint::Plain),
    ]
}

/// The lines of every vulnerability, in order.
pub open spec fn vulnerability_list_spans(vs: Seq<Vulnerability>) -> Seq<SpanView>
    decreases vs.len(),
{
    if vs.len() == 0 {
        seq![]
    } else {
        vulnerability_list_spans(vs.drop_last()) + vulnerability_spans(vs.last())
    }
}

/// The findings section.
pub open spec fn findings_spans(r: ScanReport) -> Seq<SpanView> {
    let vs = r.vulnerabilities@;
    seq![
        sp("\n "@, Paint::Plain),
        sp("Findings"@, Paint::BoldUnderline),
        sp(" "@, Paint::Plain),
        sp("("@ + decimal(vs.len()) + ")"@, Paint::Dimmed),
        sp("\n"@, Paint::Plain),
    ] + if vs.len() == 0 {
        seq![
            sp("   "@, Paint::Plain),
            sp("No quantum-vulnerable cryptography detected."@, Paint::Green),
            sp("\n"@, Paint::Plain),
        ]
    } else {
        vulnerability_list_spans(vs)
    }
}

/// The plain-English interpretation.
pub open spec fn meaning_spans(r: ScanReport) -> Seq<SpanView> {
    seq![
        sp("\n "@, Paint::Plain),
        sp("What this means for you"@, Paint::BoldUnderline),
        sp("\n   "@ + r.summary@ + "\n"@, Paint::Plain),
    ]
}

/// One bullet per action headline.
pub open spec fn bullet_spans(actions: Seq<Seq<char>>) -> Seq<SpanView>
    decreases actions.len(),
{
    if actions.len() == 0 {
        seq![]
    } else {
        bullet_spans(actions.drop_last()) + seq![
            sp("   "@, Paint::Plain),
            sp("•"@, Paint::Cyan),
            sp(" "@ + actions.last() + "\n"@, Paint::Plain),
        ]
    }
}

/// The remediation teaser: the first three distinct action headlines, how
/// many more there are, and where the full roadmap is offered. Nothing when
/// there is no recommendation.
pub open spec fn direction_spans(r: ScanReport) -> Seq<SpanView> {
    if r.recommendations@.len() == 0 {
        seq![]
    } else {
        let d = distinct_action_texts(rec_views(r.recommendations@));
        let shown = if d.len() > 3 {
            d.take(3)
        } else {
            d
        };
        let more: Seq<SpanView> = if d.len() > 3 {
            seq![
                sp("   "@, Paint::Plain),
                sp("(+"@ + decimal((d.len() - 3) as nat) + " more)"@, Paint::Dimmed),
                sp("\n"@, Paint::Plain),
            ]
        } else {
            seq![]
        };
        seq![
            sp("\n "@, Paint::Plain),
            sp("Recommended direction"@, Paint::BoldUnderline),
            sp("\n"@, Paint::Plain),
        ] + bullet_spans(shown) + more + seq![
            sp("\n   "@, Paint::Plain),
            sp(ROADMAP_LINE_1@, Paint::Dimmed),
            sp("\n   "@, Paint::Plain),
            sp(ROADMAP_LINE_2@, Paint::Dimmed),
            sp("\n   "@, Paint::Plain),
            sp("→"@, Paint::BoldCyan),
            sp("  "@, Paint::Plain),
            sp(ROADMAP_URL@, Paint::CyanUnderline),
            sp("\n"@, Paint::Plain),
        ]
    }
}

/// The whole text report. A scan in which no probe answered shows why
/// instead of a grade.
pub open spec fn text_report(r: ScanReport) -> Seq<SpanView> {
    if r.tls is None && r.certificate is None && r.http is None {
        header_spans(r) + unreachable_spans(r) + signature_spans()
    } else {
        header_spans(r) + score_spans(r) + observed_spans(r) + findings_spans(r) + meaning_spans(r)
            + direction_spans(r) + signature_spans()
    }
}

/// The text of the spans, without emphasis.
pub open spec fn plain(spans: Seq<SpanView>) -> Seq<char>
    decreases spans.len(),
{
    if spans.len() == 0 {
        seq![]
    } else {
        plain(spans.drop_last()) + spans.last().text
    }
}

// ─────────────────────────── executable code ───────────────────────────

/// Appends a span.
fn push_span(out: &mut Vec<Span>, text: String, paint: Paint)
    ensures
        spans_of(final(out)@) == spans_of(old(out)@).push(sp(text@, paint)),
{
    let ghost t = text@;
    out.push(Span { text, paint });
    assert(spans_of(out@) =~= spans_of(old(out)@).push(sp(t, paint)));
}

/// Appends a span of literal text.
fn push_lit(out: &mut Vec<Span>, text: &str, paint: Paint)
    ensures
        spans_of(final(out)@) == spans_of(old(out)@).push(sp(text@, paint)),
{
    push_span(out, owned(text), paint);
}

/// Appends all of `more`.
fn append_spans(out: &mut Vec<Span>, more: Vec<Span>)
    ensures
        spans_of(final(out)@) == spans_of(old(out)@) + spans_of(more@),
{
    let mut more = more;
    let ghost start = spans_of(out@);
    let ghost tail = spans_of(more@);
    out.append(&mut more);
    assert(spans_of(out@) =~= start + tail);
}

/// The horizontal rule.
fn rule() -> (res: String)
    ensures
        res@ == rule_text(),
{
    let mut s = String::new();
    for i in 0..56
        invariant
            s@ == Seq::new(i as nat, |j: int| '─'),
    {
        crate::text::push_char(&mut s, '─');
        assert(s@ =~= Seq::new((i + 1) as nat, |j: int| '─'));
    }
    s
}

/// The emphasis of a risk level's label.
pub fn level_paint(level: &RiskLevel) -> (res: Paint)
    ensures
        res == level_paint_of(*level),
{
    match level {
        RiskLevel::Critical => Paint::BoldRed,
        RiskLevel::High => Paint::BoldBrightRed,
        RiskLevel::Medium => Paint::BoldYellow,
        RiskLevel::Low => Paint::BrightYellow,
        RiskLevel::Pass => Paint::BoldGreen,
        RiskLevel::Unknown => Paint::Dimmed,
    }
}

/// The one-line advice printed under the score.
pub fn level_tagline(level: &RiskLevel) -> (res: &'static str)
    ensures
        res@ == tagline_of(*level),
{
    match level {
        RiskLevel::Critical => "Immediate action required — quantum-vulnerable cryptography in active use.",
        RiskLevel::High => "Urgent — begin post-quantum migration planning now.",
        RiskLevel::Medium => "Plan a post-quantum migration within roughly six months.",
        RiskLevel::Low => "Largely sound — monitor posture and prepare a migration plan.",
        RiskLevel::Pass => "Meets current post-quantum readiness guidance.",
        RiskLevel::Unknown => "The endpoint could not be assessed.",
    }
}

/// The wordmark shown atop every text report.
pub fn banner() -> (res: Vec<Span>)
    ensures
        spans_of(res@) == banner_spans(),
{
    let mut out: Vec<Span> = Vec::new();
    push_lit(&mut out, BANNER_ART, Paint::BoldCyan);
    push_lit(&mut out, "\n  ", Paint::Plain);
    push_lit(&mut out, BANNER_TITLE, Paint::BrightCyan);
    push_lit(&mut out, "\n  ", Paint::Plain);
    push_lit(&mut out, BANNER_MOTTO, Paint::Dimmed);
    push_lit(&mut out, "\n\n", Paint::Plain);
    assert(spans_of(out@) =~= banner_spans());
    out
}

/// The maker's mark printed at the foot of every text report.
pub fn signature() -> (res: Vec<Span>)
    ensures
        spans_of(res@) == signature_spans(),
{
    let mut out: Vec<Span> = Vec::new();
    push_lit(&mut out, "\n", Paint::Plain);
    push_span(&mut out, rule(), Paint::Dimmed);
    push_lit(&mut out, "\n ", Paint::Plain);
    push_lit(&mut out, "Made by", Paint::Dimmed);
    push_lit(&mut out, " ", Paint::Plain);
    push_lit(&mut out, "Koleen BP", Paint::Bold);
    push_lit(&mut out, "\n ", Paint::Plain);
    push_lit(&mut out, "BPxAI", Paint::Bold);
    push_lit(&mut out, " · ", Paint::Plain);
    push_lit(&mut out, "bpxai.com", Paint::Cyan);
    push_lit(&mut out, " · ", Paint::Plain);
    push_lit(&mut out, "koleenbp.com", Paint::Cyan);
    push_lit(&mut out, "\n", Paint::Plain);
    push_span(&mut out, rule(), Paint::Dimmed);
    push_lit(&mut out, "\n", Paint::Plain);
    assert(spans_of(out@) =~= signature_spans());
    out
}

fn header(r: &ScanReport) -> (res: Vec<Span>)
    ensures
        spans_of(res@) == header_spans(*r),
{
    let mut out = banner();
    let ghost start = spans_of(out@);
    push_span(&mut out, rule(), Paint::Dimmed);
    push_lit(&mut out, "\n ", Paint::Plain);
    push_lit(&mut out, "Target ", Paint::Bold);
    push_lit(&mut out, "   ", Paint::Plain);
    push_span(&mut out, r.target.domain.clone(), Paint::Bold);
    let mut s = owned(":");
    push_decimal(&mut s, r.target.port as u64);
    push_str(&mut s, "\n ");
    push_span(&mut out, s, Paint::Plain);
    push_lit(&mut out, "Scanned", Paint::Bold);
    let mut s = owned("  ");
    push_str(&mut s, r.target.scanned_at.as_str());
    push_str(&mut s, "  (");
    push_decimal(&mut s, r.target.scan_duration_ms);
    push_str(&mut s, " ms)\n");
    push_span(&mut out, s, Paint::Plain);
    push_span(&mut out, rule(), Paint::Dimmed);
    push_lit(&mut out, "\n", Paint::Plain);
    assert(spans_of(out@) =~= header_spans(*r));
    out
}

/// What is printed in place of a grade when no probe answered.
pub fn render_unreachable(r: &ScanReport) -> (res: Vec<Span>)
    ensures
        spans_of(res@) == unreachable_spans(*r),
{
    let mut out: Vec<Span> = Vec::new();
    push_lit(&mut out, "\n ", Paint::Plain);
    push_lit(&mut out, "Scan incomplete:", Paint::BoldYellow);
    let mut s = owned(" could not complete a TLS handshake with ");
    push_str(&mut s, r.target.domain.as_str());
    push_str(&mut s, ":");
    push_decimal(&mut s, r.target.port as u64);
    push_str(&mut s, ".\n\n");
    push_str(&mut s, UNREACHABLE_CAUSES);
    push_str(&mut s, "\n ");
    push_span(&mut out, s, Paint::Plain);
    push_lit(&mut out, "Tip:", Paint::BoldCyan);
    push_lit(&mut out, "  use a bare hostname such as ", Paint::Plain);
    push_lit(&mut out, "example.com", Paint::Cyan);
    push_lit(&mut out, " and confirm the port is serving HTTPS.\n", Paint::Plain);
    assert(spans_of(out@) =~= unreachable_spans(*r));
    out
}

fn score_section(r: &ScanReport) -> (res: Vec<Span>)
    ensures
        spans_of(res@) == score_spans(*r),
{
    let level = r.risk_score.level;
    let mut out: Vec<Span> = Vec::new();
    push_lit(&mut out, "\n ", Paint::Plain);
    push_lit(&mut out, "Risk score", Paint::Bold);
    push_lit(&mut out, "   ", Paint::Plain);
    let mut v = String::new();
    push_decimal(&mut v, r.risk_score.value as u64);
    push_span(&mut out, v, Paint::Bold);
    push_lit(&mut out, "/100", Paint::Dimmed);
    push_lit(&mut out, "   ", Paint::Plain);
    push_lit(&mut out, level.label(), level_paint(&level));
    push_lit(&mut out, "\n   ", Paint::Plain);
    push_lit(&mut out, level_tagline(&level), Paint::Dimmed);
    push_lit(&mut out, "\n", Paint::Plain);
    let ghost first = spans_of(out@);
    if r.risk_score.harvest_risk {
        push_lit(&mut out, " ", Paint::Plain);
        push_lit(&mut out, HARVEST_HEADLINE, Paint::BoldRed);
        push_lit(&mut out, "\n   ", Paint::Plain);
        push_lit(&mut out, HARVEST_EXPLANATION, Paint::Red);
        push_lit(&mut out, "\n", Paint::Plain);
    }
    let ghost second = spans_of(out@);
    push_lit(&mut out, " ", Paint::Plain);
    push_lit(&mut out, "Quantum-ready:", Paint::Bold);
    push_lit(&mut out, "  ", Paint::Plain);
    if r.quantum_ready {
        push_lit(&mut out, "yes", Paint::BoldGreen);
    } else {
        push_lit(&mut out, "no", Paint::BoldRed);
    }
    push_lit(&mut out, "\n", Paint::Plain);
    assert(spans_of(out@) =~= score_spans(*r));
    out
}

fn missing(label: &str, gap: &str) -> (res: Vec<Span>)
    ensures
        spans_of(res@) == missing_spans(label@, gap@),
{
    let mut out: Vec<Span> = Vec::new();
    push_lit(&mut out, "   ", Paint::Plain);
    push_lit(&mut out, label, Paint::BoldCyan);
    push_lit(&mut out, gap, Paint::Plain);
    push_lit(&mut out, "not available", Paint::Dimmed);
    push_lit(&mut out, "\n", Paint::Plain);
    assert(spans_of(out@) =~= missing_spans(label@, gap@));
    out
}

fn push_switch(out: &mut Vec<Span>, on: bool)
    ensures
        spans_of(final(out)@) == spans_of(old(out)@).push(switch_span(on)),
{
    if on {
        push_lit(out, "on", Paint::Green);
    } else {
        push_lit(out, "off", Paint::Yellow);
    }
}

fn observed_section(r: &ScanReport) -> (res: Vec<Span>)
    ensures
        spans_of(res@) == observed_spans(*r),
{
    let mut out: Vec<Span> = Vec::new();
    push_lit(&mut out, "\n ", Paint::Plain);
    push_lit(&mut out, "What we observed", Paint::BoldUnderline);
    push_lit(&mut out, "\n", Paint::Plain);
    let ghost s0 = spans_of(out@);
    match &r.tls {
        Some(t) => {
            push_lit(&mut out, "   ", Paint::Plain);
            push_lit(&mut out, "TLS ", Paint::BoldCyan);
            let mut s = owned("   ");
            push_str(&mut s, t.protocol_version.as_str());
            push_str(&mut s, " · ");
            push_str(&mut s, t.cipher_suite.as_str());
            push_str(&mut s, " · kx=");
            push_str(&mut s, t.key_exchange.as_str());
            push_str(&mut s, "\n");
            push_span(&mut out, s, Paint::Plain);
            assert(spans_of(out@) =~= s0 + tls_spans(r.tls));
        },
        None => {
            append_spans(&mut out, missing("TLS ", "   "));
        },
    }
    let ghost s1 = spans_of(out@);
    match &r.certificate {
        Some(c) => {
            push_lit(&mut out, "   ", Paint::Plain);
            push_lit(&mut out, "Cert", Paint::BoldCyan);
            let mut s = owned("  ");
            push_str(&mut s, c.subject.as_str());
            push_str(&mut s, " · ");
            push_str(&mut s, c.key_algorithm.as_str());
            push_str(&mut s, " · ");
            push_str(&mut s, c.signature_algorithm.as_str());
            push_str(&mut s, " · expires in ");
            push_signed_decimal(&mut s, c.days_remaining);
            push_str(&mut s, " days\n");
            push_span(&mut out, s, Paint::Plain);
            assert(spans_of(out@) =~= s1 + cert_spans(r.certificate));
        },
        None => {
            append_spans(&mut out, missing("Cert", "  "));
        },
    }
    let ghost s2 = spans_of(out@);
    match &r.http {
        Some(h) => {
            push_lit(&mut out, "   ", Paint::Plain);
            push_lit(&mut out, "HTTP", Paint::BoldCyan);
            push_lit(&mut out, "  HSTS ", Paint::Plain);
            push_switch(&mut out, h.hsts_enabled);
            push_lit(&mut out, " · CSP ", Paint::Plain);
            push_switch(&mut out, h.csp_present);
            let mut s = owned(" · server ");
            match &h.server_header {
                Some(v) => push_str(&mut s, v.as_str()),
                None => push_str(&mut s, "—"),
            }
            push_str(&mut s, "\n");
            push_span(&mut out, s, Paint::Plain);
            assert(spans_of(out@) =~= s2 + http_spans(r.http));
        },
        None => {
            append_spans(&mut out, missing("HTTP", "  "));
        },
    }
    assert(spans_of(out@) =~= observed_spans(*r));
    out
}

fn vulnerability_lines(v: &Vulnerability) -> (res: Vec<Span>)
    ensures
        spans_of(res@) == vulnerability_spans(*v),
{
    let mut out: Vec<Span> = Vec::new();
    push_lit(&mut out, "   [", Paint::Plain);
    push_lit(&mut out, v.severity.label(), level_paint(&v.severity));
    push_lit(&mut out, "] ", Paint::Plain);
    push_span(&mut out, v.title.clone(), Paint::Bold);
    push_lit(&mut out, "\n", Paint::Plain);
    let ghost first = spans_of(out@);
    let ghost description: Seq<SpanView> = if v.description@.len() > 0 {
        seq![
            sp("        "@, Paint::Plain),
            sp(v.description@, Paint::Dimmed),
            sp("\n"@, Paint::Plain),
        ]
    } else {
        seq![]
    };
    if v.description.unicode_len() > 0 {
        push_lit(&mut out, "        ", Paint::Plain);
        push_span(&mut out, v.description.clone(), Paint::Dimmed);
        push_lit(&mut out, "\n", Paint::Plain);
    }
    assert(spans_of(out@) =~= first + description);
    let ghost second = spans_of(out@);
    let mut s = owned("ref ");
    push_str(&mut s, v.nist_reference.as_str());
    push_str(&mut s, " · CVSS≈");
    push_decimal(&mut s, (v.cvss_tenths / 10) as u64);
    push_str(&mut s, ".");
    push_decimal(&mut s, (v.cvss_tenths % 10) as u64);
    assert(s@ =~= "ref "@ + v.nist_reference@ + " · CVSS≈"@ + tenths_text(v.cvss_tenths));
    push_lit(&mut out, "        ", Paint::Plain);
    push_span(&mut out, s, Paint::Dimmed);
    push_lit(&mut out, "\n", Paint::Plain);
    assert(spans_of(out@) =~= second + seq![
        sp("        "@, Paint::Plain),
        sp("ref "@ + v.nist_reference@ + " · CVSS≈"@ + tenths_text(v.cvss_tenths), Paint::Dimmed),
        sp("\n"@, Paint::Plain),
    ]);
    out
}

fn findings_section(r: &ScanReport) -> (res: Vec<Span>)
    ensures
        spans_of(res@) == findings_spans(*r),
{
    let vs = &r.vulnerabilities;
    let mut out: Vec<Span> = Vec::new();
    push_lit(&mut out, "\n ", Paint::Plain);
    push_lit(&mut out, "Findings", Paint::BoldUnderline);
    push_lit(&mut out, " ", Paint::Plain);
    let mut n = owned("(");
    push_decimal(&mut n, vs.len() as u64);
    push_str(&mut n, ")");
    push_span(&mut out, n, Paint::Dimmed);
    push_lit(&mut out, "\n", Paint::Plain);
    let ghost head = spans_of(out@);
    if vs.len() == 0 {
        push_lit(&mut out, "   ", Paint::Plain);
        push_lit(&mut out, "No quantum-vulnerable cryptography detected.", Paint::Green);
        push_lit(&mut out, "\n", Paint::Plain);
    } else {
        for i in 0..vs.len()
            invariant
                spans_of(out@) == head + vulnerability_list_spans(vs@.take(i as int)),
        {
            assert(vs@.take(i + 1).drop_last() =~= vs@.take(i as int));
            let ghost before = spans_of(out@);
            append_spans(&mut out, vulnerability_lines(&vs[i]));
            assert(spans_of(out@) =~= head + vulnerability_list_spans(vs@.take(i + 1)));
        }
        assert(vs@.take(vs.len() as int) =~= vs@);
    }
    assert(spans_of(out@) =~= findings_spans(*r));
    out
}

fn meaning_section(r: &ScanReport) -> (res: Vec<Span>)
    ensures
        spans_of(res@) == meaning_spans(*r),
{
    let mut out: Vec<Span> = Vec::new();
    push_lit(&mut out, "\n ", Paint::Plain);
    push_lit(&mut out, "What this means for you", Paint::BoldUnderline);
    let mut s = owned("\n   ");
    push_str(&mut s, r.summary.as_str());
    push_str(&mut s, "\n");
    push_span(&mut out, s, Paint::Plain);
    assert(spans_of(out@) =~= meaning_spans(*r));
    out
}

fn bullets(actions: &Vec<String>, shown: usize) -> (res: Vec<Span>)
    requires
        shown <= actions@.len(),
    ensures
        spans_of(res@) == bullet_spans(string_views(actions@).take(shown as int)),
{
    let ghost d = string_views(actions@);
    let mut out: Vec<Span> = Vec::new();
    for i in 0..shown
        invariant
            shown <= actions@.len(),
            d == string_views(actions@),
            spans_of(out@) == bullet_spans(d.take(i as int)),
    {
        assert(d.take(i + 1).drop_last() =~= d.take(i as int));
        assert(d.take(i + 1).last() == actions@[i as int]@);
        let ghost before = spans_of(out@);
        push_lit(&mut out, "   ", Paint::Plain);
        push_lit(&mut out, "•", Paint::Cyan);
        let mut s = owned(" ");
        push_str(&mut s, actions[i].as_str());
        push_str(&mut s, "\n");
        push_span(&mut out, s, Paint::Plain);
        assert(spans_of(out@) =~= before + seq![
            sp("   "@, Paint::Plain),
            sp("•"@, Paint::Cyan),
            sp(" "@ + d.take(i + 1).last() + "\n"@, Paint::Plain),
        ]);
    }
    out
}

fn roadmap_pointer() -> (res: Vec<Span>)
    ensures
        spans_of(res@) == seq![
            sp("\n   "@, Paint::Plain),
            sp(ROADMAP_LINE_1@, Paint::Dimmed),
            sp("\n   "@, Paint::Plain),
            sp(ROADMAP_LINE_2@, Paint::Dimmed),
            sp("\n   "@, Paint::Plain),
            sp("→"@, Paint::BoldCyan),
            sp("  "@, Paint::Plain),
            sp(ROADMAP_URL@, Paint::CyanUnderline),
            sp("\n"@, Paint::Plain),
        ],
{
    let mut out: Vec<Span> = Vec::new();
    push_lit(&mut out, "\n   ", Paint::Plain);
    push_lit(&mut out, ROADMAP_LINE_1, Paint::Dimmed);
    push_lit(&mut out, "\n   ", Paint::Plain);
    push_lit(&mut out, ROADMAP_LINE_2, Paint::Dimmed);
    push_lit(&mut out, "\n   ", Paint::Plain);
    push_lit(&mut out, "→", Paint::BoldCyan);
    push_lit(&mut out, "  ", Paint::Plain);
    push_lit(&mut out, ROADMAP_URL, Paint::CyanUnderline);
    push_lit(&mut out, "\n", Paint::Plain);
    assert(spans_of(out@) =~= seq![
        sp("\n   "@, Paint::Plain),
        sp(ROADMAP_LINE_1@, Paint::Dimmed),
        sp("\n   "@, Paint::Plain),
        sp(ROADMAP_LINE_2@, Paint::Dimmed),
        sp("\n   "@, Paint::Plain),
        sp("→"@, Paint::BoldCyan),
        sp("  "@, Paint::Plain),
        sp(ROADMAP_URL@, Paint::CyanUnderline),
        sp("\n"@, Paint::Plain),
    ]);
    out
}

fn direction_section(r: &ScanReport) -> (res: Vec<Span>)
    ensures
        spans_of(res@) == direction_spans(*r),
{
    let mut out: Vec<Span> = Vec::new();
    if r.recommendations.len() == 0 {
        assert(spans_of(out@) =~= direction_spans(*r));
        return out;
    }
    let distinct = distinct_actions(&r.recommendations);
    let ghost d = string_views(distinct@);
    let shown: usize = if distinct.len() > 3 {
        3
    } else {
        distinct.len()
    };
    assert(d.take(shown as int) =~= (if d.len() > 3 {
        d.take(3)
    } else {
        d
    }));
    push_lit(&mut out, "\n ", Paint::Plain);
    push_lit(&mut out, "Recommended direction", Paint::BoldUnderline);
    push_lit(&mut out, "\n", Paint::Plain);
    let ghost head = spans_of(out@);
    append_spans(&mut out, bullets(&distinct, shown));
    let ghost mid = spans_of(out@);
    let ghost more: Seq<SpanView> = if d.len() > 3 {
        seq![
            sp("   "@, Paint::Plain),
            sp("(+"@ + decimal((d.len() - 3) as nat) + " more)"@, Paint::Dimmed),
            sp("\n"@, Paint::Plain),
        ]
    } else {
        seq![]
    };
    if distinct.len() > 3 {
        push_lit(&mut out, "   ", Paint::Plain);
        let mut s = owned("(+");
        push_decimal(&mut s, (distinct.len() - 3) as u64);
        push_str(&mut s, " more)");
        push_span(&mut out, s, Paint::Dimmed);
        push_lit(&mut out, "\n", Paint::Plain);
    }
    assert(spans_of(out@) =~= mid + more);
    append_spans(&mut out, roadmap_pointer());
    out
}

/// The text report of a scan: header, then either why the target could not
/// be assessed or the score, the observations, the findings, their meaning
/// and the remediation teaser; then the maker's mark.
pub fn render_text(r: &ScanReport) -> (res: Vec<Span>)
    ensures
        spans_of(res@) == text_report(*r),
{
    let mut out = header(r);
    if r.is_unreachable() {
        append_spans(&mut out, render_unreachable(r));
        append_spans(&mut out, signature());
        return out;
    }
    append_spans(&mut out, score_section(r));
    append_spans(&mut out, observed_section(r));
    append_spans(&mut out, findings_section(r));
    append_spans(&mut out, meaning_section(r));
    append_spans(&mut out, direction_section(r));
    append_spans(&mut out, signature());
    out
}

/// The text of the spans, without emphasis.
pub fn plain_text(spans: &Vec<Span>) -> (res: String)
    ensures
        res@ == plain(spans_of(spans@)),
{
    let ghost v = spans_of(spans@);
    let mut s = String::new();
    for i in 0..spans.len()
        invariant
            v == spans_of(spans@),
            s@ == plain(v.take(i as int)),
    {
        assert(v.take(i + 1).drop_last() =~= v.take(i as int));
        push_str(&mut s, spans[i].text.as_str());
    }
    assert(v.take(spans.len() as int) =~= v);
    s
}

} // verus!
