//! The decisions of the `ronway` command line: reading targets, the exit
//! code that fails a CI pipeline on a high score, and what monitoring prints when a score
//! changes.

use vstd::prelude::*;

use crate::models::report::ScanReport;
use crate::models::risk::{level_label, RiskLevel};
use crate::target::{normalized_target, split_target_chars, TargetError, TargetFault};
use crate::text::{
    chars_of, decimal, owned, push_chars, push_decimal, push_str, split_chars, split_on,
    string_of, string_views, trim, trim_chars,
};

verus! {

/// Scores at or above this fail a CI pipeline.
pub const FAIL_SCORE: u8 = 60;
/// Scans run at once by `bulk` unless told otherwise.
pub const DEFAULT_BULK_CONCURRENCY: usize = 8;
/// Port scanned when a target names none.
pub const DEFAULT_SCAN_PORT: u16 = 443;
/// Exit code of a scan whose score stays under the failure threshold.
pub const EXIT_PASS: u8 = 0;
/// Exit code of a scan whose score reaches the failure threshold.
pub const EXIT_OVER_THRESHOLD: u8 = 1;
/// Exit code of a run that could not assess its target.
pub const EXIT_SETUP_ERROR: u8 = 2;

/// Host and optional inline port of a user-supplied target. A scheme
/// (`https://`, `http://`) and any path, query or fragment are dropped, so
/// `https://example.com/foo`, `example.com` and `example.com:8443` all name
/// the host `example.com`.
pub fn normalize_target(raw: &str) -> (res: Result<(String, Option<u16>), TargetError>)
    ensures
        res matches Ok((h, p)) ==> normalized_target(raw@) == Ok::<
            (Seq<char>, Option<u16>),
            TargetFault,
        >((h@, p)),
        res matches Err(e) ==> normalized_target(raw@) == Err::<
            (Seq<char>, Option<u16>),
            TargetFault,
        >(e@),
{
    let raw_chars = chars_of(raw);
    let t = trim_chars(raw_chars.as_slice());
    if t.len() == 0 {
        return Err(TargetError::Empty);
    }
    match split_target_chars(t.as_slice()) {
        Ok((h, p)) => Ok((string_of(h.as_slice()), p)),
        Err(e) => Err(e),
    }
}

/// The message reported for a target that could not be read.
pub open spec fn target_error_message(f: TargetFault, raw: Seq<char>) -> Seq<char> {
    match f {
        TargetFault::Empty => "target is required"@,
        TargetFault::NoHost => "target '"@ + raw + "' has no host"@,
        TargetFault::Ipv6Unsupported => "IPv6 targets are not supported in v1: "@ + raw,
        TargetFault::InvalidPort(_) => "invalid port in target '"@ + raw + "'"@,
        TargetFault::ZeroPort => "port must be greater than 0 in target '"@ + raw + "'"@,
    }
}

impl TargetError {
    /// The message reported for this error on the target `raw`.
    pub fn message(&self, raw: &str) -> (res: String)
        ensures
            res@ == target_error_message(self@, raw@),
    {
        match self {
            TargetError::Empty => owned("target is required"),
            TargetError::NoHost => {
                let mut s = owned("target '");
                push_str(&mut s, raw);
                push_str(&mut s, "' has no host");
                s
            },
            TargetError::Ipv6Unsupported => {
                let mut s = owned("IPv6 targets are not supported in v1: ");
                push_str(&mut s, raw);
                s
            },
            TargetError::InvalidPort(_) => {
                let mut s = owned("invalid port in target '");
                push_str(&mut s, raw);
                push_str(&mut s, "'");
                s
            },
            TargetError::ZeroPort => {
                let mut s = owned("port must be greater than 0 in target '");
                push_str(&mut s, raw);
                push_str(&mut s, "'");
                s
            },
        }
    }
}

/// Host and port of one line of a bulk targets file: the port given inline,
/// else 443.
pub fn parse_target_line(line: &str) -> (res: Result<(String, u16), TargetError>)
    ensures
        res matches Ok((h, p)) ==> target_of_line(line@) == Some((h@, p)),
        res matches Err(e) ==> normalized_target(line@) == Err::<
            (Seq<char>, Option<u16>),
            TargetFault,
        >(e@),
{
    match normalize_target(line) {
        Ok((h, p)) => {
            let port = match p {
                Some(q) => q,
                None => DEFAULT_SCAN_PORT,
            };
            Ok((h, port))
        },
        Err(e) => Err(e),
    }
}

/// Host and port named by one line of a targets file: the inline port,
/// else 443.
pub open spec fn target_of_line(line: Seq<char>) -> Option<(Seq<char>, u16)> {
    match normalized_target(line) {
        Ok((h, p)) => Some(
            (
                h,
                match p {
                    Some(q) => q,
                    None => 443u16,
                },
            ),
        ),
        Err(_) => None,
    }
}

/// A line of a targets file names a target: it is not blank and is not a
/// `#` comment.
pub open spec fn is_target_line(line: Seq<char>) -> bool {
    let t = trim(line);
    t.len() > 0 && t[0] != '#'
}

/// The lines of a targets file that name targets, trimmed, in order.
pub open spec fn target_lines(contents: Seq<char>) -> Seq<Seq<char>> {
    split_on(contents, '\n').filter(|l: Seq<char>| is_target_line(l)).map_values(
        |l: Seq<char>| trim(l),
    )
}

/// The trimmed lines of a targets file that name targets: blank lines and
/// lines starting with `#` are skipped.
pub fn bulk_target_lines(contents: &str) -> (res: Vec<String>)
    ensures
        string_views(res@) == target_lines(contents@),
{
    let chars = chars_of(contents);
    let lines = split_chars(chars.as_slice(), '\n');
    let ghost views = lines@.map_values(|p: Vec<char>| p@);
    let mut out: Vec<String> = Vec::new();
    for i in 0..lines.len()
        invariant
            views == lines@.map_values(|p: Vec<char>| p@),
            views == split_on(contents@, '\n'),
            string_views(out@) == views.take(i as int).filter(|l: Seq<char>| is_target_line(l)).map_values(
                |l: Seq<char>| trim(l),
            ),
    {
        let ghost before = out@;
        let t = trim_chars(lines[i].as_slice());
        assert(views.take(i + 1).drop_last() =~= views.take(i as int));
        assert(views[i as int] == lines@[i as int]@);
        reveal(Seq::filter);
        if t.len() > 0 && t[0] != '#' {
            out.push(string_of(t.as_slice()));
            assert(string_views(out@) =~= string_views(before).push(t@));
        }
    }
    assert(views.take(lines.len() as int) =~= views);
    out
}

/// Why a targets file could not be used.
#[derive(Clone, Debug)]
pub enum BulkError {
    /// A line does not name a target; the line and why.
    BadLine(String, TargetError),
    /// No line names a target.
    NoTargets,
}

/// Every target of a targets file with its port, in file order; the first
/// unreadable line is the error, and a file without targets is refused.
pub fn parse_bulk_targets(contents: &str) -> (res: Result<Vec<(String, u16)>, BulkError>)
    ensures
        res matches Ok(ts) ==> ts@.len() == target_lines(contents@).len() && ts@.len() > 0
            && forall|i: int|
            0 <= i < ts@.len() ==> #[trigger] target_of_line(target_lines(contents@)[i]) == Some(
                (ts@[i].0@, ts@[i].1),
            ),
        res matches Err(BulkError::BadLine(l, e)) ==> exists|i: int|
            0 <= i < target_lines(contents@).len() && target_lines(contents@)[i] == l@
                && normalized_target(l@) == Err::<(Seq<char>, Option<u16>), TargetFault>(e@)
                && forall|j: int|
                0 <= j < i ==> #[trigger] target_of_line(target_lines(contents@)[j]) is Some,
        res matches Err(BulkError::NoTargets) ==> target_lines(contents@).len() == 0,
{
    let lines = bulk_target_lines(contents);
    let ghost tl = target_lines(contents@);
    let mut targets: Vec<(String, u16)> = Vec::new();
    for i in 0..lines.len()
        invariant
            string_views(lines@) == tl,
            tl == target_lines(contents@),
            targets@.len() == i,
            forall|k: int|
                0 <= k < i ==> #[trigger] target_of_line(tl[k]) == Some(
                    (targets@[k].0@, targets@[k].1),
                ),
    {
        assert(tl[i as int] == lines@[i as int]@);
        match parse_target_line(lines[i].as_str()) {
            Ok(pair) => {
                targets.push(pair);
            },
            Err(e) => {
                assert(forall|j: int| 0 <= j < i ==> #[trigger] target_of_line(tl[j]) is Some);
                let line = string_of(chars_of(lines[i].as_str()).as_slice());
                assert(tl[i as int] == line@);
                return Err(BulkError::BadLine(line, e));
            },
        }
    }
    if targets.len() == 0 {
        return Err(BulkError::NoTargets);
    }
    Ok(targets)
}

/// The exit code for a risk score: scores of 60 and above fail.
pub open spec fn exit_code_for_score(score: u8) -> u8 {
    if score >= 60 {
        1
    } else {
        0
    }
}

/// The exit code for a risk score: 1 fails a CI pipeline (60 and above), 0 passes.
pub fn exit_for_score(score: u8) -> (res: u8)
    ensures
        res == exit_code_for_score(score),
{
    if score >= FAIL_SCORE {
        EXIT_OVER_THRESHOLD
    } else {
        EXIT_PASS
    }
}

/// The exit code of a single scan: 2 when the target could not be reached
/// (an operational failure, not a verdict), else the code for its score.
pub fn scan_exit_code(report: &ScanReport) -> (res: u8)
    ensures
        res == if report.tls is None && report.certificate is None && report.http is None {
            2u8
        } else {
            exit_code_for_score(report.risk_score.value)
        },
{
    if report.is_unreachable() {
        EXIT_SETUP_ERROR
    } else {
        exit_for_score(report.risk_score.value)
    }
}

/// The higher of two scores.
pub open spec fn worse(worst: u8, score: u8) -> u8 {
    if score > worst {
        score
    } else {
        worst
    }
}

/// The highest of the scores seen so far and `score`.
pub fn worse_score(worst: u8, score: u8) -> (res: u8)
    ensures
        res == worse(worst, score),
{
    if score > worst {
        score
    } else {
        worst
    }
}

/// The worst score of a batch: `worse` folded over its scores from 0, in
/// the order they come in.
pub open spec fn batch_worst(scores: Seq<u8>) -> u8
    decreases scores.len(),
{
    if scores.len() == 0 {
        0
    } else {
        worse(batch_worst(scores.drop_last()), scores.last())
    }
}

/// A batch fails the build exactly when one of its targets scored 60 or
/// more: its worst score is at least every score, is one of them when there
/// is any, and its exit code is 1 if and only if some score reaches 60.
pub proof fn law_batch_fails_iff_a_target_fails(scores: Seq<u8>)
    ensures
        forall|i: int| 0 <= i < scores.len() ==> #[trigger] scores[i] <= batch_worst(scores),
        scores.len() > 0 ==> scores.contains(batch_worst(scores)),
        exit_code_for_score(batch_worst(scores)) == 1 <==> exists|i: int|
            0 <= i < scores.len() && #[trigger] scores[i] >= 60,
    decreases scores.len(),
{
    if scores.len() > 0 {
        let prefix = scores.drop_last();
        law_batch_fails_iff_a_target_fails(prefix);
        let w = batch_worst(scores);
        assert forall|i: int| 0 <= i < scores.len() implies #[trigger] scores[i] <= w by {
            if i < prefix.len() {
                assert(scores[i] == prefix[i]);
            }
        }
        if scores.last() > batch_worst(prefix) {
            assert(scores[scores.len() - 1] == w);
        } else if prefix.len() > 0 {
            let k = choose|k: int| 0 <= k < prefix.len() && prefix[k] == batch_worst(prefix);
            assert(scores[k] == w);
        } else {
            assert(scores[0] == w);
        }
        if exit_code_for_score(w) == 1 {
            let k = choose|k: int| 0 <= k < scores.len() && scores[k] == w;
            assert(scores[k] >= 60);
        }
    }
}

/// What monitoring prints after a scan: the first score, a change, or that
/// the score held.
pub open spec fn monitor_text(
    now: Seq<char>,
    target: Seq<char>,
    previous: Option<u8>,
    score: u8,
    level: RiskLevel,
) -> Seq<char> {
    let head = "["@ + now + "] "@ + target;
    match previous {
        None => head + " → score="@ + decimal(score as nat) + "/100 ("@ + level_label(level) + ")"@,
        Some(prev) => if prev != score {
            head + " → score changed "@ + decimal(prev as nat) + " → "@ + decimal(score as nat)
                + " ("@ + level_label(level) + ")"@
        } else {
            head + " → score unchanged ("@ + decimal(score as nat) + "/100)"@
        },
    }
}

/// The line monitoring prints at `now` for a scan of `target` that scored
/// `score` at `level`, given the score of the previous scan, if any.
pub fn monitor_line(now: &str, target: &str, previous: Option<u8>, score: u8, level: RiskLevel) -> (res:
    String)
    ensures
        res@ == monitor_text(now@, target@, previous, score, level),
{
    let mut s = owned("[");
    push_str(&mut s, now);
    push_str(&mut s, "] ");
    push_str(&mut s, target);
    match previous {
        None => {
            push_str(&mut s, " → score=");
            push_decimal(&mut s, score as u64);
            push_str(&mut s, "/100 (");
            push_str(&mut s, level.label());
            push_str(&mut s, ")");
        },
        Some(prev) => {
            if prev != score {
                push_str(&mut s, " → score changed ");
                push_decimal(&mut s, prev as u64);
                push_str(&mut s, " → ");
                push_decimal(&mut s, score as u64);
                push_str(&mut s, " (");
                push_str(&mut s, level.label());
                push_str(&mut s, ")");
            } else {
                push_str(&mut s, " → score unchanged (");
                push_decimal(&mut s, score as u64);
                push_str(&mut s, "/100)");
            }
        },
    }
    s
}

/// Concurrency used by `bulk`: as requested, but at least one.
pub fn bulk_concurrency(requested: usize) -> (res: usize)
    ensures
        res == if requested == 0 {
            1
        } else {
            requested
        },
{
    if requested == 0 {
        1
    } else {
        requested
    }
}

/// `n` spaces.
pub open spec fn spaces(n: int) -> Seq<char> {
    Seq::new(if n > 0 { n as nat } else { 0 }, |i: int| ' ')
}

/// The summary line `bulk` prints for one target: the score right-aligned
/// in three columns, the level label left-aligned in eight, then the target.
pub open spec fn bulk_text(score: u8, level: RiskLevel, host: Seq<char>, port: u16) -> Seq<char> {
    let digits = decimal(score as nat);
    let label = level_label(level);
    spaces(3 - digits.len()) + digits + "/100  "@ + label + spaces(8 - label.len()) + "  "@ + host
        + ":"@ + decimal(port as nat)
}

fn push_spaces(s: &mut String, n: usize)
    ensures
        final(s)@ == old(s)@ + spaces(n as int),
{
    let ghost start = s@;
    for i in 0..n
        invariant
            s@ == start + spaces(i as int),
    {
        crate::text::push_char(s, ' ');
        assert(s@ =~= start + spaces(i + 1));
    }
}

/// The summary line `bulk` prints for one scanned target.
pub fn bulk_line(score: u8, level: RiskLevel, host: &str, port: u16) -> (res: String)
    ensures
        res@ == bulk_text(score, level, host@, port),
{
    let digits = crate::text::decimal_chars(score as u64);
    let label = level.label();
    let label_len = label.unicode_len();
    let mut s = String::new();
    if digits.len() < 3 {
        push_spaces(&mut s, 3 - digits.len());
    } else {
        push_spaces(&mut s, 0);
    }
    assert(s@ =~= spaces(3 - digits@.len()));
    push_chars(&mut s, digits.as_slice());
    push_str(&mut s, "/100  ");
    push_str(&mut s, label);
    let ghost before = s@;
    if label_len < 8 {
        push_spaces(&mut s, 8 - label_len);
    } else {
        push_spaces(&mut s, 0);
    }
    assert(s@ =~= before + spaces(8 - label@.len()));
    push_str(&mut s, "  ");
    push_str(&mut s, host);
    push_str(&mut s, ":");
    push_decimal(&mut s, port as u64);
    s
}

} // verus!
