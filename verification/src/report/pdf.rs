//! Text preparation for the PDF report: the labels and flags it prints, the
//! greedy word-wrap of long lines, and the reduction of text to the
//! characters the PDF's built-in fonts can show.

use vstd::prelude::*;

use vstd::utf8::{
    decode_utf8, encode_utf8, encode_utf8_decode_utf8, encode_utf8_valid_utf8, is_ascii_chars,
    is_ascii_chars_encode_utf8, valid_utf8,
};

use crate::models::finding::{CertFinding, HttpFinding, Recommendation, TlsFinding, Vulnerability};
use crate::models::report::ScanReport;
use crate::models::risk::{level_label, RiskLevel};
use crate::text::{
    chars_of, decimal, is_whitespace, owned, push_char, push_decimal, push_signed_decimal,
    push_str, signed_decimal, split_chars, split_on, string_of, string_views,
};

verus! {

/// Characters per line of body text.
pub const CHARS_PER_LINE_BODY: usize = 95;
/// Characters per line of a title.
pub const CHARS_PER_LINE_TITLE: usize = 60;

/// What `String::from_utf8_lossy` makes of `bytes`.
pub uninterp spec fn utf8_lossy(bytes: Seq<u8>) -> Seq<char>;

/// `String::from_utf8_lossy`: the text the bytes encode, with each invalid
/// sequence replaced by U+FFFD. On valid UTF-8 it is the decoded text.
#[verifier::external_body]
fn lossy_text(bytes: &[u8]) -> (res: String)
    ensures
        res@ == utf8_lossy(bytes@),
        valid_utf8(bytes@) ==> res@ == decode_utf8(bytes@),
{
    String::from_utf8_lossy(bytes).into_owned()
}

// ─────────────────────────── specifications ───────────────────────────

/// The fixed-width tag printed before a vulnerability of level `level`.
pub open spec fn severity_tag(level: RiskLevel) -> Seq<char> {
    match level {
        RiskLevel::Critical => "CRIT"@,
        RiskLevel::High => "HIGH"@,
        RiskLevel::Medium => "MED "@,
        RiskLevel::Low => "LOW "@,
        RiskLevel::Pass => "PASS"@,
        RiskLevel::Unknown => "N/A "@,
    }
}

/// `value`, followed by a `[VULNERABLE]` marker when it is flagged.
pub open spec fn flagged(value: Seq<char>, vulnerable: bool) -> Seq<char> {
    if vulnerable {
        value + "  [VULNERABLE]"@
    } else {
        value
    }
}

/// A character the PDF fonts can show (Latin-1), or `?` in its place.
pub open spec fn latin1_or_mark(c: char) -> char {
    if (c as u32) <= 0xFF {
        c
    } else {
        '?'
    }
}

/// `s` with every character above U+00FF replaced by `?`.
pub open spec fn sanitized(s: Seq<char>) -> Seq<char> {
    s.map_values(|c: char| latin1_or_mark(c))
}

/// Length of a text in bytes of its UTF-8 encoding.
pub open spec fn byte_len(s: Seq<char>) -> nat {
    encode_utf8(s).len()
}

/// `str::split_whitespace`, scanning left to right: the words finished so
/// far and the word in progress.
pub open spec fn word_scan(s: Seq<char>) -> (Seq<Seq<char>>, Seq<char>)
    decreases s.len(),
{
    if s.len() == 0 {
        (seq![], seq![])
    } else {
        let (words, current) = word_scan(s.drop_last());
        let c = s.last();
        if is_whitespace(c) {
            if current.len() > 0 {
                (words.push(current), seq![])
            } else {
                (words, seq![])
            }
        } else {
            (words, current.push(c))
        }
    }
}

/// `str::split_whitespace`: the maximal runs of non-whitespace characters.
pub open spec fn whitespace_words(s: Seq<char>) -> Seq<Seq<char>> {
    let (words, current) = word_scan(s);
    if current.len() > 0 {
        words.push(current)
    } else {
        words
    }
}

/// A word too long for a line, cut into runs of `max` bytes of its UTF-8
/// encoding, each run read back as text.
pub open spec fn hard_break(bytes: Seq<u8>, max: nat) -> Seq<Seq<char>>
    decreases bytes.len(),
{
    if max == 0 || bytes.len() == 0 {
        seq![]
    } else if bytes.len() <= max {
        seq![utf8_lossy(bytes)]
    } else {
        seq![utf8_lossy(bytes.take(max as int))] + hard_break(bytes.skip(max as int), max)
    }
}

/// One step of the greedy wrap: the finished lines and the line in progress
/// after placing `word`.
pub open spec fn wrap_step(state: (Seq<Seq<char>>, Seq<char>), word: Seq<char>, max: nat) -> (
    Seq<Seq<char>>,
    Seq<char>,
) {
    let (lines, current) = state;
    if byte_len(word) > max {
        let flushed = if current.len() > 0 {
            lines.push(current)
        } else {
            lines
        };
        (flushed + hard_break(encode_utf8(word), max), seq![])
    } else {
        let projected = if current.len() == 0 {
            byte_len(word)
        } else {
            byte_len(current) + 1 + byte_len(word)
        };
        if projected > max {
            (lines.push(current), word)
        } else if current.len() == 0 {
            (lines, word)
        } else {
            (lines, current + seq![' '] + word)
        }
    }
}

/// The greedy wrap after placing every word of `words`.
pub open spec fn wrap_words(words: Seq<Seq<char>>, max: nat) -> (Seq<Seq<char>>, Seq<char>)
    decreases words.len(),
{
    if words.len() == 0 {
        (seq![], seq![])
    } else {
        wrap_step(wrap_words(words.drop_last(), max), words.last(), max)
    }
}

/// The lines `text` is wrapped into at `max` bytes per line: the text itself
/// when it fits, otherwise its words filled greedily, single spaces between
/// them, with words longer than a line cut into `max`-byte pieces.
pub open spec fn wrapped(text: Seq<char>, max: nat) -> Seq<Seq<char>> {
    if byte_len(text) <= max {
        seq![text]
    } else {
        let (lines, current) = wrap_words(whitespace_words(text), max);
        if current.len() > 0 {
            lines.push(current)
        } else {
            lines
        }
    }
}

// ─────────────────────────── the width law ───────────────────────────

/// Every line is at most `max` bytes long.
pub open spec fn lines_fit(lines: Seq<Seq<char>>, max: nat) -> bool {
    forall|i: int| 0 <= i < lines.len() ==> byte_len(#[trigger] lines[i]) <= max
}

/// Every word is ASCII.
pub open spec fn all_ascii(words: Seq<Seq<char>>) -> bool {
    forall|i: int| 0 <= i < words.len() ==> is_ascii_chars(#[trigger] words[i])
}

proof fn lemma_ascii_byte_len(s: Seq<char>)
    requires
        is_ascii_chars(s),
    ensures
        byte_len(s) == s.len(),
{
    is_ascii_chars_encode_utf8(s);
}

/// A run of the encoding of ASCII text is the encoding of the run of text.
proof fn lemma_ascii_encoding_run(w: Seq<char>, a: int, b: int)
    requires
        is_ascii_chars(w),
        0 <= a <= b <= w.len(),
    ensures
        encode_utf8(w).subrange(a, b) == encode_utf8(w.subrange(a, b)),
        is_ascii_chars(w.subrange(a, b)),
{
    is_ascii_chars_encode_utf8(w);
    let r = w.subrange(a, b);
    assert(is_ascii_chars(r)) by {
        assert forall|i: int| 0 <= i < r.len() implies '\0' <= #[trigger] r[i] <= '\u{7f}' by {
            assert(r[i] == w[i + a]);
        }
    }
    is_ascii_chars_encode_utf8(r);
    assert(encode_utf8(w).subrange(a, b) =~= encode_utf8(r)) by {
        assert forall|i: int| 0 <= i < b - a implies encode_utf8(w).subrange(a, b)[i] == encode_utf8(
            r,
        )[i] by {
            assert(r[i] == w[i + a]);
        }
    }
}

/// A run of the encoding of ASCII text is valid UTF-8 and reads back as a
/// text of as many bytes as the run is long.
proof fn lemma_ascii_piece(w: Seq<char>, a: int, b: int)
    requires
        is_ascii_chars(w),
        0 <= a <= b <= encode_utf8(w).len(),
    ensures
        valid_utf8(encode_utf8(w).subrange(a, b)),
        byte_len(decode_utf8(encode_utf8(w).subrange(a, b))) == b - a,
{
    lemma_ascii_byte_len(w);
    lemma_ascii_encoding_run(w, a, b);
    let r = w.subrange(a, b);
    encode_utf8_valid_utf8(r);
    encode_utf8_decode_utf8(r);
    lemma_ascii_byte_len(r);
}

/// Every word longer than `max` bytes is cut into pieces that fit.
pub open spec fn breaks_fit(words: Seq<Seq<char>>, max: nat) -> bool {
    forall|i: int|
        0 <= i < words.len() && byte_len(words[i]) > max ==> lines_fit(
            #[trigger] hard_break(encode_utf8(words[i]), max),
            max,
        )
}

proof fn lemma_fit_concat(a: Seq<Seq<char>>, b: Seq<Seq<char>>, max: nat)
    requires
        lines_fit(a, max),
        lines_fit(b, max),
    ensures
        lines_fit(a + b, max),
{
    assert forall|i: int| 0 <= i < (a + b).len() implies byte_len(#[trigger] (a + b)[i]) <= max by {
        if i < a.len() {
            assert((a + b)[i] == a[i]);
        } else {
            assert((a + b)[i] == b[i - a.len()]);
        }
    }
}

/// Filling ASCII words never makes a line, finished or in progress, longer
/// than `max` bytes, and the line in progress stays ASCII.
proof fn lemma_wrap_words_fit(words: Seq<Seq<char>>, max: nat)
    requires
        all_ascii(words),
        breaks_fit(words, max),
    ensures
        lines_fit(wrap_words(words, max).0, max),
        byte_len(wrap_words(words, max).1) <= max,
        is_ascii_chars(wrap_words(words, max).1),
    decreases words.len(),
{
    if words.len() > 0 {
        let prefix = words.drop_last();
        assert(all_ascii(prefix)) by {
            assert forall|i: int| 0 <= i < prefix.len() implies is_ascii_chars(#[trigger] prefix[i]) by {
                assert(prefix[i] == words[i]);
            }
        }
        assert(breaks_fit(prefix, max)) by {
            assert forall|i: int| 0 <= i < prefix.len() && byte_len(prefix[i]) > max implies lines_fit(
                #[trigger] hard_break(encode_utf8(prefix[i]), max),
                max,
            ) by {
                assert(prefix[i] == words[i]);
            }
        }
        lemma_wrap_words_fit(prefix, max);
        let (lines, current) = wrap_words(prefix, max);
        let word = words.last();
        assert(is_ascii_chars(word)) by {
            assert(word == words[words.len() - 1]);
        }
        lemma_ascii_byte_len(word);
        lemma_ascii_byte_len(current);
        if byte_len(word) > max {
            let flushed = if current.len() > 0 {
                lines.push(current)
            } else {
                lines
            };
            assert(lines_fit(flushed, max)) by {
                assert forall|i: int| 0 <= i < flushed.len() implies byte_len(#[trigger] flushed[i]) <= max by {
                    if i < lines.len() {
                        assert(flushed[i] == lines[i]);
                    }
                }
            }
            assert(lines_fit(hard_break(encode_utf8(words[words.len() - 1]), max), max));
            lemma_fit_concat(flushed, hard_break(encode_utf8(word), max), max);
            lemma_ascii_byte_len(Seq::<char>::empty());
        } else {
            let projected = if current.len() == 0 {
                byte_len(word)
            } else {
                byte_len(current) + 1 + byte_len(word)
            };
            if projected > max {
                assert(lines_fit(lines.push(current), max)) by {
                    assert forall|i: int| 0 <= i < lines.push(current).len() implies byte_len(
                        #[trigger] lines.push(current)[i],
                    ) <= max by {
                        if i < lines.len() {
                            assert(lines.push(current)[i] == lines[i]);
                        }
                    }
                }
            } else if current.len() > 0 {
                let joined = current + seq![' '] + word;
                assert(is_ascii_chars(joined)) by {
                    assert forall|i: int| 0 <= i < joined.len() implies '\0' <= #[trigger] joined[i] <= '\u{7f}' by {
                        if i < current.len() {
                            assert(joined[i] == current[i]);
                        } else if i == current.len() {
                            assert(joined[i] == ' ');
                        } else {
                            assert(joined[i] == word[i - current.len() - 1]);
                        }
                    }
                }
                lemma_ascii_byte_len(joined);
            }
        }
    }
}

proof fn lemma_word_scan_ascii(s: Seq<char>)
    requires
        is_ascii_chars(s),
    ensures
        all_ascii(word_scan(s).0),
        is_ascii_chars(word_scan(s).1),
    decreases s.len(),
{
    if s.len() > 0 {
        let p = s.drop_last();
        assert(is_ascii_chars(p)) by {
            assert forall|i: int| 0 <= i < p.len() implies '\0' <= #[trigger] p[i] <= '\u{7f}' by {
                assert(p[i] == s[i]);
            }
        }
        lemma_word_scan_ascii(p);
        let (words, current) = word_scan(p);
        let c = s.last();
        assert('\0' <= c <= '\u{7f}') by {
            assert(c == s[s.len() - 1]);
        }
        if !is_whitespace(c) {
            assert(is_ascii_chars(current.push(c))) by {
                assert forall|i: int| 0 <= i < current.push(c).len() implies '\0' <= #[trigger] current.push(c)[i] <= '\u{7f}' by {
                    if i < current.len() {
                        assert(current.push(c)[i] == current[i]);
                    }
                }
            }
        } else if current.len() > 0 {
            assert(all_ascii(words.push(current))) by {
                assert forall|i: int| 0 <= i < words.push(current).len() implies is_ascii_chars(
                    #[trigger] words.push(current)[i],
                ) by {
                    if i < words.len() {
                        assert(words.push(current)[i] == words[i]);
                    }
                }
            }
        }
    }
}

/// The words of ASCII text are ASCII.
proof fn lemma_words_ascii(text: Seq<char>)
    requires
        is_ascii_chars(text),
    ensures
        all_ascii(whitespace_words(text)),
{
    lemma_word_scan_ascii(text);
    let (ws, cur) = word_scan(text);
    let words = whitespace_words(text);
    if cur.len() > 0 {
        assert forall|i: int| 0 <= i < words.len() implies is_ascii_chars(#[trigger] words[i]) by {
            if i < ws.len() {
                assert(words[i] == ws[i]);
            }
        }
    }
}

/// Filling ASCII text whose long words are cut into fitting pieces gives
/// lines that fit.
proof fn lemma_wrapped_fits(text: Seq<char>, max: nat)
    requires
        is_ascii_chars(text),
        byte_len(text) > max ==> breaks_fit(whitespace_words(text), max),
    ensures
        lines_fit(wrapped(text, max), max),
{
    if byte_len(text) <= max {
        assert(wrapped(text, max) =~= seq![text]);
    } else {
        let words = whitespace_words(text);
        lemma_words_ascii(text);
        lemma_wrap_words_fit(words, max);
        let (lines, current) = wrap_words(words, max);
        if current.len() > 0 {
            assert forall|i: int| 0 <= i < lines.push(current).len() implies byte_len(
                #[trigger] lines.push(current)[i],
            ) <= max by {
                if i < lines.len() {
                    assert(lines.push(current)[i] == lines[i]);
                }
            }
        }
    }
}

// ─────────────────────────── executable code ───────────────────────────

/// The fixed-width tag printed before a vulnerability of level `level`.
pub fn severity_label(level: &RiskLevel) -> (res: &'static str)
    ensures
        res@ == severity_tag(*level),
{
    match level {
        RiskLevel::Critical => "CRIT",
        RiskLevel::High => "HIGH",
        RiskLevel::Medium => "MED ",
        RiskLevel::Low => "LOW ",
        RiskLevel::Pass => "PASS",
        RiskLevel::Unknown => "N/A ",
    }
}

/// `value`, followed by a `[VULNERABLE]` marker when it is flagged.
pub fn flag_str(value: &str, vulnerable: bool) -> (res: String)
    ensures
        res@ == flagged(value@, vulnerable),
{
    let mut s = owned(value);
    if vulnerable {
        push_str(&mut s, "  [VULNERABLE]");
    }
    s
}

/// `s` with every character above U+00FF replaced by `?`, so that text the
/// PDF fonts cannot encode does not reach them.
pub fn sanitize(s: &str) -> (res: String)
    ensures
        res@ == sanitized(s@),
{
    let v = chars_of(s);
    let mut out = String::new();
    for i in 0..v.len()
        invariant
            v@ == s@,
            out@ == sanitized(v@.take(i as int)),
    {
        let c = v[i];
        let d = if (c as u32) <= 0xFF {
            c
        } else {
            '?'
        };
        push_char(&mut out, d);
        assert(sanitized(v@.take(i + 1)) =~= sanitized(v@.take(i as int)).push(latin1_or_mark(c)));
    }
    assert(v@.take(v.len() as int) =~= v@);
    out
}

/// The words of `v`, as `str::split_whitespace` gives them.
fn split_words(v: &[char]) -> (res: Vec<String>)
    ensures
        string_views(res@) == whitespace_words(v@),
{
    let mut words: Vec<String> = Vec::new();
    let mut current = String::new();
    for i in 0..v.len()
        invariant
            string_views(words@) == word_scan(v@.take(i as int)).0,
            current@ == word_scan(v@.take(i as int)).1,
    {
        assert(v@.take(i + 1).drop_last() =~= v@.take(i as int));
        let ghost before = string_views(words@);
        let c = v[i];
        if crate::text::char_is_whitespace(c) {
            if current.unicode_len() > 0 {
                let w = current;
                current = String::new();
                words.push(w);
                assert(string_views(words@) =~= before.push(w@));
            } else {
                current = String::new();
            }
        } else {
            push_char(&mut current, c);
        }
    }
    assert(v@.take(v.len() as int) =~= v@);
    if current.unicode_len() > 0 {
        let ghost before = string_views(words@);
        let w = current;
        words.push(w);
        assert(string_views(words@) =~= before.push(w@));
    }
    words
}

/// The bytes `b[from..to]`.
fn byte_range(b: &[u8], from: usize, to: usize) -> (res: Vec<u8>)
    requires
        from <= to <= b@.len(),
    ensures
        res@ == b@.subrange(from as int, to as int),
{
    let mut res: Vec<u8> = Vec::new();
    let mut i = from;
    while i < to
        invariant
            from <= i <= to <= b@.len(),
            res@ == b@.subrange(from as int, i as int),
        decreases to - i,
    {
        res.push(b[i]);
        i = i + 1;
        assert(b@.subrange(from as int, i as int) =~= b@.subrange(from as int, i - 1).push(b@[i - 1]));
    }
    res
}

/// Appends the pieces a too-long word is cut into. The pieces of an ASCII
/// word are at most `max_chars` bytes long.
fn push_hard_break(lines: &mut Vec<String>, word: &String, max_chars: usize)
    requires
        max_chars > 0,
    ensures
        string_views(final(lines)@) == string_views(old(lines)@) + hard_break(
            encode_utf8(word@),
            max_chars as nat,
        ),
        is_ascii_chars(word@) ==> lines_fit(
            hard_break(encode_utf8(word@), max_chars as nat),
            max_chars as nat,
        ),
{
    let bytes = word.as_str().as_bytes();
    let n = bytes.len();
    let ghost start = string_views(lines@);
    let ghost mut pieces: Seq<Seq<char>> = seq![];
    let mut i: usize = 0;
    assert(bytes@.skip(0) =~= bytes@);
    assert(start + pieces =~= start);
    while i < n
        invariant
            n == bytes@.len(),
            bytes@ == encode_utf8(word@),
            i <= n,
            max_chars > 0,
            string_views(lines@) == start + pieces,
            hard_break(bytes@, max_chars as nat) == pieces + hard_break(
                bytes@.skip(i as int),
                max_chars as nat,
            ),
            is_ascii_chars(word@) ==> lines_fit(pieces, max_chars as nat),
        decreases n - i,
    {
        let ghost rest = bytes@.skip(i as int);
        let ghost before = string_views(lines@);
        let ghost old_pieces = pieces;
        if n - i <= max_chars {
            let chunk = byte_range(bytes, i, n);
            assert(chunk@ =~= rest);
            let piece = lossy_text(chunk.as_slice());
            lines.push(piece);
            proof {
                pieces = pieces.push(piece@);
                if is_ascii_chars(word@) {
                    lemma_ascii_piece(word@, i as int, n as int);
                    assert(lines_fit(pieces, max_chars as nat)) by {
                        assert forall|k: int| 0 <= k < pieces.len() implies byte_len(
                            #[trigger] pieces[k],
                        ) <= max_chars by {
                            if k < old_pieces.len() {
                                assert(pieces[k] == old_pieces[k]);
                            }
                        }
                    }
                }
            }
            assert(string_views(lines@) =~= before.push(piece@));
            assert(hard_break(rest, max_chars as nat) =~= seq![utf8_lossy(rest)]);
            i = n;
            assert(bytes@.skip(i as int).len() == 0);
            assert(hard_break(bytes@.skip(i as int), max_chars as nat) =~= Seq::<Seq<char>>::empty());
            assert(hard_break(bytes@, max_chars as nat) =~= pieces + hard_break(
                bytes@.skip(i as int),
                max_chars as nat,
            ));
        } else {
            let chunk = byte_range(bytes, i, i + max_chars);
            assert(chunk@ =~= rest.take(max_chars as int));
            let piece = lossy_text(chunk.as_slice());
            lines.push(piece);
            proof {
                pieces = pieces.push(piece@);
                if is_ascii_chars(word@) {
                    lemma_ascii_piece(word@, i as int, i + max_chars);
                    assert(lines_fit(pieces, max_chars as nat)) by {
                        assert forall|k: int| 0 <= k < pieces.len() implies byte_len(
                            #[trigger] pieces[k],
                        ) <= max_chars by {
                            if k < old_pieces.len() {
                                assert(pieces[k] == old_pieces[k]);
                            }
                        }
                    }
                }
            }
            assert(string_views(lines@) =~= before.push(piece@));
            assert(rest.skip(max_chars as int) =~= bytes@.skip(i + max_chars));
            i = i + max_chars;
            assert(hard_break(rest, max_chars as nat) =~= seq![piece@] + hard_break(
                bytes@.skip(i as int),
                max_chars as nat,
            ));
            assert(hard_break(bytes@, max_chars as nat) =~= pieces + hard_break(
                bytes@.skip(i as int),
                max_chars as nat,
            ));
        }
    }
    assert(bytes@.skip(n as int).len() == 0);
    assert(hard_break(bytes@.skip(n as int), max_chars as nat) =~= Seq::<Seq<char>>::empty());
    assert(hard_break(bytes@, max_chars as nat) =~= pieces);
}

/// Greedy word-wrap by byte length: a line that fits is kept as it is;
/// otherwise its words are filled into lines of at most `max_chars` bytes,
/// single spaces between them, and a word longer than a line is cut into
/// `max_chars`-byte pieces so that no line is over-long. For ASCII text no
/// line is longer than `max_chars` bytes.
pub fn wrap_line(text: &str, max_chars: usize) -> (res: Vec<String>)
    requires
        max_chars > 0 || whitespace_words(text@).len() == 0,
    ensures
        string_views(res@) == wrapped(text@, max_chars as nat),
        is_ascii_chars(text@) ==> lines_fit(string_views(res@), max_chars as nat),
{
    if text.as_bytes().len() <= max_chars {
        let mut one: Vec<String> = Vec::new();
        one.push(owned(text));
        assert(string_views(one@) =~= seq![text@]);
        proof {
            if is_ascii_chars(text@) {
                lemma_wrapped_fits(text@, max_chars as nat);
            }
        }
        return one;
    }
    let chars = chars_of(text);
    let words = split_words(chars.as_slice());
    let ghost wv = string_views(words@);
    let mut lines: Vec<String> = Vec::new();
    let mut current = String::new();
    assert(wv.take(0) =~= Seq::<Seq<char>>::empty());
    proof {
        if is_ascii_chars(text@) {
            lemma_words_ascii(text@);
        }
    }
    for k in 0..words.len()
        invariant
            wv == string_views(words@),
            wv == whitespace_words(text@),
            max_chars > 0 || wv.len() == 0,
            (string_views(lines@), current@) == wrap_words(wv.take(k as int), max_chars as nat),
            is_ascii_chars(text@) ==> all_ascii(wv),
            is_ascii_chars(text@) ==> breaks_fit(wv.take(k as int), max_chars as nat),
    {
        assert(wv.take(k + 1).drop_last() =~= wv.take(k as int));
        assert(wv.take(k + 1).last() == words@[k as int]@);
        let word = &words[k];
        let wlen = word.as_str().as_bytes().len();
        let ghost before = string_views(lines@);
        if wlen > max_chars {
            if current.unicode_len() > 0 {
                let done = current;
                current = String::new();
                lines.push(done);
                assert(string_views(lines@) =~= before.push(done@));
            } else {
                current = String::new();
            }
            push_hard_break(&mut lines, word, max_chars);
        } else {
            let clen = current.as_str().as_bytes().len();
            let empty = current.unicode_len() == 0;
            let projected: u128 = if empty {
                wlen as u128
            } else {
                clen as u128 + 1 + wlen as u128
            };
            if projected > max_chars as u128 {
                let done = current;
                current = owned(word.as_str());
                lines.push(done);
                assert(string_views(lines@) =~= before.push(done@));
            } else if empty {
                current = owned(word.as_str());
            } else {
                push_char(&mut current, ' ');
                push_str(&mut current, word.as_str());
            }
        }
        proof {
            if is_ascii_chars(text@) {
                let next = wv.take(k + 1);
                assert(is_ascii_chars(wv[k as int]));
                assert(breaks_fit(next, max_chars as nat)) by {
                    assert forall|i: int|
                        0 <= i < next.len() && byte_len(next[i]) > max_chars implies lines_fit(
                        #[trigger] hard_break(encode_utf8(next[i]), max_chars as nat),
                        max_chars as nat,
                    ) by {
                        if i < k {
                            assert(next[i] == wv.take(k as int)[i]);
                        } else {
                            assert(next[i] == wv[k as int]);
                        }
                    }
                }
            }
        }
    }
    assert(wv.take(words.len() as int) =~= wv);
    if current.unicode_len() > 0 {
        let ghost before = string_views(lines@);
        let done = current;
        lines.push(done);
        assert(string_views(lines@) =~= before.push(done@));
    }
    proof {
        if is_ascii_chars(text@) {
            lemma_wrapped_fits(text@, max_chars as nat);
        }
    }
    lines
}


// ─────────────────────────── the page content ───────────────────────────

/// Typeface of a line of the PDF.
#[derive(Clone, Copy, Debug, PartialEq, Eq, Structural)]
pub enum Face {
    Regular,
    Bold,
}

/// One step of the PDF's top-down layout. Sizes are in hundredths of a
/// point and distances in hundredths of a millimetre.
#[derive(Clone, Debug)]
pub enum PdfItem {
    /// A line of text, already reduced to what the fonts can show, and the
    /// distance the cursor moves down after it.
    Line { text: String, face: Face, size: u16, advance: u16 },
    /// Empty vertical space.
    Skip { space: u16 },
}

/// The abstract content of a [`PdfItem`].
pub enum PdfItemView {
    Line { text: Seq<char>, face: Face, size: u16, advance: u16 },
    Skip { space: u16 },
}

impl View for PdfItem {
    type V = PdfItemView;

    open spec fn view(&self) -> PdfItemView {
        match self {
            PdfItem::Line { text, face, size, advance } => PdfItemView::Line {
                text: text@,
                face: *face,
                size: *size,
                advance: *advance,
            },
            PdfItem::Skip { space } => PdfItemView::Skip { space: *space },
        }
    }
}

/// The abstract content of each item.
pub open spec fn items_of(v: Seq<PdfItem>) -> Seq<PdfItemView> {
    v.map_values(|i: PdfItem| i@)
}

/// A printed line: the text as the fonts can show it.
pub open spec fn ln(text: Seq<char>, face: Face, size: u16, advance: u16) -> PdfItemView {
    PdfItemView::Line { text: sanitized(text), face, size, advance }
}

/// Empty space.
pub open spec fn gap(space: u16) -> PdfItemView {
    PdfItemView::Skip { space }
}

/// The printed lines of already-wrapped text.
pub open spec fn lines_items(lines: Seq<Seq<char>>, face: Face, size: u16, advance: u16) -> Seq<
    PdfItemView,
>
    decreases lines.len(),
{
    if lines.len() == 0 {
        seq![]
    } else {
        lines_items(lines.drop_last(), face, size, advance).push(
            ln(lines.last(), face, size, advance),
        )
    }
}

/// The items of each `\n`-separated piece of a text: half a line of space
/// for an empty piece, else its wrapped lines.
pub open spec fn pieces_items(
    pieces: Seq<Seq<char>>,
    face: Face,
    size: u16,
    advance: u16,
    width: nat,
) -> Seq<PdfItemView>
    decreases pieces.len(),
{
    if pieces.len() == 0 {
        seq![]
    } else {
        let last = pieces.last();
        pieces_items(pieces.drop_last(), face, size, advance, width) + if last.len() == 0 {
            seq![gap((advance / 2) as u16)]
        } else {
            lines_items(wrapped(last, width), face, size, advance)
        }
    }
}

/// The items of a text wrapped at `width` bytes per line.
pub open spec fn wrapped_items(text: Seq<char>, face: Face, size: u16, advance: u16, width: nat) -> Seq<
    PdfItemView,
> {
    pieces_items(split_on(text, '\n'), face, size, advance, width)
}

/// A section heading under a little space, followed by a dashed rule.
pub open spec fn section_items(title: Seq<char>) -> Seq<PdfItemView> {
    seq![gap(150), ln(title, Face::Bold, 1200, 600), ln(SECTION_RULE@, Face::Regular, 900, 350)]
}

/// A key padded to 18 characters, followed by its value, wrapped.
pub open spec fn kv_items(key: Seq<char>, value: Seq<char>) -> Seq<PdfItemView> {
    let pad: Seq<char> = if key.len() < 18 {
        Seq::new((18 - key.len()) as nat, |i: int| ' ')
    } else {
        seq![]
    };
    wrapped_items(key + pad + value, Face::Regular, 1000, 500, 90)
}

/// `yes` or `no`.
pub open spec fn yes_no(b: bool) -> Seq<char> {
    if b {
        "yes"@
    } else {
        "no"@
    }
}

/// The cover: title, target, scan time, score, harvest warning and readiness.
pub open spec fn cover_items(r: ScanReport) -> Seq<PdfItemView> {
    let score_line = if r.risk_score.level == RiskLevel::Unknown {
        "RISK SCORE: N/A  (scan incomplete — endpoint not assessed)"@
    } else {
        "RISK SCORE: "@ + decimal(r.risk_score.value as nat) + "/100  ("@ + level_label(
            r.risk_score.level,
        ) + ")"@
    };
    let harvest: Seq<PdfItemView> = if r.risk_score.harvest_risk {
        seq![ln("[!] Harvest-now-decrypt-later risk detected."@, Face::Bold, 1000, 500)]
    } else {
        seq![]
    };
    seq![
        ln("RonwayScanner"@, Face::Bold, 2200, 900),
        ln("Post-Quantum Cryptographic Vulnerability Report"@, Face::Regular, 1100, 600),
        gap(300),
        ln("Target:   "@ + r.target.domain@ + ":"@ + decimal(r.target.port as nat), Face::Bold, 1100, 550),
        ln("Scanned:  "@ + r.target.scanned_at@ + "    Duration: "@ + decimal(
            r.target.scan_duration_ms as nat,
        ) + " ms"@, Face::Regular, 1000, 500),
        gap(300),
        ln(score_line, Face::Bold, 1400, 700),
    ] + harvest + seq![
        ln("Quantum-ready: "@ + if r.quantum_ready {
            "YES"@
        } else {
            "NO"@
        }, Face::Regular, 1000, 500),
        gap(200),
    ] + section_items("Executive summary"@) + wrapped_items(r.summary@, Face::Regular, 1000, 500, 95)
        + seq![gap(200)]
}

/// The TLS section.
pub open spec fn tls_items(tls: Option<TlsFinding>) -> Seq<PdfItemView> {
    section_items("TLS"@) + match tls {
        Some(t) => kv_items("Protocol"@, flagged(t.protocol_version@, t.protocol_vulnerable))
            + kv_items("Cipher suite"@, flagged(t.cipher_suite@, t.cipher_vulnerable)) + kv_items(
            "Key exchange"@,
            flagged(t.key_exchange@, t.key_exchange_vulnerable),
        ) + kv_items("Compression"@, t.compression@),
        None => seq![ln("(TLS scan failed)"@, Face::Regular, 1000, 500)],
    }
}

/// The certificate's names and algorithms.
pub open spec fn cert_identity_items(c: CertFinding) -> Seq<PdfItemView> {
    kv_items("Subject"@, c.subject@) + kv_items("Issuer"@, c.issuer@) + kv_items(
        "Key"@,
        flagged(c.key_algorithm@, c.key_algorithm_vulnerable),
    ) + kv_items("Signature"@, flagged(c.signature_algorithm@, c.signature_algorithm_vulnerable))
}

/// The days left on a certificate, marked when it has expired.
pub open spec fn days_text(c: CertFinding) -> Seq<char> {
    signed_decimal(c.days_remaining as int) + if c.is_expired {
        " (EXPIRED)"@
    } else {
        ""@
    }
}

/// The certificate's validity window and trust facts.
pub open spec fn cert_validity_items(c: CertFinding) -> Seq<PdfItemView> {
    kv_items("Valid from"@, c.valid_from@) + kv_items("Valid until"@, c.valid_until@) + kv_items(
        "Days remaining"@,
        days_text(c),
    ) + kv_items("Self-signed"@, yes_no(c.is_self_signed)) + kv_items(
        "CT logged"@,
        yes_no(c.ct_logged),
    )
}

/// The certificate section.
pub open spec fn cert_items(cert: Option<CertFinding>) -> Seq<PdfItemView> {
    section_items("Certificate"@) + match cert {
        Some(c) => cert_identity_items(c) + cert_validity_items(c),
        None => seq![ln("(Certificate scan failed)"@, Face::Regular, 1000, 500)],
    }
}

/// The text describing the HSTS header.
pub open spec fn hsts_text(h: HttpFinding) -> Seq<char> {
    if h.hsts_enabled {
        match h.hsts_max_age {
            Some(n) => "enabled (max-age = "@ + decimal(n as nat) + " s)"@,
            None => "enabled (no max-age)"@,
        }
    } else {
        "MISSING"@
    }
}

/// The text shown for an optional header value.
pub open spec fn or_dash(v: Option<String>) -> Seq<char> {
    match v {
        Some(x) => x@,
        None => "-"@,
    }
}

/// The security headers of a response.
pub open spec fn http_field_items(h: HttpFinding) -> Seq<PdfItemView> {
    kv_items("HSTS"@, hsts_text(h)) + kv_items(
        "CSP"@,
        if h.csp_present {
            "present"@
        } else {
            "missing"@
        },
    ) + kv_items("X-Frame-Options"@, or_dash(h.x_frame_options)) + kv_items(
        "Server header"@,
        or_dash(h.server_header),
    )
}

/// The HTTP section.
pub open spec fn http_items(http: Option<HttpFinding>) -> Seq<PdfItemView> {
    section_items("HTTP headers"@) + match http {
        Some(h) => http_field_items(h),
        None => seq![ln("(HTTP scan failed)"@, Face::Regular, 1000, 500)],
    }
}

/// A CVSS-equivalent score given in tenths, printed with one decimal.
pub open spec fn tenths(t: u8) -> Seq<char> {
    decimal((t / 10) as nat) + "."@ + decimal((t % 10) as nat)
}

/// The items of one vulnerability.
pub open spec fn vuln_items(v: Vulnerability) -> Seq<PdfItemView> {
    seq![
        gap(100),
        ln("["@ + severity_tag(v.severity) + "] "@ + v.id@ + " — "@ + v.title@, Face::Bold, 1050, 500),
    ] + wrapped_items(v.description@, Face::Regular, 950, 450, 95) + seq![
        ln("    NIST: "@ + v.nist_reference@ + " | CVSS-equivalent: "@ + tenths(v.cvss_tenths),
            Face::Regular, 900, 450),
    ]
}

/// The items of every vulnerability, in order.
pub open spec fn vuln_list_items(vs: Seq<Vulnerability>) -> Seq<PdfItemView>
    decreases vs.len(),
{
    if vs.len() == 0 {
        seq![]
    } else {
        vuln_list_items(vs.drop_last()) + vuln_items(vs.last())
    }
}

/// The vulnerabilities section.
pub open spec fn vulns_section_items(vs: Seq<Vulnerability>) -> Seq<PdfItemView> {
    section_items("Vulnerabilities ("@ + decimal(vs.len()) + ")"@) + if vs.len() == 0 {
        seq![ln("None detected."@, Face::Regular, 1000, 500)]
    } else {
        vuln_list_items(vs)
    }
}

/// The items of one recommendation.
pub open spec fn rec_items(r: Recommendation) -> Seq<PdfItemView> {
    seq![gap(100), ln("P"@ + decimal(r.priority as nat) + ". "@ + r.action@, Face::Bold, 1050, 500)]
        + wrapped_items("    Current:      "@ + r.current@, Face::Regular, 950, 450, 95)
        + wrapped_items("    Replace with: "@ + r.replace_with@, Face::Regular, 950, 450, 95) + seq![
        ln("    Effort: "@ + decimal(r.effort_weeks as nat) + " weeks | NIST: "@ + r.nist_algorithm@,
            Face::Regular, 900, 450),
    ]
}

/// The items of every recommendation, in order.
pub open spec fn rec_list_items(rs: Seq<Recommendation>) -> Seq<PdfItemView>
    decreases rs.len(),
{
    if rs.len() == 0 {
        seq![]
    } else {
        rec_list_items(rs.drop_last()) + rec_items(rs.last())
    }
}

/// The recommendations section.
pub open spec fn recs_section_items(rs: Seq<Recommendation>) -> Seq<PdfItemView> {
    section_items("Recommendations ("@ + decimal(rs.len()) + ")"@) + if rs.len() == 0 {
        seq![ln("None required."@, Face::Regular, 1000, 500)]
    } else {
        rec_list_items(rs)
    }
}

/// The whole report, top to bottom, ending with the generator's mark for
/// program version `version`.
pub open spec fn report_items(r: ScanReport, version: Seq<char>) -> Seq<PdfItemView> {
    cover_items(r) + tls_items(r.tls) + cert_items(r.certificate) + http_items(r.http)
        + vulns_section_items(r.vulnerabilities@) + recs_section_items(r.recommendations@) + seq![
        gap(400),
        ln("Generated by RonwayScanner v"@ + version + " — BPxAI — All Rights Reserved"@,
            Face::Regular, 800, 400),
    ]
}

/// The dashed rule under a section heading.
pub const SECTION_RULE: &'static str = "-----------------------------------------------------------------------";

/// Every character of `s` is one the PDF fonts can show (Latin-1).
pub open spec fn latin1(s: Seq<char>) -> bool {
    forall|j: int| 0 <= j < s.len() ==> (#[trigger] s[j] as u32) <= 0xFF
}

/// A line whose text the fonts can show, or empty space.
pub open spec fn printable(item: PdfItemView) -> bool {
    match item {
        PdfItemView::Line { text, .. } => latin1(text),
        PdfItemView::Skip { .. } => true,
    }
}

/// Every item is printable.
pub open spec fn all_printable(items: Seq<PdfItemView>) -> bool {
    forall|i: int| 0 <= i < items.len() ==> printable(#[trigger] items[i])
}

proof fn lemma_sanitized_latin1(s: Seq<char>)
    ensures
        latin1(sanitized(s)),
{
    assert forall|j: int| 0 <= j < sanitized(s).len() implies (#[trigger] sanitized(s)[j] as u32)
        <= 0xFF by {
        assert(sanitized(s)[j] == latin1_or_mark(s[j]));
    }
}

fn push_item(items: &mut Vec<PdfItem>, item: PdfItem)
    requires
        all_printable(items_of(old(items)@)),
        printable(item@),
    ensures
        items_of(final(items)@) == items_of(old(items)@).push(item@),
        all_printable(items_of(final(items)@)),
{
    let ghost v = item@;
    items.push(item);
    assert(items_of(items@) =~= items_of(old(items)@).push(v));
    assert(all_printable(items_of(items@))) by {
        let after = items_of(items@);
        assert forall|i: int| 0 <= i < after.len() implies printable(#[trigger] after[i]) by {
            if i < after.len() - 1 {
                assert(after[i] == items_of(old(items)@)[i]);
            }
        }
    }
}

/// Appends a printed line.
fn push_line(items: &mut Vec<PdfItem>, text: &str, face: Face, size: u16, advance: u16)
    requires
        all_printable(items_of(old(items)@)),
    ensures
        all_printable(items_of(final(items)@)),
        items_of(final(items)@) == items_of(old(items)@).push(ln(text@, face, size, advance)),
{
    let t = sanitize(text);
    proof {
        lemma_sanitized_latin1(text@);
    }
    push_item(items, PdfItem::Line { text: t, face, size, advance });
}

/// Appends empty space.
fn push_gap(items: &mut Vec<PdfItem>, space: u16)
    requires
        all_printable(items_of(old(items)@)),
    ensures
        all_printable(items_of(final(items)@)),
        items_of(final(items)@) == items_of(old(items)@).push(gap(space)),
{
    push_item(items, PdfItem::Skip { space });
}

/// Appends a text wrapped at `width` bytes per line.
fn push_wrapped(items: &mut Vec<PdfItem>, text: &str, face: Face, size: u16, advance: u16, width: usize)
    requires
        all_printable(items_of(old(items)@)),
        width > 0,
    ensures
        all_printable(items_of(final(items)@)),
        items_of(final(items)@) == items_of(old(items)@) + wrapped_items(
            text@,
            face,
            size,
            advance,
            width as nat,
        ),
{
    let chars = chars_of(text);
    let pieces = split_chars(chars.as_slice(), '\n');
    let ghost pv = pieces@.map_values(|p: Vec<char>| p@);
    let ghost start = items_of(items@);
    for i in 0..pieces.len()
        invariant
            width > 0,
            pv == pieces@.map_values(|p: Vec<char>| p@),
            pv == split_on(text@, '\n'),
            items_of(items@) == start + pieces_items(pv.take(i as int), face, size, advance, width as nat),
            all_printable(items_of(items@)),
    {
        assert(pv.take(i + 1).drop_last() =~= pv.take(i as int));
        assert(pv.take(i + 1).last() == pieces@[i as int]@);
        let ghost before = items_of(items@);
        let piece = &pieces[i];
        if piece.len() == 0 {
            push_gap(items, advance / 2);
            assert(items_of(items@) =~= before + seq![gap((advance / 2) as u16)]);
        } else {
            let line = string_of(piece.as_slice());
            let lines = wrap_line(line.as_str(), width);
            let ghost lv = string_views(lines@);
            for j in 0..lines.len()
                invariant
                    lv == string_views(lines@),
                    items_of(items@) == before + lines_items(lv.take(j as int), face, size, advance),
                    all_printable(items_of(items@)),
            {
                assert(lv.take(j + 1).drop_last() =~= lv.take(j as int));
                assert(lv.take(j + 1).last() == lines@[j as int]@);
                push_line(items, lines[j].as_str(), face, size, advance);
            }
            assert(lv.take(lines.len() as int) =~= lv);
        }
        assert(items_of(items@) =~= start + pieces_items(pv.take(i + 1), face, size, advance, width as nat));
    }
    assert(pv.take(pieces.len() as int) =~= pv);
}

fn push_section(items: &mut Vec<PdfItem>, title: &str)
    requires
        all_printable(items_of(old(items)@)),
    ensures
        all_printable(items_of(final(items)@)),
        items_of(final(items)@) == items_of(old(items)@) + section_items(title@),
{
    let ghost start = items_of(items@);
    push_gap(items, 150);
    push_line(items, title, Face::Bold, 1200, 600);
    push_line(items, SECTION_RULE, Face::Regular, 900, 350);
    assert(items_of(items@) =~= start + section_items(title@));
}

fn push_kv(items: &mut Vec<PdfItem>, key: &str, value: &str)
    requires
        all_printable(items_of(old(items)@)),
    ensures
        all_printable(items_of(final(items)@)),
        items_of(final(items)@) == items_of(old(items)@) + kv_items(key@, value@),
{
    let mut line = owned(key);
    let n = key.unicode_len();
    let mut k: usize = n;
    while k < 18
        invariant
            n == key@.len(),
            n <= k <= 18 || (k == n && n >= 18),
            line@ == key@ + Seq::new((k - n) as nat, |i: int| ' '),
        decreases 18 - k,
    {
        push_char(&mut line, ' ');
        k = k + 1;
        assert(line@ =~= key@ + Seq::new((k - n) as nat, |i: int| ' '));
    }
    let ghost pad: Seq<char> = if key@.len() < 18 {
        Seq::new((18 - key@.len()) as nat, |i: int| ' ')
    } else {
        seq![]
    };
    assert(line@ =~= key@ + pad);
    push_str(&mut line, value);
    push_wrapped(items, line.as_str(), Face::Regular, 1000, 500, 90);
}


fn push_cover(items: &mut Vec<PdfItem>, r: &ScanReport)
    requires
        all_printable(items_of(old(items)@)),
    ensures
        all_printable(items_of(final(items)@)),
        items_of(final(items)@) == items_of(old(items)@) + cover_items(*r),
{
    let ghost start = items_of(items@);
    push_line(items, "RonwayScanner", Face::Bold, 2200, 900);
    push_line(items, "Post-Quantum Cryptographic Vulnerability Report", Face::Regular, 1100, 600);
    push_gap(items, 300);
    let mut t = owned("Target:   ");
    push_str(&mut t, r.target.domain.as_str());
    push_str(&mut t, ":");
    push_decimal(&mut t, r.target.port as u64);
    push_line(items, t.as_str(), Face::Bold, 1100, 550);
    let mut sc = owned("Scanned:  ");
    push_str(&mut sc, r.target.scanned_at.as_str());
    push_str(&mut sc, "    Duration: ");
    push_decimal(&mut sc, r.target.scan_duration_ms);
    push_str(&mut sc, " ms");
    push_line(items, sc.as_str(), Face::Regular, 1000, 500);
    push_gap(items, 300);
    let score_line = match r.risk_score.level {
        RiskLevel::Unknown => owned("RISK SCORE: N/A  (scan incomplete — endpoint not assessed)"),
        _ => {
            let mut l = owned("RISK SCORE: ");
            push_decimal(&mut l, r.risk_score.value as u64);
            push_str(&mut l, "/100  (");
            push_str(&mut l, r.risk_score.level.label());
            push_str(&mut l, ")");
            l
        },
    };
    push_line(items, score_line.as_str(), Face::Bold, 1400, 700);
    let ghost first = items_of(items@);
    if r.risk_score.harvest_risk {
        push_line(items, "[!] Harvest-now-decrypt-later risk detected.", Face::Bold, 1000, 500);
    }
    let ghost second = items_of(items@);
    let ready = if r.quantum_ready {
        "Quantum-ready: YES"
    } else {
        "Quantum-ready: NO"
    };
    proof {
        reveal_strlit("Quantum-ready: YES");
        reveal_strlit("Quantum-ready: NO");
        reveal_strlit("Quantum-ready: ");
        reveal_strlit("YES");
        reveal_strlit("NO");
    }
    assert(ready@ =~= "Quantum-ready: "@ + if r.quantum_ready {
        "YES"@
    } else {
        "NO"@
    });
    push_line(items, ready, Face::Regular, 1000, 500);
    push_gap(items, 200);
    let ghost third = items_of(items@);
    push_section(items, "Executive summary");
    push_wrapped(items, r.summary.as_str(), Face::Regular, 1000, 500, 95);
    push_gap(items, 200);
    assert(items_of(items@) =~= start + cover_items(*r));
}

fn push_tls(items: &mut Vec<PdfItem>, tls: &Option<TlsFinding>)
    requires
        all_printable(items_of(old(items)@)),
    ensures
        all_printable(items_of(final(items)@)),
        items_of(final(items)@) == items_of(old(items)@) + tls_items(*tls),
{
    let ghost start = items_of(items@);
    push_section(items, "TLS");
    match tls {
        Some(t) => {
            push_kv(items, "Protocol", flag_str(t.protocol_version.as_str(), t.protocol_vulnerable).as_str());
            push_kv(items, "Cipher suite", flag_str(t.cipher_suite.as_str(), t.cipher_vulnerable).as_str());
            push_kv(
                items,
                "Key exchange",
                flag_str(t.key_exchange.as_str(), t.key_exchange_vulnerable).as_str(),
            );
            push_kv(items, "Compression", t.compression.as_str());
        },
        None => {
            push_line(items, "(TLS scan failed)", Face::Regular, 1000, 500);
        },
    }
    assert(items_of(items@) =~= start + tls_items(*tls));
}

fn push_cert_identity(items: &mut Vec<PdfItem>, c: &CertFinding)
    requires
        all_printable(items_of(old(items)@)),
    ensures
        all_printable(items_of(final(items)@)),
        items_of(final(items)@) == items_of(old(items)@) + cert_identity_items(*c),
{
    let ghost s0 = items_of(items@);
    push_kv(items, "Subject", c.subject.as_str());
    let ghost s1 = items_of(items@);
    push_kv(items, "Issuer", c.issuer.as_str());
    let ghost s2 = items_of(items@);
    push_kv(items, "Key", flag_str(c.key_algorithm.as_str(), c.key_algorithm_vulnerable).as_str());
    let ghost s3 = items_of(items@);
    push_kv(
        items,
        "Signature",
        flag_str(c.signature_algorithm.as_str(), c.signature_algorithm_vulnerable).as_str(),
    );
    assert(items_of(items@) =~= s0 + cert_identity_items(*c));
}

fn push_cert_validity(items: &mut Vec<PdfItem>, c: &CertFinding)
    requires
        all_printable(items_of(old(items)@)),
    ensures
        all_printable(items_of(final(items)@)),
        items_of(final(items)@) == items_of(old(items)@) + cert_validity_items(*c),
{
    let ghost s0 = items_of(items@);
    push_kv(items, "Valid from", c.valid_from.as_str());
    push_kv(items, "Valid until", c.valid_until.as_str());
    let mut d = String::new();
    push_signed_decimal(&mut d, c.days_remaining);
    if c.is_expired {
        push_str(&mut d, " (EXPIRED)");
    }
    assert(d@ =~= days_text(*c)) by {
        reveal_strlit("");
    }
    push_kv(items, "Days remaining", d.as_str());
    push_kv(items, "Self-signed", if c.is_self_signed { "yes" } else { "no" });
    push_kv(items, "CT logged", if c.ct_logged { "yes" } else { "no" });
    assert(items_of(items@) =~= s0 + cert_validity_items(*c));
}

fn push_cert(items: &mut Vec<PdfItem>, cert: &Option<CertFinding>)
    requires
        all_printable(items_of(old(items)@)),
    ensures
        all_printable(items_of(final(items)@)),
        items_of(final(items)@) == items_of(old(items)@) + cert_items(*cert),
{
    let ghost start = items_of(items@);
    push_section(items, "Certificate");
    match cert {
        Some(c) => {
            push_cert_identity(items, c);
            push_cert_validity(items, c);
        },
        None => {
            push_line(items, "(Certificate scan failed)", Face::Regular, 1000, 500);
        },
    }
    assert(items_of(items@) =~= start + cert_items(*cert));
}

fn hsts_description(h: &HttpFinding) -> (res: String)
    ensures
        res@ == hsts_text(*h),
{
    if h.hsts_enabled {
        match h.hsts_max_age {
            Some(n) => {
                let mut s = owned("enabled (max-age = ");
                push_decimal(&mut s, n);
                push_str(&mut s, " s)");
                s
            },
            None => owned("enabled (no max-age)"),
        }
    } else {
        owned("MISSING")
    }
}

fn push_http_fields(items: &mut Vec<PdfItem>, h: &HttpFinding)
    requires
        all_printable(items_of(old(items)@)),
    ensures
        all_printable(items_of(final(items)@)),
        items_of(final(items)@) == items_of(old(items)@) + http_field_items(*h),
{
    let ghost s0 = items_of(items@);
    push_kv(items, "HSTS", hsts_description(h).as_str());
    push_kv(items, "CSP", if h.csp_present { "present" } else { "missing" });
    let xfo = match &h.x_frame_options {
        Some(x) => x.as_str(),
        None => "-",
    };
    push_kv(items, "X-Frame-Options", xfo);
    let server = match &h.server_header {
        Some(x) => x.as_str(),
        None => "-",
    };
    push_kv(items, "Server header", server);
    assert(items_of(items@) =~= s0 + http_field_items(*h));
}

fn push_http(items: &mut Vec<PdfItem>, http: &Option<HttpFinding>)
    requires
        all_printable(items_of(old(items)@)),
    ensures
        all_printable(items_of(final(items)@)),
        items_of(final(items)@) == items_of(old(items)@) + http_items(*http),
{
    let ghost start = items_of(items@);
    push_section(items, "HTTP headers");
    match http {
        Some(h) => {
            push_http_fields(items, h);
        },
        None => {
            push_line(items, "(HTTP scan failed)", Face::Regular, 1000, 500);
        },
    }
    assert(items_of(items@) =~= start + http_items(*http));
}

fn push_vuln(items: &mut Vec<PdfItem>, v: &Vulnerability)
    requires
        all_printable(items_of(old(items)@)),
    ensures
        all_printable(items_of(final(items)@)),
        items_of(final(items)@) == items_of(old(items)@) + vuln_items(*v),
{
    let ghost start = items_of(items@);
    push_gap(items, 100);
    let mut head = owned("[");
    push_str(&mut head, severity_label(&v.severity));
    push_str(&mut head, "] ");
    push_str(&mut head, v.id.as_str());
    push_str(&mut head, " — ");
    push_str(&mut head, v.title.as_str());
    push_line(items, head.as_str(), Face::Bold, 1050, 500);
    push_wrapped(items, v.description.as_str(), Face::Regular, 950, 450, 95);
    let mut foot = owned("    NIST: ");
    push_str(&mut foot, v.nist_reference.as_str());
    push_str(&mut foot, " | CVSS-equivalent: ");
    push_decimal(&mut foot, (v.cvss_tenths / 10) as u64);
    push_str(&mut foot, ".");
    push_decimal(&mut foot, (v.cvss_tenths % 10) as u64);
    assert(foot@ =~= "    NIST: "@ + v.nist_reference@ + " | CVSS-equivalent: "@ + tenths(v.cvss_tenths));
    push_line(items, foot.as_str(), Face::Regular, 900, 450);
    assert(items_of(items@) =~= start + vuln_items(*v));
}

fn push_vulns(items: &mut Vec<PdfItem>, vs: &Vec<Vulnerability>)
    requires
        all_printable(items_of(old(items)@)),
    ensures
        all_printable(items_of(final(items)@)),
        items_of(final(items)@) == items_of(old(items)@) + vulns_section_items(vs@),
{
    let ghost start = items_of(items@);
    let mut title = owned("Vulnerabilities (");
    push_decimal(&mut title, vs.len() as u64);
    push_str(&mut title, ")");
    push_section(items, title.as_str());
    let ghost head = items_of(items@);
    if vs.len() == 0 {
        push_line(items, "None detected.", Face::Regular, 1000, 500);
    } else {
        for i in 0..vs.len()
            invariant
                items_of(items@) == head + vuln_list_items(vs@.take(i as int)),
                all_printable(items_of(items@)),
        {
            assert(vs@.take(i + 1).drop_last() =~= vs@.take(i as int));
            push_vuln(items, &vs[i]);
            assert(items_of(items@) =~= head + vuln_list_items(vs@.take(i + 1)));
        }
        assert(vs@.take(vs.len() as int) =~= vs@);
    }
    assert(items_of(items@) =~= start + vulns_section_items(vs@));
}

fn push_rec(items: &mut Vec<PdfItem>, r: &Recommendation)
    requires
        all_printable(items_of(old(items)@)),
    ensures
        all_printable(items_of(final(items)@)),
        items_of(final(items)@) == items_of(old(items)@) + rec_items(*r),
{
    let ghost start = items_of(items@);
    push_gap(items, 100);
    let mut head = owned("P");
    push_decimal(&mut head, r.priority as u64);
    push_str(&mut head, ". ");
    push_str(&mut head, r.action.as_str());
    push_line(items, head.as_str(), Face::Bold, 1050, 500);
    let mut cur = owned("    Current:      ");
    push_str(&mut cur, r.current.as_str());
    push_wrapped(items, cur.as_str(), Face::Regular, 950, 450, 95);
    let mut rep = owned("    Replace with: ");
    push_str(&mut rep, r.replace_with.as_str());
    push_wrapped(items, rep.as_str(), Face::Regular, 950, 450, 95);
    let mut foot = owned("    Effort: ");
    push_decimal(&mut foot, r.effort_weeks as u64);
    push_str(&mut foot, " weeks | NIST: ");
    push_str(&mut foot, r.nist_algorithm.as_str());
    push_line(items, foot.as_str(), Face::Regular, 900, 450);
    assert(items_of(items@) =~= start + rec_items(*r));
}

fn push_recs(items: &mut Vec<PdfItem>, rs: &Vec<Recommendation>)
    requires
        all_printable(items_of(old(items)@)),
    ensures
        all_printable(items_of(final(items)@)),
        items_of(final(items)@) == items_of(old(items)@) + recs_section_items(rs@),
{
    let ghost start = items_of(items@);
    let mut title = owned("Recommendations (");
    push_decimal(&mut title, rs.len() as u64);
    push_str(&mut title, ")");
    push_section(items, title.as_str());
    let ghost head = items_of(items@);
    if rs.len() == 0 {
        push_line(items, "None required.", Face::Regular, 1000, 500);
    } else {
        for i in 0..rs.len()
            invariant
                items_of(items@) == head + rec_list_items(rs@.take(i as int)),
                all_printable(items_of(items@)),
        {
            assert(rs@.take(i + 1).drop_last() =~= rs@.take(i as int));
            push_rec(items, &rs[i]);
            assert(items_of(items@) =~= head + rec_list_items(rs@.take(i + 1)));
        }
        assert(rs@.take(rs.len() as int) =~= rs@);
    }
    assert(items_of(items@) =~= start + recs_section_items(rs@));
}

/// The PDF report of a scan: A4 pages of Helvetica text laid out top down.
pub struct PdfReporter;

impl PdfReporter {
    /// The content of the PDF report, top to bottom: cover with score and
    /// executive summary, the TLS, certificate and HTTP findings, the
    /// vulnerabilities, the recommendations, and the generator's mark for
    /// program version `version`. Every line is reduced to the characters the
    /// fonts can show; long text is word-wrapped.
    pub fn layout(r: &ScanReport, version: &str) -> (res: Vec<PdfItem>)
        ensures
            items_of(res@) == report_items(*r, version@),
            all_printable(items_of(res@)),
    {
        let mut items: Vec<PdfItem> = Vec::new();
        assert(items_of(items@) =~= Seq::<PdfItemView>::empty());
        push_cover(&mut items, r);
        push_tls(&mut items, &r.tls);
        push_cert(&mut items, &r.certificate);
        push_http(&mut items, &r.http);
        push_vulns(&mut items, &r.vulnerabilities);
        push_recs(&mut items, &r.recommendations);
        push_gap(&mut items, 400);
        let mut mark = owned("Generated by RonwayScanner v");
        push_str(&mut mark, version);
        push_str(&mut mark, " — BPxAI — All Rights Reserved");
        push_line(&mut items, mark.as_str(), Face::Regular, 800, 400);
        assert(items_of(items@) =~= report_items(*r, version@));
        items
    }
}

} // verus!
