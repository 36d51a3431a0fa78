//! The HTTP finding of a response: which security headers it carries, and
//! the `max-age` of its Strict-Transport-Security policy.

use vstd::prelude::*;

use reqwest::header::{HeaderMap, HeaderValue};

use crate::models::finding::HttpFinding;
use crate::text::{
    chars_of, lower_chars, parse_unsigned, parse_unsigned_chars, slice_chars, split_chars,
    split_on, starts_with_str, string_of, to_lower, trim, trim_chars, trim_start,
    trim_start_chars,
};

verus! {

/// Seconds allowed for the HTTPS request.
pub const TIMEOUT_SECS: u64 = 10;
/// Redirects followed before the request gives up.
pub const MAX_REDIRECTS: usize = 5;

#[verifier::external_type_specification]
#[verifier::external_body]
#[verifier::reject_recursive_types(T)]
pub struct ExHeaderMap<T>(HeaderMap<T>);

#[verifier::external_type_specification]
#[verifier::external_body]
pub struct ExHeaderValue(HeaderValue);

/// What a header map holds: for each header name present (in the lower
/// case that `HeaderName::as_str` gives), the bytes of the first value
/// stored under it.
pub uninterp spec fn header_first_values(headers: HeaderMap) -> Map<Seq<char>, Seq<u8>>;

/// `HeaderMap::get` with a `&str` key, the value handed back as its bytes.
/// The key is matched case-insensitively, so the lookup is by its lower-case
/// form; the first value stored under the name comes back.
#[verifier::external_body]
fn header_bytes(headers: &HeaderMap, name: &str) -> (res: Option<Vec<u8>>)
    ensures
        res matches Some(v) ==> header_first_values(*headers).dom().contains(to_lower(name@))
            && v@ == header_first_values(*headers)[to_lower(name@)],
        res is None ==> !header_first_values(*headers).dom().contains(to_lower(name@)),
{
    match headers.get(name) {
        Some(v) => Some(v.as_bytes().to_vec()),
        None => None,
    }
}

/// `HeaderMap::contains_key` with a `&str` key, matched case-insensitively.
#[verifier::external_body]
fn header_present(headers: &HeaderMap, name: &str) -> (res: bool)
    ensures
        res == header_first_values(*headers).dom().contains(to_lower(name@)),
{
    headers.contains_key(name)
}

// ───────────────────────────── specifications ─────────────────────────────

/// A byte that `HeaderValue::to_str` accepts: visible ASCII or a tab.
pub open spec fn is_visible_ascii(b: u8) -> bool {
    (32 <= b && b < 127) || b == 9
}

/// A header value as text (`HeaderValue::to_str`), when every byte of it
/// is visible ASCII.
pub open spec fn header_value_str(bytes: Seq<u8>) -> Option<Seq<char>> {
    if forall|i: int| 0 <= i < bytes.len() ==> is_visible_ascii(#[trigger] bytes[i]) {
        Some(bytes.map_values(|b: u8| b as char))
    } else {
        None
    }
}

/// A header value as trimmed text, when every byte of it is visible ASCII.
pub open spec fn header_value_text(bytes: Seq<u8>) -> Option<Seq<char>> {
    match header_value_str(bytes) {
        Some(t) => Some(trim(t)),
        None => None,
    }
}

/// The text of the first value of header `name`, when it is present and
/// readable as text.
pub open spec fn header_raw_text(headers: Map<Seq<char>, Seq<u8>>, name: Seq<char>) -> Option<
    Seq<char>,
> {
    if headers.dom().contains(name) {
        header_value_str(headers[name])
    } else {
        None
    }
}

/// The trimmed text of the first value of header `name`, when it is present
/// and readable as text.
pub open spec fn header_text(headers: Map<Seq<char>, Seq<u8>>, name: Seq<char>) -> Option<Seq<char>> {
    if headers.dom().contains(name) {
        header_value_text(headers[name])
    } else {
        None
    }
}

/// `str::trim_start_matches('"')`.
pub open spec fn strip_leading_quotes(s: Seq<char>) -> Seq<char>
    decreases s.len(),
{
    if s.len() > 0 && s[0] == '"' {
        strip_leading_quotes(s.drop_first())
    } else {
        s
    }
}

/// `str::trim_end_matches('"')`.
pub open spec fn strip_trailing_quotes(s: Seq<char>) -> Seq<char>
    decreases s.len(),
{
    if s.len() > 0 && s.last() == '"' {
        strip_trailing_quotes(s.drop_last())
    } else {
        s
    }
}

/// `str::trim_matches('"')`.
pub open spec fn unquote(s: Seq<char>) -> Seq<char> {
    strip_trailing_quotes(strip_leading_quotes(s))
}

/// The directive name `max-age`.
pub open spec fn max_age_name() -> Seq<char> {
    seq!['m', 'a', 'x', '-', 'a', 'g', 'e']
}

/// The value of one `;`-separated HSTS directive when it is `max-age=N`
/// (directive name in any case, blanks around `=` and the value, the
/// value optionally in double quotes) and `N` fits a `u64`.
pub open spec fn max_age_directive(part: Seq<char>) -> Option<nat> {
    let lower = to_lower(trim(part));
    if max_age_name().is_prefix_of(lower) {
        let rest = trim_start(lower.skip(7));
        if rest.len() > 0 && rest[0] == '=' {
            parse_unsigned(unquote(trim(rest.drop_first())), u64::MAX as nat)
        } else {
            None
        }
    } else {
        None
    }
}

/// The value of the first directive among `parts` that is a readable `max-age`.
pub open spec fn first_max_age(parts: Seq<Seq<char>>) -> Option<nat>
    decreases parts.len(),
{
    if parts.len() == 0 {
        None
    } else {
        match max_age_directive(parts[0]) {
            Some(n) => Some(n),
            None => first_max_age(parts.drop_first()),
        }
    }
}

/// The `max-age` of a Strict-Transport-Security header value.
pub open spec fn hsts_max_age(value: Seq<char>) -> Option<nat> {
    first_max_age(split_on(value, ';'))
}

// ───────────────────────────── lemmas ─────────────────────────────

proof fn lemma_strip_leading_quotes(s: Seq<char>, k: int)
    requires
        0 <= k <= s.len(),
        forall|j: int| 0 <= j < k ==> #[trigger] s[j] == '"',
        k == s.len() || s[k] != '"',
    ensures
        strip_leading_quotes(s) == s.skip(k),
    decreases k,
{
    if k == 0 {
        assert(s.skip(0) =~= s);
    } else {
        let t = s.drop_first();
        assert forall|j: int| 0 <= j < k - 1 implies #[trigger] t[j] == '"' by {
            assert(t[j] == s[j + 1]);
        }
        if k - 1 < t.len() {
            assert(t[k - 1] == s[k]);
        }
        lemma_strip_leading_quotes(t, k - 1);
        assert(t.skip(k - 1) =~= s.skip(k));
    }
}

proof fn lemma_strip_trailing_quotes(s: Seq<char>, k: int)
    requires
        0 <= k <= s.len(),
        forall|j: int| k <= j < s.len() ==> #[trigger] s[j] == '"',
        k == 0 || s[k - 1] != '"',
    ensures
        strip_trailing_quotes(s) == s.take(k),
    decreases s.len() - k,
{
    if k == s.len() {
        assert(s.take(k) =~= s);
    } else {
        let t = s.drop_last();
        assert forall|j: int| k <= j < t.len() implies #[trigger] t[j] == '"' by {
            assert(t[j] == s[j]);
        }
        if k > 0 {
            assert(t[k - 1] == s[k - 1]);
        }
        lemma_strip_trailing_quotes(t, k);
        assert(t.take(k) =~= s.take(k));
    }
}

// ───────────────────────────── executable code ─────────────────────────────

/// `str::trim_matches('"')` on characters.
fn unquote_chars(v: &[char]) -> (res: Vec<char>)
    ensures
        res@ == unquote(v@),
{
    let mut k: usize = 0;
    while k < v.len() && v[k] == '"'
        invariant
            k <= v@.len(),
            forall|j: int| 0 <= j < k ==> #[trigger] v@[j] == '"',
        decreases v.len() - k,
    {
        k = k + 1;
    }
    proof {
        lemma_strip_leading_quotes(v@, k as int);
    }
    let s = slice_chars(v, k, v.len());
    let mut e: usize = s.len();
    while e > 0 && s[e - 1] == '"'
        invariant
            e <= s@.len(),
            forall|j: int| e <= j < s@.len() ==> #[trigger] s@[j] == '"',
        decreases e,
    {
        e = e - 1;
    }
    proof {
        lemma_strip_trailing_quotes(s@, e as int);
    }
    slice_chars(s.as_slice(), 0, e)
}

/// The value of one HSTS directive when it is a readable `max-age=N`.
fn max_age_of(part: &[char]) -> (res: Option<u64>)
    ensures
        res matches Some(n) ==> max_age_directive(part@) == Some(n as nat),
        res is None ==> max_age_directive(part@) is None,
{
    let trimmed = trim_chars(part);
    let lower = lower_chars(trimmed.as_slice());
    let is_max_age = starts_with_str(lower.as_slice(), "max-age");
    proof {
        reveal_strlit("max-age");
        assert("max-age"@ =~= max_age_name());
    }
    if !is_max_age {
        return None;
    }
    let after = slice_chars(lower.as_slice(), 7, lower.len());
    assert(after@ =~= lower@.skip(7));
    let rest = trim_start_chars(after.as_slice());
    if rest.len() == 0 || rest[0] != '=' {
        return None;
    }
    let value = slice_chars(rest.as_slice(), 1, rest.len());
    assert(value@ =~= rest@.drop_first());
    let value = trim_chars(value.as_slice());
    let raw = unquote_chars(value.as_slice());
    parse_unsigned_chars(raw.as_slice(), u64::MAX)
}

/// The `max-age` directive of a Strict-Transport-Security header value:
/// the first `;`-separated directive that reads as `max-age=N` with `N` a
/// `u64` (directive name in any case, value optionally quoted). `None` when
/// there is no such directive.
pub fn parse_hsts_max_age(value: &str) -> (res: Option<u64>)
    ensures
        res matches Some(n) ==> hsts_max_age(value@) == Some(n as nat),
        res is None ==> hsts_max_age(value@) is None,
{
    let chars = chars_of(value);
    let parts = split_chars(chars.as_slice(), ';');
    let ghost views = parts@.map_values(|p: Vec<char>| p@);
    assert(views.skip(0) =~= views);
    let mut i: usize = 0;
    while i < parts.len()
        invariant
            i <= parts@.len(),
            views == parts@.map_values(|p: Vec<char>| p@),
            views == split_on(chars@, ';'),
            chars@ == value@,
            first_max_age(views) == first_max_age(views.skip(i as int)),
        decreases parts.len() - i,
    {
        let found = max_age_of(parts[i].as_slice());
        assert(views.skip(i as int)[0] == parts@[i as int]@);
        if let Some(n) = found {
            return Some(n);
        }
        assert(views.skip(i as int).drop_first() =~= views.skip(i + 1));
        i = i + 1;
    }
    assert(views.skip(i as int).len() == 0);
    None
}

/// `HeaderValue::to_str`: the text of a header value when every byte of it
/// is visible ASCII.
fn value_str(bytes: &[u8]) -> (res: Option<Vec<char>>)
    ensures
        res matches Some(s) ==> header_value_str(bytes@) == Some(s@),
        res is None ==> header_value_str(bytes@) is None,
{
    let mut chars: Vec<char> = Vec::new();
    for i in 0..bytes.len()
        invariant
            chars@ == bytes@.take(i as int).map_values(|b: u8| b as char),
            forall|j: int| 0 <= j < i ==> is_visible_ascii(#[trigger] bytes@[j]),
    {
        let b = bytes[i];
        if !((32 <= b && b < 127) || b == 9) {
            assert(!is_visible_ascii(bytes@[i as int]));
            return None;
        }
        chars.push(b as char);
        assert(bytes@.take(i + 1).map_values(|b: u8| b as char) =~= bytes@.take(i as int).map_values(
            |b: u8| b as char,
        ).push(b as char));
    }
    assert(bytes@.take(bytes.len() as int) =~= bytes@);
    Some(chars)
}

/// The text of the first value of header `name`, untrimmed.
pub(crate) fn header_raw(headers: &HeaderMap, name: &str) -> (res: Option<Vec<char>>)
    ensures
        res matches Some(s) ==> header_raw_text(header_first_values(*headers), to_lower(name@)) == Some(s@),
        res is None ==> header_raw_text(header_first_values(*headers), to_lower(name@)) is None,
{
    match header_bytes(headers, name) {
        Some(bytes) => value_str(bytes.as_slice()),
        None => None,
    }
}

/// The trimmed text of the first value of header `name`.
fn header_str(headers: &HeaderMap, name: &str) -> (res: Option<String>)
    ensures
        res matches Some(s) ==> header_text(header_first_values(*headers), to_lower(name@)) == Some(s@),
        res is None ==> header_text(header_first_values(*headers), to_lower(name@)) is None,
{
    match header_raw(headers, name) {
        Some(v) => {
            let t = trim_chars(v.as_slice());
            Some(string_of(t.as_slice()))
        },
        None => None,
    }
}

/// The HTTP probe.
pub struct HttpScanner;

/// The finding for a response whose headers hold `values` (see
/// [`header_first_values`]).
pub open spec fn http_finding_matches(f: HttpFinding, values: Map<Seq<char>, Seq<u8>>) -> bool {
    let hsts = header_text(values, "strict-transport-security"@);
    &&& f.hsts_enabled == (hsts is Some)
    &&& (match hsts {
        Some(v) => match f.hsts_max_age {
            Some(n) => hsts_max_age(v) == Some(n as nat),
            None => hsts_max_age(v) is None,
        },
        None => f.hsts_max_age is None,
    })
    &&& f.csp_present == values.dom().contains("content-security-policy"@)
    &&& (match f.x_frame_options {
        Some(s) => header_text(values, "x-frame-options"@) == Some(s@),
        None => header_text(values, "x-frame-options"@) is None,
    })
    &&& (match f.server_header {
        Some(s) => header_text(values, "server"@) == Some(s@),
        None => header_text(values, "server"@) is None,
    })
}

/// The security headers of a response: whether Strict-Transport-Security
/// is present as text and its `max-age`, whether Content-Security-Policy
/// is present, and the trimmed X-Frame-Options and Server values.
pub fn parse_headers(headers: &HeaderMap) -> (res: HttpFinding)
    ensures
        http_finding_matches(res, header_first_values(*headers)),
{
    let hsts_name = "strict-transport-security";
    let csp_name = "content-security-policy";
    let xfo_name = "x-frame-options";
    let server_name = "server";
    proof {
        reveal_strlit("strict-transport-security");
        reveal_strlit("content-security-policy");
        reveal_strlit("x-frame-options");
        reveal_strlit("server");
        assert(to_lower(hsts_name@) =~= hsts_name@);
        assert(to_lower(csp_name@) =~= csp_name@);
        assert(to_lower(xfo_name@) =~= xfo_name@);
        assert(to_lower(server_name@) =~= server_name@);
    }
    let hsts_value = header_str(headers, hsts_name);
    let hsts_enabled = hsts_value.is_some();
    let hsts_max_age = match &hsts_value {
        Some(v) => parse_hsts_max_age(v.as_str()),
        None => None,
    };
    HttpFinding {
        hsts_enabled,
        hsts_max_age,
        csp_present: header_present(headers, csp_name),
        x_frame_options: header_str(headers, xfo_name),
        server_header: header_str(headers, server_name),
    }
}

} // verus!
