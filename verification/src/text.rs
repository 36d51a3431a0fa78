//! Character-level string helpers used by the classifiers and parsers.
//!
//! Every helper works on the `Seq<char>` view of a string, so that the
//! contracts of the callers can be stated with the same vocabulary as
//! `str::trim`, `str::to_ascii_uppercase`, `str::starts_with` and friends.

use vstd::prelude::*;

verus! {

/// The characters of each string.
pub open spec fn string_views(v: Seq<String>) -> Seq<Seq<char>> {
    v.map_values(|s: String| s@)
}

// ───────────────────────────── specifications ─────────────────────────────

/// `char::is_whitespace`: the Unicode `White_Space` property.
pub open spec fn is_whitespace(c: char) -> bool {
    let u = c as u32;
    ||| 9 <= u <= 13
    ||| u == 32
    ||| u == 0x85
    ||| u == 0xA0
    ||| u == 0x1680
    ||| 0x2000 <= u <= 0x200A
    ||| u == 0x2028
    ||| u == 0x2029
    ||| u == 0x202F
    ||| u == 0x205F
    ||| u == 0x3000
}

/// `str::trim_start`.
pub open spec fn trim_start(s: Seq<char>) -> Seq<char>
    decreases s.len(),
{
    if s.len() > 0 && is_whitespace(s[0]) {
        trim_start(s.drop_first())
    } else {
        s
    }
}

/// `str::trim_end`.
pub open spec fn trim_end(s: Seq<char>) -> Seq<char>
    decreases s.len(),
{
    if s.len() > 0 && is_whitespace(s.last()) {
        trim_end(s.drop_last())
    } else {
        s
    }
}

/// `str::trim`.
pub open spec fn trim(s: Seq<char>) -> Seq<char> {
    trim_end(trim_start(s))
}

/// `char::is_ascii_digit`.
pub open spec fn is_ascii_digit(c: char) -> bool {
    48 <= (c as u32) <= 57
}

/// `char::is_ascii_alphanumeric`.
pub open spec fn is_ascii_alphanumeric(c: char) -> bool {
    let u = c as u32;
    ||| 48 <= u <= 57
    ||| 65 <= u <= 90
    ||| 97 <= u <= 122
}

/// `char::to_ascii_uppercase`.
pub open spec fn upper(c: char) -> char {
    if 97 <= (c as u32) <= 122 {
        ((c as u32) - 32) as char
    } else {
        c
    }
}

/// `char::to_ascii_lowercase`.
pub open spec fn lower(c: char) -> char {
    if 65 <= (c as u32) <= 90 {
        ((c as u32) + 32) as char
    } else {
        c
    }
}

/// `str::to_ascii_uppercase`.
pub open spec fn to_upper(s: Seq<char>) -> Seq<char> {
    s.map_values(|c: char| upper(c))
}

/// `str::to_ascii_lowercase`.
pub open spec fn to_lower(s: Seq<char>) -> Seq<char> {
    s.map_values(|c: char| lower(c))
}

/// `str::contains` with a string pattern.
pub open spec fn has_infix(s: Seq<char>, p: Seq<char>) -> bool {
    exists|i: int| 0 <= i && i + p.len() <= s.len() && #[trigger] s.subrange(i, i + p.len()) == p
}

/// The character of a decimal digit `d < 10`.
pub open spec fn digit_char(d: int) -> char {
    (d + 48) as char
}

/// The numeric value of an ASCII digit.
pub open spec fn digit_value(c: char) -> nat {
    ((c as u32) - 48) as nat
}

/// Decimal rendering of a natural number (`Display` for unsigned integers).
pub open spec fn decimal(n: nat) -> Seq<char>
    decreases n,
{
    if n < 10 {
        seq![digit_char(n as int)]
    } else {
        decimal(n / 10).push(digit_char((n % 10) as int))
    }
}

/// Decimal rendering of an integer (`Display` for signed integers).
pub open spec fn signed_decimal(n: int) -> Seq<char> {
    if n < 0 {
        seq!['-'] + decimal((-n) as nat)
    } else {
        decimal(n as nat)
    }
}

/// The value of a non-empty run of ASCII digits.
pub open spec fn digits_value(s: Seq<char>) -> nat
    decreases s.len(),
{
    if s.len() == 0 {
        0
    } else {
        digits_value(s.drop_last()) * 10 + digit_value(s.last())
    }
}

/// Every character is an ASCII digit.
pub open spec fn all_digits(s: Seq<char>) -> bool {
    forall|i: int| 0 <= i < s.len() ==> is_ascii_digit(#[trigger] s[i])
}

/// `FromStr` for an unsigned integer type whose largest value is `max`:
/// an optional `+`, then one or more ASCII digits, with no overflow.
pub open spec fn parse_unsigned(s: Seq<char>, max: nat) -> Option<nat> {
    let d = if s.len() > 0 && s[0] == '+' { s.drop_first() } else { s };
    if d.len() > 0 && all_digits(d) && digits_value(d) <= max {
        Some(digits_value(d))
    } else {
        None
    }
}

/// Length of the UTF-8 encoding of one character.
pub open spec fn utf8_width(c: char) -> nat {
    let u = c as u32;
    if u < 0x80 {
        1
    } else if u < 0x800 {
        2
    } else if u < 0x10000 {
        3
    } else {
        4
    }
}

/// Length in bytes of the UTF-8 encoding of a string (`str::len`).
pub open spec fn utf8_len(s: Seq<char>) -> nat
    decreases s.len(),
{
    if s.len() == 0 {
        0
    } else {
        utf8_len(s.drop_last()) + utf8_width(s.last())
    }
}

/// `str::split` on every character for which `sep` holds.
pub open spec fn split_by(s: Seq<char>, sep: spec_fn(char) -> bool) -> Seq<Seq<char>>
    decreases s.len(),
{
    if s.len() == 0 {
        seq![Seq::<char>::empty()]
    } else {
        let pieces = split_by(s.drop_last(), sep);
        if sep(s.last()) {
            pieces.push(Seq::<char>::empty())
        } else {
            pieces.update(pieces.len() - 1, pieces.last().push(s.last()))
        }
    }
}

/// `str::split(c)` for a single separator character.
pub open spec fn split_on(s: Seq<char>, c: char) -> Seq<Seq<char>> {
    split_by(s, |x: char| x == c)
}

/// Index of the last occurrence of `c`, as `str::rfind` gives it.
pub open spec fn last_index_of(s: Seq<char>, c: char) -> Option<int>
    decreases s.len(),
{
    if s.len() == 0 {
        None
    } else if s.last() == c {
        Some(s.len() - 1)
    } else {
        last_index_of(s.drop_last(), c)
    }
}

/// Characters that end the host part of a URL: `/`, `?` and `#`.
pub open spec fn is_path_start(c: char) -> bool {
    c == '/' || c == '?' || c == '#'
}

/// Length of the longest prefix of `s` before any `/`, `?` or `#`.
pub open spec fn path_prefix_len(s: Seq<char>) -> nat
    decreases s.len(),
{
    if s.len() == 0 {
        0
    } else if is_path_start(s[0]) {
        0
    } else {
        1 + path_prefix_len(s.drop_first())
    }
}

// ───────────────────────────── lemmas ─────────────────────────────

/// The last occurrence of `c` lies inside `s`, holds `c`, and nothing after it does.
pub proof fn lemma_last_index_of(s: Seq<char>, c: char)
    ensures
        last_index_of(s, c) matches Some(k) ==> 0 <= k < s.len() && s[k] == c && !s.skip(k + 1).contains(c),
        last_index_of(s, c) is None ==> !s.contains(c),
    decreases s.len(),
{
    if s.len() > 0 {
        lemma_last_index_of(s.drop_last(), c);
        if s.last() != c {
            if let Some(k) = last_index_of(s.drop_last(), c) {
                assert(s.drop_last()[k] == s[k]);
                assert forall|j: int| 0 <= j < s.skip(k + 1).len() implies #[trigger] s.skip(k + 1)[j] != c by {
                    if k + 1 + j < s.len() - 1 {
                        assert(s.skip(k + 1)[j] == s.drop_last().skip(k + 1)[j]);
                    }
                }
            } else {
                assert forall|j: int| 0 <= j < s.len() implies #[trigger] s[j] != c by {
                    if j < s.len() - 1 {
                        assert(s[j] == s.drop_last()[j]);
                    }
                }
            }
        } else {
            assert(s.skip(s.len() as int).len() == 0);
        }
    }
}

proof fn lemma_trim_start_skip(s: Seq<char>, k: int)
    requires
        0 <= k <= s.len(),
        forall|j: int| 0 <= j < k ==> is_whitespace(#[trigger] s[j]),
        k == s.len() || !is_whitespace(s[k]),
    ensures
        trim_start(s) == s.skip(k),
    decreases k,
{
    if k == 0 {
        assert(s.skip(0) =~= s);
    } else {
        let t = s.drop_first();
        assert forall|j: int| 0 <= j < k - 1 implies is_whitespace(#[trigger] t[j]) by {
            assert(t[j] == s[j + 1]);
        }
        if k - 1 < t.len() {
            assert(t[k - 1] == s[k]);
        }
        lemma_trim_start_skip(t, k - 1);
        assert(t.skip(k - 1) =~= s.skip(k));
    }
}

proof fn lemma_trim_end_take(s: Seq<char>, k: int)
    requires
        0 <= k <= s.len(),
        forall|j: int| k <= j < s.len() ==> is_whitespace(#[trigger] s[j]),
        k == 0 || !is_whitespace(s[k - 1]),
    ensures
        trim_end(s) == s.take(k),
    decreases s.len() - k,
{
    if k == s.len() {
        assert(s.take(k) =~= s);
    } else {
        let t = s.drop_last();
        assert forall|j: int| k <= j < t.len() implies is_whitespace(#[trigger] t[j]) by {
            assert(t[j] == s[j]);
        }
        if k > 0 {
            assert(t[k - 1] == s[k - 1]);
        }
        lemma_trim_end_take(t, k);
        assert(t.take(k) =~= s.take(k));
    }
}

/// Splitting on a character always yields at least one piece.
pub proof fn lemma_split_on_has_a_piece(s: Seq<char>, c: char)
    ensures
        split_on(s, c).len() >= 1,
    decreases s.len(),
{
    if s.len() > 0 {
        lemma_split_on_has_a_piece(s.drop_last(), c);
    }
}

/// Digit runs evaluate no lower when more digits are appended.
pub proof fn lemma_digits_value_prefix(s: Seq<char>, i: int)
    requires
        0 <= i <= s.len(),
    ensures
        digits_value(s.take(i)) <= digits_value(s),
    decreases s.len() - i,
{
    if i < s.len() {
        lemma_digits_value_prefix(s, i + 1);
        assert(s.take(i + 1).drop_last() =~= s.take(i));
        assert(digits_value(s.take(i + 1)) == digits_value(s.take(i)) * 10 + digit_value(
            s.take(i + 1).last(),
        ));
        assert(digits_value(s.take(i)) <= digits_value(s.take(i)) * 10) by (nonlinear_arith);
    } else {
        assert(s.take(i) =~= s);
    }
}

// ───────────────────────────── executable helpers ─────────────────────────────

/// Appends one character to a `String` (std's `String::push`).
#[verifier::external_body]
pub(crate) fn push_char(s: &mut String, c: char)
    ensures
        final(s)@ == old(s)@.push(c),
{
    s.push(c)
}

/// The characters of `s`, in order.
pub fn chars_of(s: &str) -> (res: Vec<char>)
    ensures
        res@ == s@,
{
    broadcast use vstd::string::group_string_axioms;

    let mut res: Vec<char> = Vec::new();
    for c in it: s.chars()
        invariant
            it.seq() == s@,
            res@ == it.seq().take(it.index() as int),
    {
        res.push(c);
    }
    res
}

/// Appends characters to a `String`.
pub fn push_chars(s: &mut String, v: &[char])
    ensures
        final(s)@ == old(s)@ + v@,
{
    let ghost start = s@;
    for i in 0..v.len()
        invariant
            s@ == start + v@.take(i as int),
    {
        push_char(s, v[i]);
        assert(v@.take(i + 1) =~= v@.take(i as int).push(v@[i as int]));
    }
    assert(v@.take(v.len() as int) =~= v@);
}

/// Appends a string slice to a `String`.
pub fn push_str(s: &mut String, t: &str)
    ensures
        final(s)@ == old(s)@ + t@,
{
    let v = chars_of(t);
    push_chars(s, v.as_slice());
}

/// A `String` holding exactly the given characters.
pub fn string_of(v: &[char]) -> (res: String)
    ensures
        res@ == v@,
{
    let mut s = String::new();
    push_chars(&mut s, v);
    s
}

/// A `String` copy of a string slice.
pub fn owned(t: &str) -> (res: String)
    ensures
        res@ == t@,
{
    let mut s = String::new();
    push_str(&mut s, t);
    s
}

/// The characters `v[from..to]`.
pub fn slice_chars(v: &[char], from: usize, to: usize) -> (res: Vec<char>)
    requires
        from <= to <= v@.len(),
    ensures
        res@ == v@.subrange(from as int, to as int),
{
    let mut res: Vec<char> = Vec::new();
    let mut i = from;
    while i < to
        invariant
            from <= i <= to <= v@.len(),
            res@ == v@.subrange(from as int, i as int),
        decreases to - i,
    {
        res.push(v[i]);
        i = i + 1;
        assert(v@.subrange(from as int, i as int) =~= v@.subrange(from as int, i - 1).push(
            v@[i - 1],
        ));
    }
    res
}

/// `char::is_whitespace`.
pub fn char_is_whitespace(c: char) -> (res: bool)
    ensures
        res == is_whitespace(c),
{
    let u = c as u32;
    (9 <= u && u <= 13) || u == 32 || u == 0x85 || u == 0xA0 || u == 0x1680 || (0x2000 <= u && u
        <= 0x200A) || u == 0x2028 || u == 0x2029 || u == 0x202F || u == 0x205F || u == 0x3000
}

/// `char::is_ascii_digit`.
pub fn char_is_digit(c: char) -> (res: bool)
    ensures
        res == is_ascii_digit(c),
{
    let u = c as u32;
    48 <= u && u <= 57
}

/// `char::is_ascii_alphanumeric`.
pub fn char_is_alphanumeric(c: char) -> (res: bool)
    ensures
        res == is_ascii_alphanumeric(c),
{
    let u = c as u32;
    (48 <= u && u <= 57) || (65 <= u && u <= 90) || (97 <= u && u <= 122)
}

/// `char::to_ascii_uppercase`.
pub fn char_upper(c: char) -> (res: char)
    ensures
        res == upper(c),
{
    let u = c as u32;
    if 97 <= u && u <= 122 {
        let b = (u - 32) as u8;
        b as char
    } else {
        c
    }
}

/// `char::to_ascii_lowercase`.
pub fn char_lower(c: char) -> (res: char)
    ensures
        res == lower(c),
{
    let u = c as u32;
    if 65 <= u && u <= 90 {
        let b = (u + 32) as u8;
        b as char
    } else {
        c
    }
}

/// `str::to_ascii_uppercase` on characters.
pub fn upper_chars(v: &[char]) -> (res: Vec<char>)
    ensures
        res@ == to_upper(v@),
{
    let mut res: Vec<char> = Vec::new();
    for i in 0..v.len()
        invariant
            res@ == to_upper(v@.take(i as int)),
    {
        res.push(char_upper(v[i]));
        assert(to_upper(v@.take(i + 1)) =~= to_upper(v@.take(i as int)).push(upper(v@[i as int])));
    }
    assert(v@.take(v.len() as int) =~= v@);
    res
}

/// `str::to_ascii_lowercase` on characters.
pub fn lower_chars(v: &[char]) -> (res: Vec<char>)
    ensures
        res@ == to_lower(v@),
{
    let mut res: Vec<char> = Vec::new();
    for i in 0..v.len()
        invariant
            res@ == to_lower(v@.take(i as int)),
    {
        res.push(char_lower(v[i]));
        assert(to_lower(v@.take(i + 1)) =~= to_lower(v@.take(i as int)).push(lower(v@[i as int])));
    }
    assert(v@.take(v.len() as int) =~= v@);
    res
}

/// `str::trim_start` on characters.
pub fn trim_start_chars(v: &[char]) -> (res: Vec<char>)
    ensures
        res@ == trim_start(v@),
{
    let mut k: usize = 0;
    while k < v.len() && char_is_whitespace(v[k])
        invariant
            k <= v@.len(),
            forall|j: int| 0 <= j < k ==> is_whitespace(#[trigger] v@[j]),
        decreases v.len() - k,
    {
        k = k + 1;
    }
    proof {
        lemma_trim_start_skip(v@, k as int);
    }
    slice_chars(v, k, v.len())
}

/// `str::trim_end` on characters.
pub fn trim_end_chars(v: &[char]) -> (res: Vec<char>)
    ensures
        res@ == trim_end(v@),
{
    let mut k: usize = v.len();
    while k > 0 && char_is_whitespace(v[k - 1])
        invariant
            k <= v@.len(),
            forall|j: int| k <= j < v@.len() ==> is_whitespace(#[trigger] v@[j]),
        decreases k,
    {
        k = k - 1;
    }
    proof {
        lemma_trim_end_take(v@, k as int);
    }
    slice_chars(v, 0, k)
}

/// `str::trim` on characters.
pub fn trim_chars(v: &[char]) -> (res: Vec<char>)
    ensures
        res@ == trim(v@),
{
    let s = trim_start_chars(v);
    trim_end_chars(s.as_slice())
}

/// Whether two character sequences are equal.
pub fn chars_eq(a: &[char], b: &[char]) -> (res: bool)
    ensures
        res == (a@ == b@),
{
    if a.len() != b.len() {
        return false;
    }
    for i in 0..a.len()
        invariant
            a@.len() == b@.len(),
            forall|j: int| 0 <= j < i ==> a@[j] == b@[j],
    {
        if a[i] != b[i] {
            return false;
        }
    }
    assert(a@ =~= b@);
    true
}

/// Whether `a` spells the string `lit`.
pub fn eq_str(a: &[char], lit: &str) -> (res: bool)
    ensures
        res == (a@ == lit@),
{
    let b = chars_of(lit);
    chars_eq(a, b.as_slice())
}

/// Whether `p` occurs in `a` at position `at`.
fn matches_at(a: &[char], p: &[char], at: usize) -> (res: bool)
    requires
        at + p@.len() <= a@.len(),
    ensures
        res == (a@.subrange(at as int, at + p@.len()) == p@),
{
    let n = a.len();
    for j in 0..p.len()
        invariant
            n == a@.len(),
            at + p@.len() <= a@.len(),
            forall|k: int| 0 <= k < j ==> a@[at + k] == p@[k],
    {
        assert(at + j < a@.len());
        if a[at + j] != p[j] {
            assert(a@.subrange(at as int, at + p@.len())[j as int] != p@[j as int]);
            return false;
        }
    }
    assert(a@.subrange(at as int, at + p@.len()) =~= p@);
    true
}

/// `str::starts_with` with a string pattern.
pub fn starts_with_str(a: &[char], lit: &str) -> (res: bool)
    ensures
        res == lit@.is_prefix_of(a@),
{
    let p = chars_of(lit);
    if p.len() > a.len() {
        return false;
    }
    let r = matches_at(a, p.as_slice(), 0);
    r
}

/// `str::ends_with` with a string pattern.
pub fn ends_with_str(a: &[char], lit: &str) -> (res: bool)
    ensures
        res == lit@.is_suffix_of(a@),
{
    let p = chars_of(lit);
    if p.len() > a.len() {
        return false;
    }
    let at = a.len() - p.len();
    matches_at(a, p.as_slice(), at)
}

/// `str::contains` with a string pattern.
pub fn contains_str(a: &[char], lit: &str) -> (res: bool)
    ensures
        res == has_infix(a@, lit@),
{
    let p = chars_of(lit);
    if p.len() > a.len() {
        return false;
    }
    if p.len() == 0 {
        assert(a@.subrange(0, 0 + lit@.len() as int) =~= lit@);
        return true;
    }
    let n = a.len();
    let last = n - p.len();
    let mut i: usize = 0;
    while i <= last
        invariant
            n == a@.len(),
            p@.len() >= 1,
            last + p@.len() == a@.len(),
            p@ == lit@,
            forall|k: int| 0 <= k < i ==> #[trigger] a@.subrange(k, k + p@.len()) != p@,
        decreases last + 1 - i,
    {
        if matches_at(a, p.as_slice(), i) {
            return true;
        }
        i = i + 1;
    }
    false
}

/// Whether some character of `a` is an ASCII digit.
pub fn any_digit(a: &[char]) -> (res: bool)
    ensures
        res == exists|i: int| 0 <= i < a@.len() && is_ascii_digit(#[trigger] a@[i]),
{
    for i in 0..a.len()
        invariant
            forall|j: int| 0 <= j < i ==> !is_ascii_digit(#[trigger] a@[j]),
    {
        if char_is_digit(a[i]) {
            return true;
        }
    }
    false
}

/// `Display` of an unsigned integer.
pub fn decimal_chars(n: u64) -> (res: Vec<char>)
    ensures
        res@ == decimal(n as nat),
    decreases n,
{
    let d = (n % 10) as u8;
    let c = (d + 48) as char;
    if n < 10 {
        let mut v: Vec<char> = Vec::new();
        v.push(c);
        v
    } else {
        let mut v = decimal_chars(n / 10);
        v.push(c);
        v
    }
}

/// Appends the decimal rendering of `n`.
pub fn push_decimal(s: &mut String, n: u64)
    ensures
        final(s)@ == old(s)@ + decimal(n as nat),
{
    let v = decimal_chars(n);
    push_chars(s, v.as_slice());
}

/// Appends the decimal rendering of a signed `n`.
pub fn push_signed_decimal(s: &mut String, n: i64)
    ensures
        final(s)@ == old(s)@ + signed_decimal(n as int),
{
    if n < 0 {
        let ghost start = s@;
        push_char(s, '-');
        let m: u64 = if n == i64::MIN {
            9223372036854775808u64
        } else {
            (-n) as u64
        };
        push_decimal(s, m);
        assert(s@ =~= start + signed_decimal(n as int));
    } else {
        push_decimal(s, n as u64);
    }
}

/// Value of a run of ASCII digits, when it is one and is at most `max`.
pub fn parse_digits(d: &[char], max: u64) -> (res: Option<u64>)
    ensures
        res matches Some(v) ==> all_digits(d@) && digits_value(d@) == v as nat && v <= max,
        res is None ==> !(all_digits(d@) && digits_value(d@) <= max),
{
    let mut acc: u64 = 0;
    let mut i: usize = 0;
    while i < d.len()
        invariant
            i <= d@.len(),
            acc as nat == digits_value(d@.take(i as int)),
            acc <= max,
            all_digits(d@.take(i as int)),
        decreases d.len() - i,
    {
        let c = d[i];
        if !char_is_digit(c) {
            proof {
                assert(!is_ascii_digit(d@[i as int]));
            }
            return None;
        }
        let dv = (c as u32 - 48) as u64;
        proof {
            assert(d@.take(i + 1).drop_last() =~= d@.take(i as int));
        }
        if dv > max || acc > (max - dv) / 10 {
            proof {
                assert(acc * 10 + dv > max) by (nonlinear_arith)
                    requires
                        dv > max || acc > (max - dv) / 10,
                ;
                lemma_digits_value_prefix(d@, i + 1);
            }
            return None;
        }
        proof {
            assert(acc * 10 + dv <= max) by (nonlinear_arith)
                requires
                    acc <= (max - dv) / 10,
                    dv <= max,
            ;
            assert forall|j: int| 0 <= j < i + 1 implies is_ascii_digit(#[trigger] d@.take(i + 1)[j]) by {
                if j < i {
                    assert(d@.take(i + 1)[j] == d@.take(i as int)[j]);
                }
            }
        }
        acc = acc * 10 + dv;
        i = i + 1;
    }
    assert(d@.take(i as int) =~= d@);
    Some(acc)
}

/// `FromStr` for an unsigned integer bounded by `max`.
pub fn parse_unsigned_chars(s: &[char], max: u64) -> (res: Option<u64>)
    ensures
        res matches Some(v) ==> parse_unsigned(s@, max as nat) == Some(v as nat),
        res is None ==> parse_unsigned(s@, max as nat) is None,
{
    let start: usize = if s.len() > 0 && s[0] == '+' {
        1
    } else {
        0
    };
    let d = slice_chars(s, start, s.len());
    assert(d@ =~= (if s@.len() > 0 && s@[0] == '+' {
        s@.drop_first()
    } else {
        s@
    }));
    if d.len() == 0 {
        return None;
    }
    parse_digits(d.as_slice(), max)
}

/// Index of the last occurrence of `c` (`str::rfind`).
pub fn rfind_char(v: &[char], c: char) -> (res: Option<usize>)
    ensures
        res matches Some(k) ==> last_index_of(v@, c) == Some(k as int),
        res is None ==> last_index_of(v@, c) is None,
{
    let mut k: usize = v.len();
    assert(v@.take(k as int) =~= v@);
    while k > 0
        invariant
            k <= v@.len(),
            last_index_of(v@, c) == last_index_of(v@.take(k as int), c),
        decreases k,
    {
        assert(v@.take(k as int).drop_last() =~= v@.take(k - 1));
        if v[k - 1] == c {
            return Some(k - 1);
        }
        k = k - 1;
    }
    None
}

/// Whether `c` occurs in `v`.
pub fn contains_char(v: &[char], c: char) -> (res: bool)
    ensures
        res == v@.contains(c),
{
    for i in 0..v.len()
        invariant
            forall|j: int| 0 <= j < i ==> v@[j] != c,
    {
        if v[i] == c {
            assert(v@[i as int] == c);
            return true;
        }
    }
    false
}

/// `str::split(c)` for a single separator character.
pub fn split_chars(v: &[char], sep: char) -> (res: Vec<Vec<char>>)
    ensures
        res@.map_values(|p: Vec<char>| p@) == split_on(v@, sep),
{
    let mut pieces: Vec<Vec<char>> = Vec::new();
    pieces.push(Vec::new());
    assert(pieces@.map_values(|p: Vec<char>| p@) =~= split_on(v@.take(0), sep));
    for i in 0..v.len()
        invariant
            pieces@.len() >= 1,
            pieces@.map_values(|p: Vec<char>| p@) == split_on(v@.take(i as int), sep),
    {
        let ghost before = pieces@.map_values(|p: Vec<char>| p@);
        assert(v@.take(i + 1).drop_last() =~= v@.take(i as int));
        let c = v[i];
        if c == sep {
            pieces.push(Vec::new());
            assert(pieces@.map_values(|p: Vec<char>| p@) =~= before.push(Seq::<char>::empty()));
        } else {
            let last = pieces.len() - 1;
            let mut piece = pieces.pop().unwrap();
            piece.push(c);
            pieces.push(piece);
            assert(pieces@.map_values(|p: Vec<char>| p@) =~= before.update(
                before.len() - 1,
                before.last().push(c),
            ));
        }
    }
    assert(v@.take(v.len() as int) =~= v@);
    pieces
}

/// Number of leading characters before the first `/`, `?` or `#`.
pub fn prefix_len_before_path(v: &[char]) -> (res: usize)
    ensures
        res as nat == path_prefix_len(v@),
        res <= v@.len(),
{
    let mut k: usize = 0;
    assert(v@.skip(0) =~= v@);
    while k < v.len() && !(v[k] == '/' || v[k] == '?' || v[k] == '#')
        invariant
            k <= v@.len(),
            path_prefix_len(v@) == k + path_prefix_len(v@.skip(k as int)),
        decreases v.len() - k,
    {
        assert(v@.skip(k as int).drop_first() =~= v@.skip(k + 1));
        assert(v@.skip(k as int)[0] == v@[k as int]);
        k = k + 1;
    }
    if k < v.len() {
        assert(v@.skip(k as int)[0] == v@[k as int]);
    } else {
        assert(v@.skip(k as int).len() == 0);
    }
    k
}

/// `char::len_utf8`.
pub fn char_utf8_width(c: char) -> (res: usize)
    ensures
        res as nat == utf8_width(c),
{
    let u = c as u32;
    if u < 0x80 {
        1
    } else if u < 0x800 {
        2
    } else if u < 0x10000 {
        3
    } else {
        4
    }
}

/// `str::len`: the length of the UTF-8 encoding, saturating at `usize::MAX`.
pub fn utf8_len_chars(v: &[char]) -> (res: usize)
    ensures
        res as nat == (if utf8_len(v@) > usize::MAX {
            usize::MAX as nat
        } else {
            utf8_len(v@)
        }),
{
    let mut total: usize = 0;
    for i in 0..v.len()
        invariant
            total as nat == (if utf8_len(v@.take(i as int)) > usize::MAX {
                usize::MAX as nat
            } else {
                utf8_len(v@.take(i as int))
            }),
    {
        assert(v@.take(i + 1).drop_last() =~= v@.take(i as int));
        let w = char_utf8_width(v[i]);
        total = total.saturating_add(w);
    }
    assert(v@.take(v.len() as int) =~= v@);
    total
}

/// `trim_start` drops a prefix: what is left is `s` from some index on.
pub proof fn lemma_trim_start_is_suffix(s: Seq<char>) -> (k: int)
    ensures
        0 <= k <= s.len(),
        trim_start(s) == s.skip(k),
    decreases s.len(),
{
    if s.len() > 0 && is_whitespace(s[0]) {
        let k1 = lemma_trim_start_is_suffix(s.drop_first());
        assert(s.drop_first().skip(k1) =~= s.skip(k1 + 1));
        k1 + 1
    } else {
        assert(s.skip(0) =~= s);
        0
    }
}

/// `trim_end` drops a suffix: what is left is `s` up to some index.
pub proof fn lemma_trim_end_is_prefix(s: Seq<char>) -> (m: int)
    ensures
        0 <= m <= s.len(),
        trim_end(s) == s.take(m),
    decreases s.len(),
{
    if s.len() > 0 && is_whitespace(s.last()) {
        let m1 = lemma_trim_end_is_prefix(s.drop_last());
        assert(s.drop_last().take(m1) =~= s.take(m1));
        m1
    } else {
        assert(s.take(s.len() as int) =~= s);
        s.len() as int
    }
}

/// `trim` keeps one run of `s`.
pub proof fn lemma_trim_is_run(s: Seq<char>) -> (ab: (int, int))
    ensures
        0 <= ab.0 <= ab.1 <= s.len(),
        trim(s) == s.subrange(ab.0, ab.1),
{
    let k = lemma_trim_start_is_suffix(s);
    let m = lemma_trim_end_is_prefix(s.skip(k));
    assert(s.skip(k).take(m) =~= s.subrange(k, k + m));
    (k, k + m)
}

/// Upper-casing commutes with taking a run.
pub proof fn lemma_to_upper_run(s: Seq<char>, a: int, b: int)
    requires
        0 <= a <= b <= s.len(),
    ensures
        to_upper(s).subrange(a, b) == to_upper(s.subrange(a, b)),
{
    assert(to_upper(s).subrange(a, b) =~= to_upper(s.subrange(a, b)));
}

/// A text that neither starts nor ends with whitespace is its own trim.
pub proof fn lemma_trim_of_unpadded(s: Seq<char>)
    requires
        s.len() > 0,
        !is_whitespace(s[0]),
        !is_whitespace(s.last()),
    ensures
        trim(s) == s,
{
}

} // verus!
