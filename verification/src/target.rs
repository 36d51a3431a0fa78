//! Turning a user-supplied target (`host`, `host:port`, or a URL) into the
//! host and port to connect to, and recognising IPv4 literals.

use vstd::prelude::*;

use crate::text::{
    all_digits, chars_of, contains_char, digits_value, is_path_start, last_index_of,
    parse_digits, parse_unsigned, parse_unsigned_chars, path_prefix_len,
    prefix_len_before_path, rfind_char, slice_chars, split_chars, split_on, starts_with_str,
    string_of, trim, trim_chars,
};

verus! {

/// Why a target could not be split into host and port.
#[derive(Clone, Debug)]
pub enum TargetError {
    /// Nothing but whitespace was given.
    Empty,
    /// The scheme and path left no host.
    NoHost,
    /// More than one `:`: an IPv6 literal, which is not supported.
    Ipv6Unsupported,
    /// The text after the last `:` is not a port number.
    InvalidPort(String),
    /// The port is 0.
    ZeroPort,
}

/// The abstract content of a [`TargetError`].
pub enum TargetFault {
    Empty,
    NoHost,
    Ipv6Unsupported,
    InvalidPort(Seq<char>),
    ZeroPort,
}

impl View for TargetError {
    type V = TargetFault;

    open spec fn view(&self) -> TargetFault {
        match self {
            TargetError::Empty => TargetFault::Empty,
            TargetError::NoHost => TargetFault::NoHost,
            TargetError::Ipv6Unsupported => TargetFault::Ipv6Unsupported,
            TargetError::InvalidPort(p) => TargetFault::InvalidPort(p@),
            TargetError::ZeroPort => TargetFault::ZeroPort,
        }
    }
}

/// The target with a leading `https://` or `http://` removed.
pub open spec fn strip_scheme(t: Seq<char>) -> Seq<char> {
    if "https://"@.is_prefix_of(t) {
        t.skip(8)
    } else if "http://"@.is_prefix_of(t) {
        t.skip(7)
    } else {
        t
    }
}

/// The `host[:port]` part: scheme removed, cut before any path, query or
/// fragment, then trimmed.
pub open spec fn host_port_of(t: Seq<char>) -> Seq<char> {
    let s = strip_scheme(t);
    trim(s.take(path_prefix_len(s) as int))
}

/// Splits a trimmed, non-empty target into host and optional inline port.
pub open spec fn split_target(t: Seq<char>) -> Result<(Seq<char>, Option<u16>), TargetFault> {
    let hp = host_port_of(t);
    if hp.len() == 0 {
        Err(TargetFault::NoHost)
    } else {
        match last_index_of(hp, ':') {
            Some(k) => {
                let h = hp.take(k);
                let p = hp.skip(k + 1);
                if h.contains(':') {
                    Err(TargetFault::Ipv6Unsupported)
                } else {
                    match parse_unsigned(p, 65535) {
                        None => Err(TargetFault::InvalidPort(p)),
                        Some(n) => if n == 0 {
                            Err(TargetFault::ZeroPort)
                        } else {
                            Ok((h, Some(n as u16)))
                        },
                    }
                }
            },
            None => Ok((hp, None)),
        }
    }
}

/// Host and optional inline port of a raw target: `https://example.com/foo`,
/// `example.com` and `example.com:8443` all name the host `example.com`.
pub open spec fn normalized_target(raw: Seq<char>) -> Result<(Seq<char>, Option<u16>), TargetFault> {
    let t = trim(raw);
    if t.len() == 0 {
        Err(TargetFault::Empty)
    } else {
        split_target(t)
    }
}

/// One dotted-quad group as `Ipv4Addr::from_str` reads it: one to three ASCII
/// digits, no leading zero unless the group is `0`, at most 255.
pub open spec fn octet(s: Seq<char>) -> Option<u8> {
    if 1 <= s.len() <= 3 && all_digits(s) && (s.len() == 1 || s[0] != '0') && digits_value(s)
        <= 255 {
        Some(digits_value(s) as u8)
    } else {
        None
    }
}

/// The four octets of an IPv4 literal, as `Ipv4Addr::from_str` accepts it.
pub open spec fn ipv4_of(s: Seq<char>) -> Option<(u8, u8, u8, u8)> {
    let parts = split_on(s, '.');
    if parts.len() == 4 && octet(parts[0]) is Some && octet(parts[1]) is Some && octet(parts[2]) is Some
        && octet(parts[3]) is Some {
        Some(
            (
                octet(parts[0]).unwrap(),
                octet(parts[1]).unwrap(),
                octet(parts[2]).unwrap(),
                octet(parts[3]).unwrap(),
            ),
        )
    } else {
        None
    }
}

/// Reads one dotted-quad group.
pub fn parse_octet(v: &[char]) -> (res: Option<u8>)
    ensures
        res matches Some(o) ==> octet(v@) == Some(o),
        res is None ==> octet(v@) is None,
{
    if v.len() == 0 || v.len() > 3 {
        return None;
    }
    if v.len() > 1 && v[0] == '0' {
        return None;
    }
    match parse_digits(v, 255) {
        Some(n) => Some(n as u8),
        None => None,
    }
}

/// Parses an IPv4 literal the way `Ipv4Addr::from_str` does.
pub fn parse_ipv4(s: &[char]) -> (res: Option<(u8, u8, u8, u8)>)
    ensures
        res == ipv4_of(s@),
{
    let parts = split_chars(s, '.');
    let ghost views = parts@.map_values(|p: Vec<char>| p@);
    if parts.len() != 4 {
        return None;
    }
    assert(views[0] == parts@[0]@ && views[1] == parts@[1]@ && views[2] == parts@[2]@ && views[3]
        == parts@[3]@);
    let a = parse_octet(parts[0].as_slice());
    let b = parse_octet(parts[1].as_slice());
    let c = parse_octet(parts[2].as_slice());
    let d = parse_octet(parts[3].as_slice());
    match (a, b, c, d) {
        (Some(a), Some(b), Some(c), Some(d)) => Some((a, b, c, d)),
        _ => None,
    }
}

/// The characters after a leading `https://` or `http://`.
fn strip_scheme_chars(t: &[char]) -> (res: Vec<char>)
    ensures
        res@ == strip_scheme(t@),
{
    if starts_with_str(t, "https://") {
        proof {
            reveal_strlit("https://");
        }
        slice_chars(t, 8, t.len())
    } else if starts_with_str(t, "http://") {
        proof {
            reveal_strlit("http://");
        }
        slice_chars(t, 7, t.len())
    } else {
        slice_chars(t, 0, t.len())
    }
}

/// The trimmed `host[:port]` part of a target.
pub fn host_port_chars(t: &[char]) -> (res: Vec<char>)
    ensures
        res@ == host_port_of(t@),
{
    let s = strip_scheme_chars(t);
    let k = prefix_len_before_path(s.as_slice());
    let hp = slice_chars(s.as_slice(), 0, k);
    assert(hp@ =~= s@.take(k as int));
    trim_chars(hp.as_slice())
}

/// Splits a trimmed, non-empty target into host and optional inline port.
pub fn split_target_chars(t: &[char]) -> (res: Result<(Vec<char>, Option<u16>), TargetError>)
    ensures
        res matches Ok((h, p)) ==> split_target(t@) == Ok::<(Seq<char>, Option<u16>), TargetFault>((h@, p)),
        res matches Err(e) ==> split_target(t@) == Err::<(Seq<char>, Option<u16>), TargetFault>(e@),
{
    let hp = host_port_chars(t);
    if hp.len() == 0 {
        return Err(TargetError::NoHost);
    }
    match rfind_char(hp.as_slice(), ':') {
        Some(k) => {
            proof {
                crate::text::lemma_last_index_of(hp@, ':');
            }
            let h = slice_chars(hp.as_slice(), 0, k);
            let p = slice_chars(hp.as_slice(), k + 1, hp.len());
            assert(h@ =~= hp@.take(k as int));
            assert(p@ =~= hp@.skip(k + 1));
            if contains_char(h.as_slice(), ':') {
                return Err(TargetError::Ipv6Unsupported);
            }
            match parse_unsigned_chars(p.as_slice(), 65535) {
                None => Err(TargetError::InvalidPort(string_of(p.as_slice()))),
                Some(n) => {
                    if n == 0 {
                        Err(TargetError::ZeroPort)
                    } else {
                        Ok((h, Some(n as u16)))
                    }
                },
            }
        },
        None => Ok((hp, None)),
    }
}

} // verus!
