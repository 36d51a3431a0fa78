//! Which address a request is attributed to. The server sits behind a
//! local reverse proxy: only a request arriving from a loopback address may
//! name its client in `X-Forwarded-For` or `X-Real-IP`; any other request
//! is attributed to its socket peer, whatever headers it carries.

use vstd::prelude::*;

use reqwest::header::HeaderMap;

use crate::scanner::http::{header_first_values, header_raw, header_raw_text};
use crate::server::rate_limiter::ClientIp;
use crate::text::{split_chars, split_on, string_of, to_lower, trim, trim_chars};

verus! {

/// A loopback address: 127.0.0.0/8, or `::1`.
pub open spec fn is_loopback(ip: ClientIp) -> bool {
    match ip {
        ClientIp::V4(a) => a / 0x0100_0000 == 127,
        ClientIp::V6(a) => a == 1,
    }
}

/// Whether an address is a loopback address (127.0.0.0/8 or `::1`).
pub fn loopback(ip: ClientIp) -> (res: bool)
    ensures
        res == is_loopback(ip),
{
    match ip {
        ClientIp::V4(a) => a / 0x0100_0000 == 127,
        ClientIp::V6(a) => a == 1,
    }
}

/// The first entry of a header value's comma-separated list, trimmed.
pub open spec fn first_listed(text: Seq<char>) -> Seq<char> {
    trim(split_on(text, ',')[0])
}

/// The address text a proxy header offers: the first entry of
/// `X-Forwarded-For`, trimmed.
pub open spec fn forwarded_text(headers: Map<Seq<char>, Seq<u8>>) -> Option<Seq<char>> {
    match header_raw_text(headers, "x-forwarded-for"@) {
        Some(t) => Some(first_listed(t)),
        None => None,
    }
}

/// The address text of `X-Real-IP`, trimmed.
pub open spec fn real_ip_text(headers: Map<Seq<char>, Seq<u8>>) -> Option<Seq<char>> {
    match header_raw_text(headers, "x-real-ip"@) {
        Some(t) => Some(trim(t)),
        None => None,
    }
}

/// The first entry of the `X-Forwarded-For` header, trimmed, when the
/// header is present and readable as text.
pub fn forwarded_for(headers: &HeaderMap) -> (res: Option<String>)
    ensures
        res matches Some(s) ==> forwarded_text(header_first_values(*headers)) == Some(s@),
        res is None ==> forwarded_text(header_first_values(*headers)) is None,
{
    let name = "x-forwarded-for";
    proof {
        reveal_strlit("x-forwarded-for");
        assert(to_lower(name@) =~= name@);
    }
    match header_raw(headers, name) {
        Some(v) => {
            let pieces = split_chars(v.as_slice(), ',');
            proof {
                crate::text::lemma_split_on_has_a_piece(v@, ',');
                assert(pieces@.map_values(|p: Vec<char>| p@).len() == pieces@.len());
                assert(pieces@.map_values(|p: Vec<char>| p@)[0] == pieces@[0]@);
            }
            let first = trim_chars(pieces[0].as_slice());
            Some(string_of(first.as_slice()))
        },
        None => None,
    }
}

/// The `X-Real-IP` header, trimmed, when it is present and readable as text.
pub fn real_ip(headers: &HeaderMap) -> (res: Option<String>)
    ensures
        res matches Some(s) ==> real_ip_text(header_first_values(*headers)) == Some(s@),
        res is None ==> real_ip_text(header_first_values(*headers)) is None,
{
    let name = "x-real-ip";
    proof {
        reveal_strlit("x-real-ip");
        assert(to_lower(name@) =~= name@);
    }
    match header_raw(headers, name) {
        Some(v) => {
            let t = trim_chars(v.as_slice());
            Some(string_of(t.as_slice()))
        },
        None => None,
    }
}

/// The address a request is attributed to, given its socket peer and the
/// addresses read from `X-Forwarded-For` and `X-Real-IP` (where they held
/// one): a request from a loopback peer is attributed to the forwarded
/// address, else the real-IP address, else the peer; any other request to
/// its peer.
pub open spec fn attributed(socket: ClientIp, forwarded: Option<ClientIp>, real_ip_addr: Option<ClientIp>) -> ClientIp {
    if is_loopback(socket) {
        match forwarded {
            Some(ip) => ip,
            None => match real_ip_addr {
                Some(ip) => ip,
                None => socket,
            },
        }
    } else {
        socket
    }
}

/// The address a request is attributed to (see [`attributed`]).
pub fn client_ip(socket: ClientIp, forwarded: Option<ClientIp>, real_ip_addr: Option<ClientIp>) -> (res:
    ClientIp)
    ensures
        res == attributed(socket, forwarded, real_ip_addr),
{
    if loopback(socket) {
        match forwarded {
            Some(ip) => ip,
            None => match real_ip_addr {
                Some(ip) => ip,
                None => socket,
            },
        }
    } else {
        socket
    }
}

/// Proxy headers cannot move a request away from its peer unless the peer
/// is the local proxy: a request from a non-loopback address is always
/// attributed to that address.
pub proof fn law_headers_trusted_only_from_loopback(
    socket: ClientIp,
    forwarded: Option<ClientIp>,
    real_ip_addr: Option<ClientIp>,
)
    requires
        !is_loopback(socket),
    ensures
        attributed(socket, forwarded, real_ip_addr) == socket,
{
}

} // verus!
