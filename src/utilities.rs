use vstd::prelude::*;
use vstd::utf8::{valid_utf8, decode_utf8};
use vstd::slice::slice_subrange;

use crate::error::ProxyError;
use crate::socks5::{port_of, read_port, IpAddress, SocketAddress};

verus! {

/// Relies on std::str::from_utf8: it accepts exactly the valid UTF-8 byte
/// strings, and decodes them.
#[verifier::external_body]
fn decode_utf8_bytes(b: &[u8]) -> (r: Option<String>)
    ensures
        r is Some <==> valid_utf8(b@),
        r matches Some(s) ==> s@ == decode_utf8(b@),
{
    match std::str::from_utf8(b) {
        Ok(s) => Some(s.to_owned()),
        Err(_) => None,
    }
}

/// The IP address that a text spells, where it is an IPv4 or IPv6 address
/// literal.
pub uninterp spec fn ip_literal(s: Seq<char>) -> Option<IpAddress>;

/// Relies on the `FromStr` impl of `core::net::IpAddr`: which address, if
/// any, the text is a literal of; the result depends on the text alone.
#[verifier::external_body]
fn parse_ip_literal(s: &str) -> (r: Option<IpAddress>)
    ensures
        r == ip_literal(s@),
{
    match s.parse::<core::net::IpAddr>() {
        Ok(core::net::IpAddr::V4(a)) => Some(IpAddress::V4(a.octets())),
        Ok(core::net::IpAddr::V6(a)) => Some(IpAddress::V6(a.octets())),
        Err(_) => None,
    }
}

/// Where a domain request points: an address given as a literal, or a host
/// name still to resolve, with the port.
#[derive(Clone, Debug, PartialEq, Eq)]
pub enum Destination {
    Address(SocketAddress),
    Name(String, u16),
}

/// The destination of a host name and port, given what the name spells as
/// an IP literal: that address where it is one, else the name to resolve.
pub open spec fn destination_of(
    literal: Option<IpAddress>,
    host: Seq<char>,
    port: u16,
    d: Destination,
) -> bool {
    match literal {
        Some(ip) => d == Destination::Address(SocketAddress { ip, port }),
        None => d matches Destination::Name(h, p) && h@ == host && p == port,
    }
}

/// The destination of a host name and port, where `literal` is what the
/// name spells as an IP literal.
pub fn destination(literal: Option<IpAddress>, host: String, port: u16) -> (r: Destination)
    ensures
        destination_of(literal, host@, port, r),
{
    match literal {
        Some(ip) => Destination::Address(SocketAddress { ip, port }),
        None => Destination::Name(host, port),
    }
}

/// The host name part of a domain payload: all but the last two bytes.
pub open spec fn host_bytes(buf: Seq<u8>) -> Seq<u8> {
    buf.subrange(0, buf.len() - 2)
}

/// The port of a domain payload: its last two bytes, high byte first.
pub open spec fn payload_port(buf: Seq<u8>) -> u16 {
    port_of(buf[buf.len() - 2], buf[buf.len() - 1])
}

/// Reads a domain payload (host name bytes, then two port bytes): an IP
/// literal becomes its address directly, any other name is left to resolve.
/// Fails when the host name is not valid UTF-8.
pub fn name_port(addr_buf: &[u8]) -> (r: Result<Destination, ProxyError>)
    requires
        addr_buf@.len() >= 2,
    ensures
        r is Ok <==> valid_utf8(host_bytes(addr_buf@)),
        r matches Ok(d) ==> destination_of(
            ip_literal(decode_utf8(host_bytes(addr_buf@))),
            decode_utf8(host_bytes(addr_buf@)),
            payload_port(addr_buf@),
            d,
        ),
        r is Err ==> r == Err::<Destination, ProxyError>(ProxyError::InvalidHostname),
{
    let pos = addr_buf.len() - 2;
    let host = slice_subrange(addr_buf, 0, pos);
    match decode_utf8_bytes(host) {
        Some(h) => {
            let port = read_port(addr_buf[pos], addr_buf[pos + 1]);
            let literal = parse_ip_literal(h.as_str());
            Ok(destination(literal, h, port))
        },
        None => Err(ProxyError::InvalidHostname),
    }
}

} // verus!
