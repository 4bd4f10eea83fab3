//! The messages of a SOCKS5 CONNECT without authentication (RFC 1928), as
//! the relay exchanges them with a proxy. The socket I/O is the caller's.
use vstd::prelude::*;
use crate::dns_cache::SocketAddress;
use crate::ip_header::IpAddress;

verus! {

/// Why a SOCKS5 exchange failed.
#[derive(Clone, Copy, Debug, PartialEq, Eq, Structural)]
pub enum Socks5Error {
    /// The proxy did not accept "no authentication".
    HandshakeFailed,
    /// Only IPv4 destinations are supported.
    Ipv6Unsupported,
    /// The proxy refused the connection.
    ConnectFailed,
    /// The reply announces an address type other than 1, 3 or 4.
    UnknownAddressType(u8),
}

/// What follows the first four bytes of a CONNECT reply.
#[derive(Clone, Copy, Debug, PartialEq, Eq, Structural)]
pub enum ReplyTail {
    /// This many bytes: the bound address and port.
    Fixed(usize),
    /// A domain name: one length byte, then that many bytes and the port.
    DomainName,
}

/// The greeting: version 5, one method, "no authentication".
pub fn socks5_greeting() -> (g: [u8; 3])
    ensures
        g@ == seq![5u8, 1, 0],
{
    [5, 1, 0]
}

/// The proxy accepted the greeting: it answered version 5, method 0.
pub fn greeting_accepted(response: &[u8; 2]) -> (b: bool)
    ensures
        b == (response@ == seq![5u8, 0]),
{
    let b = response[0] == 5 && response[1] == 0;
    assert(b == (response@ =~= seq![5u8, 0]));
    b
}

/// The CONNECT request for an IPv4 destination: version 5, CONNECT, reserved,
/// address type 1, the four address bytes and the port in network order.
pub open spec fn connect_request_bytes(ip: [u8; 4], port: u16) -> Seq<u8> {
    seq![5u8, 1, 0, 1] + ip@ + seq![(port / 256) as u8, (port % 256) as u8]
}

pub fn connect_request(destination: &SocketAddress) -> (r: Result<Vec<u8>, Socks5Error>)
    ensures
        match destination.ip {
            IpAddress::V4(ip) => r matches Ok(v) && v@ == connect_request_bytes(ip, destination.port),
            IpAddress::V6(_) => r == Err::<Vec<u8>, Socks5Error>(Socks5Error::Ipv6Unsupported),
        },
{
    match destination.ip {
        IpAddress::V4(ip) => {
            let mut v: Vec<u8> = Vec::new();
            v.push(5);
            v.push(1);
            v.push(0);
            v.push(1);
            v.push(ip[0]);
            v.push(ip[1]);
            v.push(ip[2]);
            v.push(ip[3]);
            v.push((destination.port / 256) as u8);
            v.push((destination.port % 256) as u8);
            assert(v@ =~= connect_request_bytes(ip, destination.port));
            Ok(v)
        },
        IpAddress::V6(_) => Err(Socks5Error::Ipv6Unsupported),
    }
}

/// Reads the first four bytes of a CONNECT reply: success needs version 5
/// and status 0; the address type (byte 3) tells what follows.
pub open spec fn spec_reply_tail(reply: Seq<u8>) -> Result<ReplyTail, Socks5Error> {
    if reply[0] != 5 || reply[1] != 0 {
        Err(Socks5Error::ConnectFailed)
    } else if reply[3] == 1 {
        Ok(ReplyTail::Fixed(6))
    } else if reply[3] == 3 {
        Ok(ReplyTail::DomainName)
    } else if reply[3] == 4 {
        Ok(ReplyTail::Fixed(18))
    } else {
        Err(Socks5Error::UnknownAddressType(reply[3]))
    }
}

/// A CONNECT reply succeeds only with version 5 and status 0: any other
/// status (refused, unreachable, ...) or version is `ConnectFailed`, whatever
/// the address type; a successful reply tells a fixed tail of 6 bytes (IPv4)
/// or 18 bytes (IPv6), or a domain name.
pub proof fn lemma_reply_needs_success_status(reply: Seq<u8>)
    requires
        reply.len() == 4,
    ensures
        reply[1] != 0 ==> spec_reply_tail(reply) == Err::<ReplyTail, Socks5Error>(Socks5Error::ConnectFailed),
        reply[0] != 5 ==> spec_reply_tail(reply) == Err::<ReplyTail, Socks5Error>(Socks5Error::ConnectFailed),
        spec_reply_tail(reply) is Ok ==> reply[0] == 5 && reply[1] == 0,
        spec_reply_tail(reply) matches Ok(ReplyTail::Fixed(n)) ==> (n == 6 && reply[3] == 1) || (n == 18
            && reply[3] == 4),
{
}

pub fn reply_tail(reply: &[u8; 4]) -> (r: Result<ReplyTail, Socks5Error>)
    ensures
        r == spec_reply_tail(reply@),
{
    if reply[0] != 5 || reply[1] != 0 {
        return Err(Socks5Error::ConnectFailed);
    }
    let addr_type = reply[3];
    if addr_type == 1 {
        Ok(ReplyTail::Fixed(4 + 2))
    } else if addr_type == 3 {
        Ok(ReplyTail::DomainName)
    } else if addr_type == 4 {
        Ok(ReplyTail::Fixed(16 + 2))
    } else {
        Err(Socks5Error::UnknownAddressType(addr_type))
    }
}

/// How many bytes are read after the length byte of a domain name: the
/// length plus three.
pub fn domain_name_tail(len_byte: u8) -> (n: usize)
    ensures
        n == len_byte + 3,
{
    len_byte as usize + 1 + 2
}

} // verus!
