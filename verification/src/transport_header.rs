//! Transport headers (TCP or UDP): parsed data, and views bound to raw bytes.
use vstd::prelude::*;
use crate::ipv4_header::Protocol;
use crate::ip_header::IpHeaderData;
use crate::byte_order::put_u16;
use crate::tcp_header::{
    TcpHeader, TcpHeaderData, TcpHeaderMut, spec_parse_tcp, tcp_consistent,
};
use crate::udp_header::{UdpHeader, UdpHeaderData, UdpHeaderMut, udp_consistent, udp_checksum};
use crate::pseudo_header::transport_checksum;

verus! {

#[derive(Clone, Copy, Debug, PartialEq, Eq)]
pub enum TransportHeaderData {
    Tcp(TcpHeaderData),
    Udp(UdpHeaderData),
}

/// The length of a transport header.
pub open spec fn transport_header_length(d: TransportHeaderData) -> u8 {
    match d {
        TransportHeaderData::Tcp(t) => t.header_length,
        TransportHeaderData::Udp(_) => 8,
    }
}

/// `data` is what `raw` encodes, and `raw` is exactly the header.
pub open spec fn transport_consistent(d: TransportHeaderData, raw: Seq<u8>) -> bool {
    match d {
        TransportHeaderData::Tcp(t) => tcp_consistent(t, raw),
        TransportHeaderData::Udp(u) => udp_consistent(u, raw),
    }
}

/// The transport header at the start of `raw` under `protocol`, when `raw`
/// holds all of it; TCP or UDP only.
pub open spec fn transport_parses(protocol: Protocol, raw: Seq<u8>) -> bool {
    match protocol {
        Protocol::Tcp => raw.len() >= 20 && 20 <= spec_parse_tcp(raw).header_length <= raw.len(),
        Protocol::Udp => raw.len() >= 8,
        Protocol::Other => false,
    }
}

/// What a header's first bytes encode stays so when bytes follow them.
pub proof fn lemma_transport_consistent_extend(d: TransportHeaderData, a: Seq<u8>, b: Seq<u8>)
    requires
        transport_consistent(d, a),
    ensures
        transport_consistent(d, a + b),
{
    assert(forall|i: int| 0 <= i < a.len() ==> (a + b)[i] == a[i]);
}

impl TransportHeaderData {
    /// The transport header that `raw` starts with, if `protocol` is TCP or UDP
    /// and `raw` holds all of the header.
    pub fn parse(protocol: Protocol, raw: &[u8]) -> (r: Option<Self>)
        ensures
            r is Some <==> transport_parses(protocol, raw@),
            r matches Some(d) ==> transport_consistent(d, raw@) && transport_header_length(d)
                <= raw@.len() && (protocol is Tcp ==> d is Tcp) && (protocol is Udp ==> d is Udp),
    {
        match protocol {
            Protocol::Tcp => {
                if raw.len() < 20 {
                    return None;
                }
                let d = TcpHeaderData::parse(raw);
                if d.header_length < 20 || d.header_length as usize > raw.len() {
                    None
                } else {
                    Some(TransportHeaderData::Tcp(d))
                }
            },
            Protocol::Udp => {
                if raw.len() < 8 {
                    None
                } else {
                    Some(TransportHeaderData::Udp(UdpHeaderData::parse(raw)))
                }
            },
            Protocol::Other => None,
        }
    }

    pub fn header_length(&self) -> (r: u8)
        ensures
            r == transport_header_length(*self),
    {
        match self {
            TransportHeaderData::Tcp(t) => t.header_length(),
            TransportHeaderData::Udp(_) => 8,
        }
    }

    pub fn source_port(&self) -> (r: u16)
        ensures
            r == match *self {
                TransportHeaderData::Tcp(t) => t.source_port,
                TransportHeaderData::Udp(u) => u.source_port,
            },
    {
        match self {
            TransportHeaderData::Tcp(t) => t.source_port,
            TransportHeaderData::Udp(u) => u.source_port,
        }
    }

    pub fn destination_port(&self) -> (r: u16)
        ensures
            r == match *self {
                TransportHeaderData::Tcp(t) => t.destination_port,
                TransportHeaderData::Udp(u) => u.destination_port,
            },
    {
        match self {
            TransportHeaderData::Tcp(t) => t.destination_port,
            TransportHeaderData::Udp(u) => u.destination_port,
        }
    }

    pub fn bind<'a>(&'a self, raw: &'a [u8]) -> (h: TransportHeader<'a>)
        ensures
            transport_header_data(h) == *self,
            transport_header_raw(h) == raw@,
    {
        match self {
            TransportHeaderData::Tcp(t) => TransportHeader::Tcp(t.bind(raw)),
            TransportHeaderData::Udp(u) => TransportHeader::Udp(u.bind(raw)),
        }
    }

    pub fn bind_mut<'a>(&'a mut self, raw: &'a mut [u8]) -> (h: TransportHeaderMut<'a>)
        ensures
            match (*old(self), h) {
                (TransportHeaderData::Tcp(t), TransportHeaderMut::Tcp(m)) => {
                    &&& *m.data == t
                    &&& m.raw@ == old(raw)@
                    &&& final(m.raw)@ == final(raw)@
                    &&& *final(self) == TransportHeaderData::Tcp(*final(m.data))
                },
                (TransportHeaderData::Udp(u), TransportHeaderMut::Udp(m)) => {
                    &&& *m.data == u
                    &&& m.raw@ == old(raw)@
                    &&& final(m.raw)@ == final(raw)@
                    &&& *final(self) == TransportHeaderData::Udp(*final(m.data))
                },
                _ => false,
            },
    {
        match self {
            TransportHeaderData::Tcp(t) => TransportHeaderMut::Tcp(t.bind_mut(raw)),
            TransportHeaderData::Udp(u) => TransportHeaderMut::Udp(u.bind_mut(raw)),
        }
    }
}

pub enum TransportHeader<'a> {
    Tcp(TcpHeader<'a>),
    Udp(UdpHeader<'a>),
}

pub open spec fn transport_header_data(h: TransportHeader) -> TransportHeaderData {
    match h {
        TransportHeader::Tcp(t) => TransportHeaderData::Tcp(*t.data),
        TransportHeader::Udp(u) => TransportHeaderData::Udp(*u.data),
    }
}

pub open spec fn transport_header_raw(h: TransportHeader) -> Seq<u8> {
    match h {
        TransportHeader::Tcp(t) => t.raw@,
        TransportHeader::Udp(u) => u.raw@,
    }
}

impl<'a> TransportHeader<'a> {
    pub fn raw(&self) -> (r: &[u8])
        ensures
            r@ == transport_header_raw(*self),
    {
        match self {
            TransportHeader::Tcp(t) => t.raw(),
            TransportHeader::Udp(u) => u.raw(),
        }
    }

    pub fn header_length(&self) -> (r: u8)
        ensures
            r == transport_header_length(transport_header_data(*self)),
    {
        match self {
            TransportHeader::Tcp(t) => t.header_length(),
            TransportHeader::Udp(_) => 8,
        }
    }

    pub fn data_clone(&self) -> (r: TransportHeaderData)
        ensures
            r == transport_header_data(*self),
    {
        match self {
            TransportHeader::Tcp(t) => TransportHeaderData::Tcp(*t.data()),
            TransportHeader::Udp(u) => TransportHeaderData::Udp(*u.data()),
        }
    }
}

pub enum TransportHeaderMut<'a> {
    Tcp(TcpHeaderMut<'a>),
    Udp(UdpHeaderMut<'a>),
}

pub open spec fn transport_header_mut_data(h: TransportHeaderMut) -> TransportHeaderData {
    match h {
        TransportHeaderMut::Tcp(t) => TransportHeaderData::Tcp(*t.data),
        TransportHeaderMut::Udp(u) => TransportHeaderData::Udp(*u.data),
    }
}

pub open spec fn transport_header_mut_raw(h: TransportHeaderMut) -> Seq<u8> {
    match h {
        TransportHeaderMut::Tcp(t) => t.raw@,
        TransportHeaderMut::Udp(u) => u.raw@,
    }
}

/// The checksum that `update_checksum` writes into a transport header.
pub open spec fn transport_header_checksum(
    d: TransportHeaderData,
    ip: IpHeaderData,
    raw: Seq<u8>,
    payload: Seq<u8>,
) -> Seq<u8> {
    match d {
        TransportHeaderData::Tcp(_) => put_u16(raw, 16, transport_checksum(ip, 6, raw, 16, payload)),
        TransportHeaderData::Udp(_) => put_u16(raw, 6, udp_checksum(ip, raw, payload)),
    }
}

impl<'a> TransportHeaderMut<'a> {
    pub fn raw(&self) -> (r: &[u8])
        ensures
            r@ == transport_header_mut_raw(*self),
    {
        match self {
            TransportHeaderMut::Tcp(t) => t.raw(),
            TransportHeaderMut::Udp(u) => u.raw(),
        }
    }

    pub fn header_length(&self) -> (r: u8)
        ensures
            r == transport_header_length(transport_header_mut_data(*self)),
    {
        match self {
            TransportHeaderMut::Tcp(t) => t.header_length(),
            TransportHeaderMut::Udp(_) => 8,
        }
    }

    pub fn data_clone(&self) -> (r: TransportHeaderData)
        ensures
            r == transport_header_mut_data(*self),
    {
        match self {
            TransportHeaderMut::Tcp(t) => TransportHeaderData::Tcp(*t.data()),
            TransportHeaderMut::Udp(u) => TransportHeaderData::Udp(*u.data()),
        }
    }

    /// Records the payload length: in the UDP length field; TCP has none.
    pub fn set_payload_length(&mut self, payload_length: u16)
        requires
            match *old(self) {
                TransportHeaderMut::Tcp(_) => true,
                TransportHeaderMut::Udp(u) => u.raw@.len() >= 8 && payload_length <= u16::MAX - 8,
            },
        ensures
            match (*old(self), *final(self)) {
                (TransportHeaderMut::Tcp(a), TransportHeaderMut::Tcp(b)) => {
                    &&& *b.data == *a.data
                    &&& b.raw@ == a.raw@
                    &&& *final(b.data) == *final(a.data)
                    &&& final(b.raw)@ == final(a.raw)@
                },
                (TransportHeaderMut::Udp(a), TransportHeaderMut::Udp(b)) => {
                    &&& *b.data == *a.data
                    &&& b.raw@ == put_u16(a.raw@, 4, (payload_length + 8) as u16)
                    &&& *final(b.data) == *final(a.data)
                    &&& final(b.raw)@ == final(a.raw)@
                },
                _ => false,
            },
            transport_consistent(transport_header_mut_data(*old(self)), transport_header_mut_raw(*old(self)))
                ==> transport_consistent(transport_header_mut_data(*final(self)), transport_header_mut_raw(*final(self))),
    {
        match self {
            TransportHeaderMut::Tcp(_) => {},
            TransportHeaderMut::Udp(u) => u.set_payload_length(payload_length),
        }
    }

    pub fn swap_source_and_destination(&mut self)
        requires
            match *old(self) {
                TransportHeaderMut::Tcp(t) => t.raw@.len() >= 20,
                TransportHeaderMut::Udp(u) => u.raw@.len() >= 8,
            },
        ensures
            match (*old(self), *final(self)) {
                (TransportHeaderMut::Tcp(a), TransportHeaderMut::Tcp(b)) => {
                    &&& *b.data == TcpHeaderData {
                        source_port: a.data.destination_port,
                        destination_port: a.data.source_port,
                        ..*a.data
                    }
                    &&& b.raw@ == put_u16(put_u16(a.raw@, 0, a.data.destination_port), 2, a.data.source_port)
                    &&& *final(b.data) == *final(a.data)
                    &&& final(b.raw)@ == final(a.raw)@
                },
                (TransportHeaderMut::Udp(a), TransportHeaderMut::Udp(b)) => {
                    &&& *b.data == UdpHeaderData {
                        source_port: a.data.destination_port,
                        destination_port: a.data.source_port,
                    }
                    &&& b.raw@ == put_u16(put_u16(a.raw@, 0, a.data.destination_port), 2, a.data.source_port)
                    &&& *final(b.data) == *final(a.data)
                    &&& final(b.raw)@ == final(a.raw)@
                },
                _ => false,
            },
            transport_consistent(transport_header_mut_data(*old(self)), transport_header_mut_raw(*old(self)))
                ==> transport_consistent(transport_header_mut_data(*final(self)), transport_header_mut_raw(*final(self))),
    {
        match self {
            TransportHeaderMut::Tcp(t) => t.swap_source_and_destination(),
            TransportHeaderMut::Udp(u) => u.swap_source_and_destination(),
        }
    }

    /// Writes the checksum of the segment carrying `payload` under `ip`.
    pub fn update_checksum(&mut self, ip: &IpHeaderData, payload: &[u8])
        requires
            match *old(self) {
                TransportHeaderMut::Tcp(t) => t.raw@.len() >= 20,
                TransportHeaderMut::Udp(u) => u.raw@.len() >= 8,
            },
            transport_header_mut_raw(*old(self)).len() + payload@.len() <= 0x1_0000,
        ensures
            match (*old(self), *final(self)) {
                (TransportHeaderMut::Tcp(a), TransportHeaderMut::Tcp(b)) => {
                    &&& *b.data == *a.data
                    &&& *final(b.data) == *final(a.data)
                    &&& final(b.raw)@ == final(a.raw)@
                },
                (TransportHeaderMut::Udp(a), TransportHeaderMut::Udp(b)) => {
                    &&& *b.data == *a.data
                    &&& *final(b.data) == *final(a.data)
                    &&& final(b.raw)@ == final(a.raw)@
                },
                _ => false,
            },
            transport_header_mut_raw(*final(self)) == transport_header_checksum(
                transport_header_mut_data(*old(self)),
                *ip,
                transport_header_mut_raw(*old(self)),
                payload@,
            ),
            transport_consistent(transport_header_mut_data(*old(self)), transport_header_mut_raw(*old(self)))
                ==> transport_consistent(transport_header_mut_data(*final(self)), transport_header_mut_raw(*final(self))),
    {
        match self {
            TransportHeaderMut::Tcp(t) => t.update_checksum(ip, payload),
            TransportHeaderMut::Udp(u) => u.update_checksum(ip, payload),
        }
    }
}

} // verus!
