//! An IP packet of either version: the raw bytes of one packet with its parsed
//! IP and transport headers.
use vstd::prelude::*;
use crate::ip_header::{IpHeader, IpHeaderData, ip_header_data, ip_header_raw};
use crate::ipv4_header::{spec_parse_ipv4, protocol_of};
use crate::ipv4_packet::{Ipv4Packet, ipv4_packet_wf, ipv4_parsable, ipv4_with_checksums, transport_fits, transport_matches, ipv4_packet_shape};
use crate::ipv6_header::{Ipv6Header, Ipv6HeaderData, IPV6_HEADER_LENGTH, ipv6_consistent, ipv6_total_length};
use crate::transport_header::{
    TransportHeader, TransportHeaderData, transport_header_length, transport_header_data,
    transport_header_raw, transport_parses, transport_header_checksum,
};
use crate::byte_order::be_u16;

verus! {

/// A well-formed IPv6 packet: the header fields are those of the bytes, the
/// bytes are exactly the packet, and the transport header (if any) fits.
pub open spec fn ipv6_packet_wf(
    raw: Seq<u8>,
    ip: Ipv6HeaderData,
    t: Option<TransportHeaderData>,
) -> bool {
    &&& ipv6_packet_shape(raw, ip, t)
    &&& ipv6_consistent(ip, raw)
    &&& raw.len() == 40 + ip.payload_length
    &&& transport_matches(raw, 40, ip.next_header is Tcp, ip.next_header is Udp, t)
}

/// The lengths of an IPv6 packet agree with its bytes: the header lies inside
/// them, and so does the transport header, if any.
pub open spec fn ipv6_packet_shape(
    raw: Seq<u8>,
    ip: Ipv6HeaderData,
    t: Option<TransportHeaderData>,
) -> bool {
    &&& 40 <= raw.len() <= 0xffff
    &&& transport_fits(raw, 40, t)
}

/// The bytes of `raw` hold an IPv6 packet that `Ipv6Packet::parse` can take.
pub open spec fn ipv6_parsable(raw: Seq<u8>) -> bool {
    &&& raw.len() >= 40
    &&& 40 + be_u16(raw, 4) <= raw.len()
    &&& 40 + be_u16(raw, 4) <= 0xffff
}

/// The version number in the first byte of a packet.
pub open spec fn packet_version(raw: Seq<u8>) -> u8 {
    raw[0] / 16
}

/// `IpPacket::parse` can take `raw`: when the version is 4 or 6, the bytes
/// hold a whole packet of that version.
pub open spec fn packet_parsable(raw: Seq<u8>) -> bool {
    &&& raw.len() > 0 && packet_version(raw) == 4 ==> ipv4_parsable(raw)
    &&& raw.len() > 0 && packet_version(raw) == 6 ==> ipv6_parsable(raw)
}

/// The length of the packet at the start of well-formed bytes.
pub open spec fn parsed_length(raw: Seq<u8>) -> int {
    if packet_version(raw) == 4 {
        spec_parse_ipv4(raw).total_length as int
    } else {
        40 + be_u16(raw, 4)
    }
}

/// `raw` after `compute_checksums` on an IPv6 packet with these headers.
pub open spec fn ipv6_with_checksums(
    raw: Seq<u8>,
    ip: Ipv6HeaderData,
    t: Option<TransportHeaderData>,
) -> Seq<u8> {
    match t {
        Some(t) => {
            let thl = transport_header_length(t) as int;
            raw.take(40) + transport_header_checksum(
                t,
                IpHeaderData::V6(ip),
                raw.subrange(40, 40 + thl),
                raw.skip(40 + thl),
            ) + raw.skip(40 + thl)
        },
        None => raw,
    }
}

/// Checks that `IpPacket::parse` can take `raw`.
pub fn is_parsable(raw: &[u8]) -> (b: bool)
    ensures
        b == packet_parsable(raw@),
{
    if raw.len() == 0 {
        return true;
    }
    let version = raw[0] / 16;
    if version == 4 {
        if raw.len() < 20 {
            return false;
        }
        let hl = (raw[0] % 16) as usize * 4;
        let total = crate::byte_order::read_u16_at(raw, 2) as usize;
        20 <= hl && hl <= total && total <= raw.len()
    } else if version == 6 {
        if raw.len() < 40 {
            return false;
        }
        let total = 40 + crate::byte_order::read_u16_at(raw, 4) as usize;
        total <= raw.len() && total <= 0xffff
    } else {
        true
    }
}

pub struct Ipv6Packet<'a> {
    pub raw: &'a mut [u8],
    pub ipv6_header_data: Ipv6HeaderData,
    pub transport_header_data: Option<TransportHeaderData>,
}

impl<'a> Ipv6Packet<'a> {
    pub open spec fn wf(&self) -> bool {
        ipv6_packet_wf(self.raw@, self.ipv6_header_data, self.transport_header_data)
    }

    pub open spec fn shape(&self) -> bool {
        ipv6_packet_shape(self.raw@, self.ipv6_header_data, self.transport_header_data)
    }

    /// Parses the packet at the start of `raw`; the packet keeps only its own
    /// bytes.
    pub fn parse(raw: &'a mut [u8]) -> (p: Self)
        requires
            ipv6_parsable(old(raw)@),
        ensures
            p.wf(),
            ipv6_consistent(p.ipv6_header_data, old(raw)@),
            p.raw@ == old(raw)@.take(40 + be_u16(old(raw)@, 4)),
            p.transport_header_data is Some <==> transport_parses(
                p.ipv6_header_data.next_header,
                old(raw)@.subrange(40, 40 + be_u16(old(raw)@, 4)),
            ),
            final(raw)@ == final(p.raw)@ + old(raw)@.skip(40 + be_u16(old(raw)@, 4)),
    {
        let ipv6_header_data = Ipv6HeaderData::parse(raw);
        let total_len = ipv6_header_data.total_length() as usize;
        let transport_header_data = {
            let payload = vstd::slice::slice_subrange(&*raw, IPV6_HEADER_LENGTH as usize, total_len);
            TransportHeaderData::parse(ipv6_header_data.protocol(), payload)
        };
        let (packet_raw, _rest) = raw.split_at_mut(total_len);
        proof {
            let r = packet_raw@;
            assert(r.subrange(40, r.len() as int) =~= old(raw)@.subrange(40, total_len as int));
            assert(r.subrange(8, 24) =~= old(raw)@.subrange(8, 24));
            assert(r.subrange(24, 40) =~= old(raw)@.subrange(24, 40));
        }
        Ipv6Packet { raw: packet_raw, ipv6_header_data, transport_header_data }
    }

    pub fn new(
        raw: &'a mut [u8],
        ipv6_header_data: Ipv6HeaderData,
        transport_header_data: TransportHeaderData,
    ) -> (p: Self)
        ensures
            p.raw@ == old(raw)@,
            final(p.raw)@ == final(raw)@,
            p.ipv6_header_data == ipv6_header_data,
            p.transport_header_data == Some(transport_header_data),
    {
        Ipv6Packet { raw, ipv6_header_data, transport_header_data: Some(transport_header_data) }
    }

    pub fn raw(&self) -> (r: &[u8])
        ensures
            r@ == old(self.raw)@,
    {
        self.raw
    }

    pub fn headers_data(&self) -> (r: (&Ipv6HeaderData, Option<&TransportHeaderData>))
        ensures
            *r.0 == self.ipv6_header_data,
            match (r.1, self.transport_header_data) {
                (Some(a), Some(b)) => *a == b,
                (None, None) => true,
                _ => false,
            },
    {
        let t = match &self.transport_header_data {
            Some(t) => Some(t),
            None => None,
        };
        (&self.ipv6_header_data, t)
    }

    pub fn ipv6_header(&self) -> (h: Ipv6Header<'_>)
        requires
            self.shape(),
        ensures
            *h.data == self.ipv6_header_data,
            h.raw@ == old(self.raw)@.take(40),
            self.wf() ==> ipv6_consistent(*h.data, h.raw@),
    {
        let slice = vstd::slice::slice_subrange(&*self.raw, 0, IPV6_HEADER_LENGTH as usize);
        proof {
            assert(slice@.subrange(8, 24) =~= self.raw@.subrange(8, 24));
            assert(slice@.subrange(24, 40) =~= self.raw@.subrange(24, 40));
        }
        self.ipv6_header_data.bind(slice)
    }

    pub fn transport_header(&self) -> (h: Option<TransportHeader<'_>>)
        requires
            self.shape(),
        ensures
            match (h, self.transport_header_data) {
                (Some(h), Some(t)) => {
                    &&& transport_header_data(h) == t
                    &&& transport_header_raw(h) == old(self.raw)@.subrange(40, 40 + transport_header_length(t))
                },
                (None, None) => true,
                _ => false,
            },
    {
        match &self.transport_header_data {
            Some(t) => {
                let start = IPV6_HEADER_LENGTH as usize;
                let end = start + t.header_length() as usize;
                let slice = vstd::slice::slice_subrange(&*self.raw, start, end);
                Some(t.bind(slice))
            },
            None => None,
        }
    }

    pub fn headers(&self) -> (r: (Ipv6Header<'_>, Option<TransportHeader<'_>>))
        requires
            self.shape(),
        ensures
            *r.0.data == self.ipv6_header_data,
            r.0.raw@ == old(self.raw)@.take(40),
            match (r.1, self.transport_header_data) {
                (Some(h), Some(t)) => {
                    &&& transport_header_data(h) == t
                    &&& transport_header_raw(h) == old(self.raw)@.subrange(40, 40 + transport_header_length(t))
                },
                (None, None) => true,
                _ => false,
            },
    {
        (self.ipv6_header(), self.transport_header())
    }

    pub fn is_valid(&self) -> (b: bool)
        ensures
            b == (self.transport_header_data is Some),
    {
        self.transport_header_data.is_some()
    }

    pub fn length(&self) -> (r: u16)
        ensures
            r == ipv6_total_length(self.ipv6_header_data),
    {
        self.ipv6_header_data.total_length()
    }

    /// The bytes after the transport header, if the packet has one.
    pub fn payload(&self) -> (r: Option<&[u8]>)
        requires
            self.shape(),
        ensures
            match (r, self.transport_header_data) {
                (Some(p), Some(t)) => p@ == old(self.raw)@.skip(40 + transport_header_length(t)),
                (None, None) => true,
                _ => false,
            },
    {
        match &self.transport_header_data {
            Some(t) => {
                let start = IPV6_HEADER_LENGTH as usize + t.header_length() as usize;
                let p = vstd::slice::slice_subrange(&*self.raw, start, self.raw.len());
                proof { assert(p@ =~= self.raw@.skip(start as int)); }
                Some(p)
            },
            None => None,
        }
    }

    /// Writes the transport checksum (IPv6 headers have none).
    pub fn compute_checksums(&mut self)
        requires
            old(self).shape(),
        ensures
            final(self).shape(),
            old(self).wf() ==> final(self).wf(),
            final(self).ipv6_header_data == old(self).ipv6_header_data,
            final(self).transport_header_data == old(self).transport_header_data,
            final(self).raw@ == ipv6_with_checksums(
                old(self).raw@,
                old(self).ipv6_header_data,
                old(self).transport_header_data,
            ),
            final(final(self).raw)@ == final(old(self).raw)@,
    {
        let ip_data = IpHeaderData::V6(self.ipv6_header_data);
        let ghost r0 = self.raw@;
        match &mut self.transport_header_data {
            Some(t) => {
                let thl = t.header_length() as usize;
                let (ip_slice, rest) = self.raw.split_at_mut(IPV6_HEADER_LENGTH as usize);
                let (t_slice, payload) = rest.split_at_mut(thl);
                let ghost p_old = payload@;
                assert(ip_slice@ =~= r0.take(40));
                assert(t_slice@ =~= r0.subrange(40, 40 + thl));
                assert(p_old =~= r0.skip(40 + thl));
                let mut th = t.bind_mut(t_slice);
                th.update_checksum(&ip_data, payload);
                assert(payload@ == p_old);
            },
            None => {},
        }
        proof {
            assert(self.raw@ =~= ipv6_with_checksums(
                old(self).raw@,
                old(self).ipv6_header_data,
                old(self).transport_header_data,
            ));
            assert(self.raw@.subrange(8, 24) =~= old(self).raw@.subrange(8, 24));
            assert(self.raw@.subrange(24, 40) =~= old(self).raw@.subrange(24, 40));
            assert(self.raw@[4] == old(self).raw@[4]);
            assert(self.raw@[5] == old(self).raw@[5]);
            assert(self.raw@[6] == old(self).raw@[6]);
            assert(self.raw@[7] == old(self).raw@[7]);
        }
    }
}

/// A packet of either version.
pub enum IpPacket<'a> {
    V4(Ipv4Packet<'a>),
    V6(Ipv6Packet<'a>),
}

/// The raw bytes of a packet.
pub open spec fn packet_raw(p: IpPacket) -> Seq<u8> {
    match p {
        IpPacket::V4(v4) => v4.raw@,
        IpPacket::V6(v6) => v6.raw@,
    }
}

/// The parsed IP header of a packet.
pub open spec fn packet_ip_data(p: IpPacket) -> IpHeaderData {
    match p {
        IpPacket::V4(v4) => IpHeaderData::V4(v4.ipv4_header_data),
        IpPacket::V6(v6) => IpHeaderData::V6(v6.ipv6_header_data),
    }
}

/// The parsed transport header of a packet.
pub open spec fn packet_transport_data(p: IpPacket) -> Option<TransportHeaderData> {
    match p {
        IpPacket::V4(v4) => v4.transport_header_data,
        IpPacket::V6(v6) => v6.transport_header_data,
    }
}

/// The header length of the IP header of a packet.
pub open spec fn packet_ip_header_length(p: IpPacket) -> int {
    match p {
        IpPacket::V4(v4) => v4.ipv4_header_data.header_length as int,
        IpPacket::V6(_) => 40,
    }
}

pub open spec fn packet_wf(p: IpPacket) -> bool {
    match p {
        IpPacket::V4(v4) => v4.wf(),
        IpPacket::V6(v6) => v6.wf(),
    }
}

pub open spec fn packet_shape(p: IpPacket) -> bool {
    match p {
        IpPacket::V4(v4) => v4.shape(),
        IpPacket::V6(v6) => v6.shape(),
    }
}

/// The payload of a packet: the bytes after its transport header.
pub open spec fn packet_payload(p: IpPacket) -> Option<Seq<u8>> {
    match packet_transport_data(p) {
        Some(t) => Some(packet_raw(p).skip(packet_ip_header_length(p) + transport_header_length(t))),
        None => None,
    }
}

/// The transport header of the packet at the start of `raw` is parsed: the
/// bytes between its IP header and its total length hold a header of the
/// protocol that the IP header announces.
pub open spec fn packet_transport_parses(raw: Seq<u8>) -> bool {
    if packet_version(raw) == 4 {
        let d = spec_parse_ipv4(raw);
        transport_parses(d.protocol, raw.subrange(d.header_length as int, d.total_length as int))
    } else {
        transport_parses(protocol_of(raw[6]), raw.subrange(40, 40 + be_u16(raw, 4)))
    }
}

impl<'a> IpPacket<'a> {
    /// Parses the packet at the start of `raw`: `None` when `raw` is empty or
    /// its version is neither 4 nor 6.
    pub fn parse(raw: &'a mut [u8]) -> (p: Option<Self>)
        requires
            packet_parsable(old(raw)@),
        ensures
            p is Some <==> (old(raw)@.len() > 0 && (packet_version(old(raw)@) == 4
                || packet_version(old(raw)@) == 6)),
            p matches Some(p) ==> {
                &&& packet_wf(p)
                &&& (p is V4 <==> packet_version(old(raw)@) == 4)
                &&& packet_raw(p) == old(raw)@.take(parsed_length(old(raw)@))
                &&& (packet_transport_data(p) is Some <==> packet_transport_parses(old(raw)@))
            },
            match p {
                Some(IpPacket::V4(q)) => final(raw)@ == final(q.raw)@ + old(raw)@.skip(
                    parsed_length(old(raw)@),
                ),
                Some(IpPacket::V6(q)) => final(raw)@ == final(q.raw)@ + old(raw)@.skip(
                    parsed_length(old(raw)@),
                ),
                None => final(raw)@ == old(raw)@,
            },
    {
        if raw.len() == 0 {
            return None;
        }
        let version = raw[0] / 16;
        if version == 4 {
            Some(IpPacket::V4(Ipv4Packet::parse(raw)))
        } else if version == 6 {
            Some(IpPacket::V6(Ipv6Packet::parse(raw)))
        } else {
            None
        }
    }

    pub fn raw(&self) -> (r: &[u8])
        ensures
            r@ == packet_raw(*self),
    {
        match self {
            IpPacket::V4(p) => p.raw(),
            IpPacket::V6(p) => p.raw(),
        }
    }

    pub fn headers_data(&self) -> (r: (IpHeaderData, Option<&TransportHeaderData>))
        ensures
            r.0 == packet_ip_data(*self),
            match (r.1, packet_transport_data(*self)) {
                (Some(a), Some(b)) => *a == b,
                (None, None) => true,
                _ => false,
            },
    {
        match self {
            IpPacket::V4(p) => {
                let (v4, t) = p.headers_data();
                (IpHeaderData::V4(*v4), t)
            },
            IpPacket::V6(p) => {
                let (v6, t) = p.headers_data();
                (IpHeaderData::V6(*v6), t)
            },
        }
    }

    pub fn headers(&self) -> (r: (IpHeader<'_>, Option<TransportHeader<'_>>))
        requires
            packet_shape(*self),
        ensures
            ip_header_data(r.0) == packet_ip_data(*self),
            ip_header_raw(r.0) == packet_raw(*self).take(packet_ip_header_length(*self)),
            match (r.1, packet_transport_data(*self)) {
                (Some(h), Some(t)) => {
                    let hl = packet_ip_header_length(*self);
                    &&& transport_header_data(h) == t
                    &&& transport_header_raw(h) == packet_raw(*self).subrange(hl, hl + transport_header_length(t))
                },
                (None, None) => true,
                _ => false,
            },
    {
        match self {
            IpPacket::V4(p) => {
                let (v4, t) = p.headers();
                (IpHeader::V4(v4), t)
            },
            IpPacket::V6(p) => {
                let (v6, t) = p.headers();
                (IpHeader::V6(v6), t)
            },
        }
    }

    pub fn is_valid(&self) -> (b: bool)
        ensures
            b == (packet_transport_data(*self) is Some),
    {
        match self {
            IpPacket::V4(p) => p.is_valid(),
            IpPacket::V6(p) => p.is_valid(),
        }
    }

    pub fn length(&self) -> (r: u16)
        ensures
            r == crate::ip_header::ip_total_length(packet_ip_data(*self)),
    {
        match self {
            IpPacket::V4(p) => p.length(),
            IpPacket::V6(p) => p.length(),
        }
    }

    pub fn payload(&self) -> (r: Option<&[u8]>)
        requires
            packet_shape(*self),
        ensures
            match (r, packet_payload(*self)) {
                (Some(a), Some(b)) => a@ == b,
                (None, None) => true,
                _ => false,
            },
    {
        match self {
            IpPacket::V4(p) => p.payload(),
            IpPacket::V6(p) => p.payload(),
        }
    }

    pub fn transport_header(&self) -> (h: Option<TransportHeader<'_>>)
        requires
            packet_shape(*self),
        ensures
            match (h, packet_transport_data(*self)) {
                (Some(h), Some(t)) => {
                    let hl = packet_ip_header_length(*self);
                    &&& transport_header_data(h) == t
                    &&& transport_header_raw(h) == packet_raw(*self).subrange(hl, hl + transport_header_length(t))
                },
                (None, None) => true,
                _ => false,
            },
    {
        match self {
            IpPacket::V4(p) => p.transport_header(),
            IpPacket::V6(p) => p.transport_header(),
        }
    }

    pub fn compute_checksums(&mut self)
        requires
            packet_shape(*old(self)),
        ensures
            packet_shape(*final(self)),
            packet_wf(*old(self)) ==> packet_wf(*final(self)),
            packet_ip_data(*final(self)) == packet_ip_data(*old(self)),
            packet_transport_data(*final(self)) == packet_transport_data(*old(self)),
            match (*old(self), *final(self)) {
                (IpPacket::V4(a), IpPacket::V4(b)) => {
                    &&& b.raw@ == ipv4_with_checksums(a.raw@, a.ipv4_header_data, a.transport_header_data)
                    &&& final(b.raw)@ == final(a.raw)@
                },
                (IpPacket::V6(a), IpPacket::V6(b)) => {
                    &&& b.raw@ == ipv6_with_checksums(a.raw@, a.ipv6_header_data, a.transport_header_data)
                    &&& final(b.raw)@ == final(a.raw)@
                },
                _ => false,
            },
    {
        match self {
            IpPacket::V4(p) => p.compute_checksums(),
            IpPacket::V6(p) => p.compute_checksums(),
        }
    }
}


impl<'a> From<Ipv4Packet<'a>> for IpPacket<'a> {
    fn from(p: Ipv4Packet<'a>) -> (r: Self) {
        IpPacket::V4(p)
    }
}

impl<'a> vstd::std_specs::convert::FromSpecImpl<Ipv4Packet<'a>> for IpPacket<'a> {
    open spec fn obeys_from_spec() -> bool {
        true
    }

    open spec fn from_spec(p: Ipv4Packet<'a>) -> Self {
        IpPacket::V4(p)
    }
}

} // verus!
