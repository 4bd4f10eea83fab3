//! An IPv4 packet: the raw bytes of one packet with its parsed IPv4 and
//! transport headers.
use vstd::prelude::*;
use crate::ipv4_header::{Ipv4Header, Ipv4HeaderData, Ipv4HeaderMut, ipv4_consistent, ipv4_checksum, spec_parse_ipv4};
use crate::ip_header::IpHeaderData;
use crate::transport_header::{
    TransportHeader, TransportHeaderData, TransportHeaderMut, transport_consistent,
    transport_header_length, transport_header_data, transport_header_raw, transport_parses,
    transport_header_checksum, transport_header_mut_raw, transport_header_mut_data,
};
use crate::byte_order::{be_u16, put_u16};

verus! {

/// The longest IP packet.
pub const MAX_PACKET_LENGTH: usize = 65536;

/// The transport header of a packet has room in its bytes after the IP
/// header, and a length of its kind.
pub open spec fn transport_fits(
    raw: Seq<u8>,
    ip_header_length: int,
    t: Option<TransportHeaderData>,
) -> bool {
    match t {
        Some(t) => {
            &&& ip_header_length + transport_header_length(t) <= raw.len()
            &&& (t matches TransportHeaderData::Tcp(tt) ==> tt.header_length >= 20)
        },
        None => true,
    }
}

/// The transport header of a packet is what its bytes after the IP header
/// encode, of the protocol that the IP header announces.
pub open spec fn transport_matches(
    raw: Seq<u8>,
    ip_header_length: int,
    protocol_is_tcp: bool,
    protocol_is_udp: bool,
    t: Option<TransportHeaderData>,
) -> bool {
    match t {
        Some(t) => {
            &&& transport_consistent(t, raw.subrange(ip_header_length, raw.len() as int))
            &&& (t is Tcp ==> protocol_is_tcp)
            &&& (t is Udp ==> protocol_is_udp)
        },
        None => true,
    }
}

/// The lengths of an IPv4 packet agree with its bytes: the header lies inside
/// them, and so does the transport header, if any.
pub open spec fn ipv4_packet_shape(
    raw: Seq<u8>,
    ip: Ipv4HeaderData,
    t: Option<TransportHeaderData>,
) -> bool {
    &&& 20 <= ip.header_length
    &&& ip.header_length <= raw.len()
    &&& raw.len() <= 0xffff
    &&& transport_fits(raw, ip.header_length as int, t)
}

/// A well-formed IPv4 packet: the header fields are those of the bytes, the
/// bytes are exactly the packet, and the transport header (if any) fits.
pub open spec fn ipv4_packet_wf(
    raw: Seq<u8>,
    ip: Ipv4HeaderData,
    t: Option<TransportHeaderData>,
) -> bool {
    &&& ipv4_packet_shape(raw, ip, t)
    &&& ipv4_consistent(ip, raw)
    &&& raw.len() == ip.total_length
    &&& transport_matches(raw, ip.header_length as int, ip.protocol is Tcp, ip.protocol is Udp, t)
}

/// The bytes of `raw` hold an IPv4 packet that `Ipv4Packet::parse` can take.
pub open spec fn ipv4_parsable(raw: Seq<u8>) -> bool {
    &&& raw.len() >= 20
    &&& 20 <= spec_parse_ipv4(raw).header_length
    &&& spec_parse_ipv4(raw).header_length <= spec_parse_ipv4(raw).total_length
    &&& spec_parse_ipv4(raw).total_length <= raw.len()
}

/// `raw` after `compute_checksums` on a packet with these headers.
pub open spec fn ipv4_with_checksums(
    raw: Seq<u8>,
    ip: Ipv4HeaderData,
    t: Option<TransportHeaderData>,
) -> Seq<u8> {
    let hl = ip.header_length as int;
    let ip_part = put_u16(raw.take(hl), 10, ipv4_checksum(raw.take(hl), hl));
    match t {
        Some(t) => {
            let thl = transport_header_length(t) as int;
            ip_part + transport_header_checksum(
                t,
                IpHeaderData::V4(ip),
                raw.subrange(hl, hl + thl),
                raw.skip(hl + thl),
            ) + raw.skip(hl + thl)
        },
        None => ip_part + raw.skip(hl),
    }
}

pub struct Ipv4Packet<'a> {
    pub raw: &'a mut [u8],
    pub ipv4_header_data: Ipv4HeaderData,
    pub transport_header_data: Option<TransportHeaderData>,
}

impl<'a> Ipv4Packet<'a> {
    pub open spec fn wf(&self) -> bool {
        ipv4_packet_wf(self.raw@, self.ipv4_header_data, self.transport_header_data)
    }

    pub open spec fn shape(&self) -> bool {
        ipv4_packet_shape(self.raw@, self.ipv4_header_data, self.transport_header_data)
    }

    /// Parses the packet at the start of `raw`; the packet keeps only its own
    /// bytes.
    pub fn parse(raw: &'a mut [u8]) -> (p: Self)
        requires
            ipv4_parsable(old(raw)@),
        ensures
            p.wf(),
            p.raw@ == old(raw)@.take(spec_parse_ipv4(old(raw)@).total_length as int),
            p.ipv4_header_data == spec_parse_ipv4(old(raw)@),
            p.transport_header_data is Some <==> transport_parses(
                spec_parse_ipv4(old(raw)@).protocol,
                old(raw)@.subrange(
                    spec_parse_ipv4(old(raw)@).header_length as int,
                    spec_parse_ipv4(old(raw)@).total_length as int,
                ),
            ),
            final(raw)@ == final(p.raw)@ + old(raw)@.skip(
                spec_parse_ipv4(old(raw)@).total_length as int,
            ),
    {
        let ipv4_header_data = Ipv4HeaderData::parse(raw);
        let hl = ipv4_header_data.header_length as usize;
        let total_len = ipv4_header_data.total_length as usize;
        let transport_header_data = {
            let payload = vstd::slice::slice_subrange(&*raw, hl, total_len);
            TransportHeaderData::parse(ipv4_header_data.protocol, payload)
        };
        let (packet_raw, rest) = raw.split_at_mut(total_len);
        proof {
            let r = packet_raw@;
            assert(r.subrange(hl as int, r.len() as int) =~= old(raw)@.subrange(hl as int, total_len as int));
            assert(r.take(20) =~= old(raw)@.take(20));
            assert(spec_parse_ipv4(r) == spec_parse_ipv4(old(raw)@));
        }
        Ipv4Packet { raw: packet_raw, ipv4_header_data, transport_header_data }
    }

    pub fn new(
        raw: &'a mut [u8],
        ipv4_header_data: Ipv4HeaderData,
        transport_header_data: TransportHeaderData,
    ) -> (p: Self)
        ensures
            p.raw@ == old(raw)@,
            final(p.raw)@ == final(raw)@,
            p.ipv4_header_data == ipv4_header_data,
            p.transport_header_data == Some(transport_header_data),
    {
        Ipv4Packet { raw, ipv4_header_data, transport_header_data: Some(transport_header_data) }
    }

    pub fn raw(&self) -> (r: &[u8])
        ensures
            r@ == old(self.raw)@,
    {
        self.raw
    }

    pub fn ipv4_header_data(&self) -> (r: &Ipv4HeaderData)
        ensures
            *r == self.ipv4_header_data,
    {
        &self.ipv4_header_data
    }

    pub fn transport_header_data(&self) -> (r: Option<&TransportHeaderData>)
        ensures
            match (r, self.transport_header_data) {
                (Some(a), Some(b)) => *a == b,
                (None, None) => true,
                _ => false,
            },
    {
        match &self.transport_header_data {
            Some(t) => Some(t),
            None => None,
        }
    }

    pub fn headers_data(&self) -> (r: (&Ipv4HeaderData, Option<&TransportHeaderData>))
        ensures
            *r.0 == self.ipv4_header_data,
            match (r.1, self.transport_header_data) {
                (Some(a), Some(b)) => *a == b,
                (None, None) => true,
                _ => false,
            },
    {
        (&self.ipv4_header_data, self.transport_header_data())
    }

    pub fn ipv4_header(&self) -> (h: Ipv4Header<'_>)
        requires
            self.shape(),
        ensures
            *h.data == self.ipv4_header_data,
            h.raw@ == old(self.raw)@.take(self.ipv4_header_data.header_length as int),
            self.wf() ==> ipv4_consistent(*h.data, h.raw@),
    {
        let hl = self.ipv4_header_data.header_length as usize;
        let slice = vstd::slice::slice_subrange(&*self.raw, 0, hl);
        proof {
            assert(slice@.take(20) =~= self.raw@.take(20));
            assert(spec_parse_ipv4(slice@) == spec_parse_ipv4(self.raw@));
        }
        self.ipv4_header_data.bind(slice)
    }

    pub fn transport_header(&self) -> (h: Option<TransportHeader<'_>>)
        requires
            self.shape(),
        ensures
            match (h, self.transport_header_data) {
                (Some(h), Some(t)) => {
                    let hl = self.ipv4_header_data.header_length as int;
                    &&& transport_header_data(h) == t
                    &&& transport_header_raw(h) == old(self.raw)@.subrange(hl, hl + transport_header_length(t))
                },
                (None, None) => true,
                _ => false,
            },
    {
        match &self.transport_header_data {
            Some(t) => {
                let start = self.ipv4_header_data.header_length as usize;
                let end = start + t.header_length() as usize;
                let slice = vstd::slice::slice_subrange(&*self.raw, start, end);
                Some(t.bind(slice))
            },
            None => None,
        }
    }

    pub fn headers(&self) -> (r: (Ipv4Header<'_>, Option<TransportHeader<'_>>))
        requires
            self.shape(),
        ensures
            *r.0.data == self.ipv4_header_data,
            r.0.raw@ == old(self.raw)@.take(self.ipv4_header_data.header_length as int),
            match (r.1, self.transport_header_data) {
                (Some(h), Some(t)) => {
                    let hl = self.ipv4_header_data.header_length as int;
                    &&& transport_header_data(h) == t
                    &&& transport_header_raw(h) == old(self.raw)@.subrange(hl, hl + transport_header_length(t))
                },
                (None, None) => true,
                _ => false,
            },
    {
        (self.ipv4_header(), self.transport_header())
    }

    pub fn is_valid(&self) -> (b: bool)
        ensures
            b == (self.transport_header_data is Some),
    {
        self.transport_header_data.is_some()
    }

    pub fn length(&self) -> (r: u16)
        ensures
            r == self.ipv4_header_data.total_length,
    {
        self.ipv4_header_data.total_length
    }

    /// The bytes after the transport header, if the packet has one.
    pub fn payload(&self) -> (r: Option<&[u8]>)
        requires
            self.shape(),
        ensures
            match (r, self.transport_header_data) {
                (Some(p), Some(t)) => p@ == old(self.raw)@.skip(
                    self.ipv4_header_data.header_length + transport_header_length(t),
                ),
                (None, None) => true,
                _ => false,
            },
    {
        match &self.transport_header_data {
            Some(t) => {
                let start = self.ipv4_header_data.header_length as usize + t.header_length() as usize;
                let p = vstd::slice::slice_subrange(&*self.raw, start, self.raw.len());
                proof { assert(p@ =~= self.raw@.skip(start as int)); }
                Some(p)
            },
            None => None,
        }
    }

    /// Writes the IPv4 header checksum and the transport checksum.
    pub fn compute_checksums(&mut self)
        requires
            old(self).shape(),
        ensures
            final(self).shape(),
            old(self).wf() ==> final(self).wf(),
            final(self).ipv4_header_data == old(self).ipv4_header_data,
            final(self).transport_header_data == old(self).transport_header_data,
            final(self).raw@ == ipv4_with_checksums(
                old(self).raw@,
                old(self).ipv4_header_data,
                old(self).transport_header_data,
            ),
            final(final(self).raw)@ == final(old(self).raw)@,
    {
        let hl = self.ipv4_header_data.header_length as usize;
        let mut ip_data = self.ipv4_header_data;
        let ip_for_transport = IpHeaderData::V4(self.ipv4_header_data);
        let ghost r0 = self.raw@;
        let (ip_slice, rest) = self.raw.split_at_mut(hl);
        assert(ip_slice@ =~= r0.take(hl as int));
        {
            let mut ip_header = ip_data.bind_mut(ip_slice);
            ip_header.update_checksum();
        }
        assert(ip_slice@ == put_u16(r0.take(hl as int), 10, ipv4_checksum(r0.take(hl as int), hl as int)));
        match &mut self.transport_header_data {
            Some(t) => {
                let thl = t.header_length() as usize;
                let (t_slice, payload) = rest.split_at_mut(thl);
                let ghost t_old = t_slice@;
                let ghost p_old = payload@;
                assert(t_old =~= r0.subrange(hl as int, hl + thl));
                assert(p_old =~= r0.skip(hl + thl));
                let mut th = t.bind_mut(t_slice);
                th.update_checksum(&ip_for_transport, payload);
                assert(payload@ == p_old);
            },
            None => {
                assert(rest@ =~= r0.skip(hl as int));
            },
        }
        proof {
            assert(self.raw@ =~= ipv4_with_checksums(
                old(self).raw@,
                old(self).ipv4_header_data,
                old(self).transport_header_data,
            ));
        }
    }
}

} // verus!
