//! Turns payloads (level 5) into IP packets (level 3) for the device, by
//! putting before them the IP and transport headers of a reference packet
//! from the device, with source and destination swapped.
use vstd::prelude::*;
use crate::byte_order::{be_u16, put_u16, put_u32, lemma_put_u32_read, lemma_be_u16_bytes, lemma_be_u32_bytes};
use crate::ip_header::{
    IpHeader, IpHeaderData, IpHeaderMut, ip_consistent, ip_header_data, ip_header_length,
    ip_header_raw, ip_protocol, ip_header_mut_data, ip_header_mut_raw,
};
use crate::ipv4_header::{Ipv4HeaderData, Protocol};
use crate::ipv6_header::{Ipv6HeaderData, put_bytes16};
use crate::ipv4_packet::{Ipv4Packet, MAX_PACKET_LENGTH};
use crate::ip_packet::{
    Ipv6Packet, IpPacket, packet_shape, packet_wf, packet_raw, packet_ip_data,
    packet_transport_data, ipv6_with_checksums,
};
use crate::ipv4_packet::ipv4_with_checksums;
use crate::ipv4_header::lemma_ipv4_consistent_extend;
use crate::ipv6_header::lemma_ipv6_consistent_extend;
use crate::transport_header::lemma_transport_consistent_extend;
use crate::tcp_header::TcpHeaderData;
use crate::udp_header::UdpHeaderData;
use crate::transport_header::{
    TransportHeader, TransportHeaderData, TransportHeaderMut, transport_consistent,
    transport_header_data, transport_header_length, transport_header_raw,
    transport_header_mut_data, transport_header_mut_raw,
};

verus! {

/// The IP header data with source and destination swapped.
pub open spec fn swapped_ip_data(d: IpHeaderData) -> IpHeaderData {
    match d {
        IpHeaderData::V4(v4) => IpHeaderData::V4(
            Ipv4HeaderData { source: v4.destination, destination: v4.source, ..v4 },
        ),
        IpHeaderData::V6(v6) => IpHeaderData::V6(
            Ipv6HeaderData { source: v6.destination, destination: v6.source, ..v6 },
        ),
    }
}

/// The IP header bytes with source and destination swapped.
pub open spec fn swapped_ip_raw(d: IpHeaderData, raw: Seq<u8>) -> Seq<u8> {
    match d {
        IpHeaderData::V4(v4) => put_u32(put_u32(raw, 12, v4.destination), 16, v4.source),
        IpHeaderData::V6(v6) => put_bytes16(put_bytes16(raw, 8, v6.destination@), 24, v6.source@),
    }
}

/// The transport header data with source and destination ports swapped.
pub open spec fn swapped_transport_data(t: TransportHeaderData) -> TransportHeaderData {
    match t {
        TransportHeaderData::Tcp(d) => TransportHeaderData::Tcp(
            TcpHeaderData { source_port: d.destination_port, destination_port: d.source_port, ..d },
        ),
        TransportHeaderData::Udp(d) => TransportHeaderData::Udp(
            UdpHeaderData { source_port: d.destination_port, destination_port: d.source_port },
        ),
    }
}

pub open spec fn transport_ports(t: TransportHeaderData) -> (u16, u16) {
    match t {
        TransportHeaderData::Tcp(d) => (d.source_port, d.destination_port),
        TransportHeaderData::Udp(d) => (d.source_port, d.destination_port),
    }
}

/// The transport header bytes with source and destination ports swapped.
pub open spec fn swapped_transport_raw(t: TransportHeaderData, raw: Seq<u8>) -> Seq<u8> {
    put_u16(put_u16(raw, 0, transport_ports(t).1), 2, transport_ports(t).0)
}

/// Swapping source and destination twice gives back the header, in its data
/// and in its bytes.
pub proof fn lemma_swap_ip_twice(d: IpHeaderData, raw: Seq<u8>)
    requires
        ip_consistent(d, raw),
    ensures
        swapped_ip_data(swapped_ip_data(d)) == d,
        swapped_ip_raw(swapped_ip_data(d), swapped_ip_raw(d, raw)) == raw,
{
    match d {
        IpHeaderData::V4(v4) => {
            let r1 = put_u32(put_u32(raw, 12, v4.destination), 16, v4.source);
            lemma_put_u32_read(raw, 12, v4.destination);
            lemma_put_u32_read(put_u32(raw, 12, v4.destination), 16, v4.source);
            let r2 = put_u32(put_u32(r1, 12, v4.source), 16, v4.destination);
            lemma_put_u32_read(r1, 12, v4.source);
            lemma_put_u32_read(put_u32(r1, 12, v4.source), 16, v4.destination);
            assert forall|i: int| 0 <= i < raw.len() implies r2[i] == raw[i] by {
                if 12 <= i < 20 {
                    lemma_be_u32_bytes(raw, 12);
                    lemma_be_u32_bytes(raw, 16);
                    lemma_be_u32_bytes(r2, 12);
                    lemma_be_u32_bytes(r2, 16);
                }
            }
            assert(r2 =~= raw);
        },
        IpHeaderData::V6(v6) => {
            let r1 = put_bytes16(put_bytes16(raw, 8, v6.destination@), 24, v6.source@);
            let r2 = put_bytes16(put_bytes16(r1, 8, v6.source@), 24, v6.destination@);
            assert(r2 =~= raw);
        },
    }
}

/// Swapping the ports twice gives back the transport header, in its data and
/// in its bytes.
pub proof fn lemma_swap_transport_twice(t: TransportHeaderData, raw: Seq<u8>)
    requires
        transport_consistent(t, raw),
    ensures
        swapped_transport_data(swapped_transport_data(t)) == t,
        swapped_transport_raw(swapped_transport_data(t), swapped_transport_raw(t, raw)) == raw,
{
    let (s, d) = transport_ports(t);
    let r1 = put_u16(put_u16(raw, 0, d), 2, s);
    let r2 = put_u16(put_u16(r1, 0, s), 2, d);
    assert forall|i: int| 0 <= i < raw.len() implies r2[i] == raw[i] by {
        lemma_be_u16_bytes(raw, 0);
        lemma_be_u16_bytes(raw, 2);
    }
    assert(r2 =~= raw);
}

/// The header lengths agree with each other and with the kinds of headers.
pub open spec fn headers_shape(ip: IpHeaderData, t: TransportHeaderData) -> bool {
    &&& 20 <= ip_header_length(ip) <= 60
    &&& (ip is V6 ==> ip_header_length(ip) == 40)
    &&& (t is Tcp ==> 20 <= transport_header_length(t) <= 60)
    &&& (t is Udp ==> transport_header_length(t) == 8)
}

/// What a packetizer holds, as plain values.
pub struct PacketizerView {
    /// The whole buffer; the headers lie in front, the payload after them.
    pub buffer: Seq<u8>,
    pub transport_index: int,
    pub payload_index: int,
    pub ip_header_data: IpHeaderData,
    pub transport_header_data: TransportHeaderData,
}

/// The headers in front of the buffer are what the parsed data describe, and
/// the transport header is of the protocol that the IP header announces.
pub open spec fn headers_consistent(v: PacketizerView) -> bool {
    &&& ip_consistent(v.ip_header_data, v.buffer.take(v.transport_index))
    &&& transport_consistent(v.transport_header_data, v.buffer.subrange(v.transport_index, v.payload_index))
    &&& (v.transport_header_data is Tcp ==> ip_protocol(v.ip_header_data) is Tcp)
    &&& (v.transport_header_data is Udp ==> ip_protocol(v.ip_header_data) is Udp)
}

/// The IP header data with the total length set.
pub open spec fn with_total_length(d: IpHeaderData, total_length: u16) -> IpHeaderData {
    match d {
        IpHeaderData::V4(v4) => IpHeaderData::V4(Ipv4HeaderData { total_length, ..v4 }),
        IpHeaderData::V6(v6) => IpHeaderData::V6(
            Ipv6HeaderData { payload_length: (total_length - 40) as u16, ..v6 },
        ),
    }
}

/// The header bytes with the total length (and, for UDP, the datagram length)
/// set.
pub open spec fn headers_with_lengths(v: PacketizerView, payload_length: int) -> Seq<u8> {
    let total_length = (v.payload_index + payload_length) as u16;
    let ip_raw = match v.ip_header_data {
        IpHeaderData::V4(_) => put_u16(v.buffer.take(v.transport_index), 2, total_length),
        IpHeaderData::V6(_) => put_u16(v.buffer.take(v.transport_index), 4, (total_length - 40) as u16),
    };
    let t_raw = match v.transport_header_data {
        TransportHeaderData::Tcp(_) => v.buffer.subrange(v.transport_index, v.payload_index),
        TransportHeaderData::Udp(_) => put_u16(
            v.buffer.subrange(v.transport_index, v.payload_index),
            4,
            (payload_length + 8) as u16,
        ),
    };
    ip_raw + t_raw
}

/// The bytes of the packet that `build` makes for a payload of
/// `payload_length` bytes lying after the headers: the headers with the
/// lengths set, the payload, and then the checksums.
pub open spec fn built_packet_raw(v: PacketizerView, payload_length: int) -> Seq<u8> {
    let total_length = (v.payload_index + payload_length) as u16;
    let raw = headers_with_lengths(v, payload_length) + v.buffer.subrange(
        v.payload_index,
        v.payload_index + payload_length,
    );
    match with_total_length(v.ip_header_data, total_length) {
        IpHeaderData::V4(d) => ipv4_with_checksums(raw, d, Some(v.transport_header_data)),
        IpHeaderData::V6(d) => ipv6_with_checksums(raw, d, Some(v.transport_header_data)),
    }
}

/// The packetizer with `data` as the payload after the headers.
pub open spec fn with_payload(v: PacketizerView, data: Seq<u8>) -> PacketizerView {
    PacketizerView {
        buffer: v.buffer.take(v.payload_index) + data + v.buffer.skip(v.payload_index + data.len()),
        ..v
    }
}

/// Writing a payload leaves the headers as they are.
pub proof fn lemma_with_payload_keeps_headers(v: PacketizerView, data: Seq<u8>)
    requires
        0 <= v.transport_index <= v.payload_index,
        v.payload_index + data.len() <= v.buffer.len(),
    ensures
        with_payload(v, data).buffer.take(v.payload_index) == v.buffer.take(v.payload_index),
        with_payload(v, data).buffer.len() == v.buffer.len(),
        headers_consistent(v) ==> headers_consistent(with_payload(v, data)),
{
    let w = with_payload(v, data);
    assert(w.buffer.take(v.payload_index) =~= v.buffer.take(v.payload_index));
    assert(w.buffer.take(v.transport_index) =~= v.buffer.take(v.transport_index));
    assert(w.buffer.subrange(v.transport_index, v.payload_index) =~= v.buffer.subrange(
        v.transport_index,
        v.payload_index,
    ));
}

/// The packetizer with the sequence number, acknowledgement number and flags
/// of its TCP header set.
pub open spec fn with_tcp_numbers(v: PacketizerView, seq: u32, ack: u32, flags: u16) -> PacketizerView {
    let raw = v.buffer.subrange(v.transport_index, v.payload_index);
    let raw1 = put_u32(put_u32(raw, 4, seq), 8, ack);
    let raw2 = put_u16(raw1, 12, ((be_u16(raw1, 12) / 512) * 512 + flags % 512) as u16);
    match v.transport_header_data {
        TransportHeaderData::Tcp(d) => PacketizerView {
            buffer: v.buffer.take(v.transport_index) + raw2 + v.buffer.skip(v.payload_index),
            transport_header_data: TransportHeaderData::Tcp(
                TcpHeaderData {
                    sequence_number: seq,
                    acknowledgement_number: ack,
                    flags: flags % 512,
                    ..d
                },
            ),
            ..v
        },
        TransportHeaderData::Udp(_) => v,
    }
}

pub struct Packetizer {
    buffer: Box<[u8; MAX_PACKET_LENGTH]>,
    transport_index: usize,
    payload_index: usize,
    ip_header_data: IpHeaderData,
    transport_header_data: TransportHeaderData,
}

impl View for Packetizer {
    type V = PacketizerView;

    closed spec fn view(&self) -> PacketizerView {
        PacketizerView {
            buffer: self.buffer@,
            transport_index: self.transport_index as int,
            payload_index: self.payload_index as int,
            ip_header_data: self.ip_header_data,
            transport_header_data: self.transport_header_data,
        }
    }
}

impl Packetizer {
    /// The indices are those of the header lengths.
    pub closed spec fn wf(&self) -> bool {
        &&& headers_shape(self.ip_header_data, self.transport_header_data)
        &&& self.transport_index == ip_header_length(self.ip_header_data)
        &&& self.payload_index == self.transport_index + transport_header_length(self.transport_header_data)
    }

    pub proof fn lemma_wf(&self)
        requires
            self.wf(),
        ensures
            self@.transport_index == ip_header_length(self@.ip_header_data),
            self@.payload_index == self@.transport_index + transport_header_length(self@.transport_header_data),
            headers_shape(self@.ip_header_data, self@.transport_header_data),
            self@.buffer.len() == MAX_PACKET_LENGTH,
    {
        let a: &[u8; MAX_PACKET_LENGTH] = &*self.buffer;
        vstd::array::array_len_matches_n(a);
        assert(a@.len() == MAX_PACKET_LENGTH);
        assert(self@.buffer == a@);
    }

    /// Builds a packetizer for answering the device: the headers are those of
    /// the reference packet, with source and destination swapped.
    pub fn new(
        reference_ip_header: &IpHeader,
        reference_transport_header: &TransportHeader,
    ) -> (p: Self)
        requires
            headers_shape(ip_header_data(*reference_ip_header), transport_header_data(*reference_transport_header)),
            ip_header_raw(*reference_ip_header).len() == ip_header_length(ip_header_data(*reference_ip_header)),
            transport_header_raw(*reference_transport_header).len() == transport_header_length(
                transport_header_data(*reference_transport_header),
            ),
        ensures
            p.wf(),
            p@.ip_header_data == swapped_ip_data(ip_header_data(*reference_ip_header)),
            p@.transport_header_data == swapped_transport_data(transport_header_data(*reference_transport_header)),
            p@.buffer.take(p@.payload_index) == swapped_ip_raw(
                ip_header_data(*reference_ip_header),
                ip_header_raw(*reference_ip_header),
            ) + swapped_transport_raw(
                transport_header_data(*reference_transport_header),
                transport_header_raw(*reference_transport_header),
            ),
            ({
                let ip = ip_header_data(*reference_ip_header);
                let t = transport_header_data(*reference_transport_header);
                &&& ip_consistent(ip, ip_header_raw(*reference_ip_header))
                &&& transport_consistent(t, transport_header_raw(*reference_transport_header))
                &&& (t is Tcp ==> ip_protocol(ip) is Tcp)
                &&& (t is Udp ==> ip_protocol(ip) is Udp)
            }) ==> headers_consistent(p@),
    {
        let mut buffer = Box::new([0u8; MAX_PACKET_LENGTH]);
        let transport_index = reference_ip_header.header_length() as usize;
        let payload_index = transport_index + reference_transport_header.header_length() as usize;
        let mut ip_header_data = reference_ip_header.data_clone();
        let mut transport_header_data = reference_transport_header.data_clone();
        let ip_raw = reference_ip_header.raw();
        let t_raw = reference_transport_header.raw();
        let all = vstd::array::ref_mut_array_unsizing_coercion(&mut *buffer);
        let (ip_slice, rest) = all.split_at_mut(transport_index);
        let (t_slice, _payload) = rest.split_at_mut(payload_index - transport_index);
        copy_into(ip_slice, ip_raw);
        copy_into(t_slice, t_raw);
        {
            let mut h = match &mut ip_header_data {
                IpHeaderData::V4(v4) => IpHeaderMut::V4(v4.bind_mut(ip_slice)),
                IpHeaderData::V6(v6) => IpHeaderMut::V6(v6.bind_mut(ip_slice)),
            };
            h.swap_source_and_destination();
        }
        {
            let mut th = transport_header_data.bind_mut(t_slice);
            th.swap_source_and_destination();
        }
        let p = Packetizer { buffer, transport_index, payload_index, ip_header_data, transport_header_data };
        proof {
            assert(p@.buffer.take(p@.payload_index) =~= ip_slice@ + t_slice@);
            assert(p@.buffer.take(p@.transport_index) =~= ip_slice@);
            assert(p@.buffer.subrange(p@.transport_index, p@.payload_index) =~= t_slice@);
        }
        p
    }

    /// The IP header in front of the buffer.
    pub fn ip_header_mut(&mut self) -> (h: IpHeaderMut<'_>)
        requires
            old(self).wf(),
        ensures
            ip_header_mut_data(h) == old(self)@.ip_header_data,
            ip_header_mut_raw(h) == old(self)@.buffer.take(old(self)@.transport_index),
            final(self)@.transport_index == old(self)@.transport_index,
            final(self)@.payload_index == old(self)@.payload_index,
            final(self)@.transport_header_data == old(self)@.transport_header_data,
            match h {
                IpHeaderMut::V4(x) => {
                    &&& final(self)@.ip_header_data == IpHeaderData::V4(*final(x.data))
                    &&& final(self)@.buffer == final(x.raw)@ + old(self)@.buffer.skip(old(self)@.transport_index)
                },
                IpHeaderMut::V6(x) => {
                    &&& final(self)@.ip_header_data == IpHeaderData::V6(*final(x.data))
                    &&& final(self)@.buffer == final(x.raw)@ + old(self)@.buffer.skip(old(self)@.transport_index)
                },
            },
            (h is V4) == (old(self)@.ip_header_data is V4),
    {
        let ti = self.transport_index;
        let all = vstd::array::ref_mut_array_unsizing_coercion(&mut *self.buffer);
        let (raw, _rest) = all.split_at_mut(ti);
        match &mut self.ip_header_data {
            IpHeaderData::V4(v4) => IpHeaderMut::V4(v4.bind_mut(raw)),
            IpHeaderData::V6(v6) => IpHeaderMut::V6(v6.bind_mut(raw)),
        }
    }

    /// The transport header after the IP header.
    pub fn transport_header_mut(&mut self) -> (h: TransportHeaderMut<'_>)
        requires
            old(self).wf(),
        ensures
            transport_header_mut_data(h) == old(self)@.transport_header_data,
            transport_header_mut_raw(h) == old(self)@.buffer.subrange(
                old(self)@.transport_index,
                old(self)@.payload_index,
            ),
            final(self)@.transport_index == old(self)@.transport_index,
            final(self)@.payload_index == old(self)@.payload_index,
            final(self)@.ip_header_data == old(self)@.ip_header_data,
            match h {
                TransportHeaderMut::Tcp(x) => {
                    &&& final(self)@.transport_header_data == TransportHeaderData::Tcp(*final(x.data))
                    &&& final(self)@.buffer == old(self)@.buffer.take(old(self)@.transport_index)
                        + final(x.raw)@ + old(self)@.buffer.skip(old(self)@.payload_index)
                },
                TransportHeaderMut::Udp(x) => {
                    &&& final(self)@.transport_header_data == TransportHeaderData::Udp(*final(x.data))
                    &&& final(self)@.buffer == old(self)@.buffer.take(old(self)@.transport_index)
                        + final(x.raw)@ + old(self)@.buffer.skip(old(self)@.payload_index)
                },
            },
            (h is Tcp) == (old(self)@.transport_header_data is Tcp),
    {
        let ti = self.transport_index;
        let pi = self.payload_index;
        let all = vstd::array::ref_mut_array_unsizing_coercion(&mut *self.buffer);
        let (_ip, rest) = all.split_at_mut(ti);
        let (raw, _payload) = rest.split_at_mut(pi - ti);
        self.transport_header_data.bind_mut(raw)
    }
}

impl Packetizer {
    /// Writes the lengths of a packet with a payload of `payload_length`
    /// bytes into the headers.
    fn set_lengths(&mut self, payload_length: u16)
        requires
            old(self).wf(),
            old(self)@.payload_index + payload_length <= 0xffff,
        ensures
            final(self).wf(),
            final(self)@ == (PacketizerView {
                buffer: headers_with_lengths(old(self)@, payload_length as int) + old(self)@.buffer.skip(
                    old(self)@.payload_index,
                ),
                ip_header_data: with_total_length(
                    old(self)@.ip_header_data,
                    (old(self)@.payload_index + payload_length) as u16,
                ),
                ..old(self)@
            }),
            headers_consistent(old(self)@) ==> headers_consistent(final(self)@),
    {
        proof { self.lemma_wf(); }
        let ghost v0 = self@;
        let total_length = self.payload_index as u16 + payload_length;
        let ti = self.transport_index;
        let pi = self.payload_index;
        let all = vstd::array::ref_mut_array_unsizing_coercion(&mut *self.buffer);
        let (ip_slice, rest) = all.split_at_mut(ti);
        let (t_slice, payload) = rest.split_at_mut(pi - ti);
        let ghost p_old = payload@;
        assert(ip_slice@ =~= v0.buffer.take(ti as int));
        assert(t_slice@ =~= v0.buffer.subrange(ti as int, pi as int));
        assert(p_old =~= v0.buffer.skip(pi as int));
        match &mut self.ip_header_data {
            IpHeaderData::V4(v4) => {
                let mut h = v4.bind_mut(ip_slice);
                h.set_total_length(total_length);
            },
            IpHeaderData::V6(v6) => {
                let mut h = v6.bind_mut(ip_slice);
                h.set_payload_length(total_length - 40);
            },
        }
        match &mut self.transport_header_data {
            TransportHeaderData::Tcp(_) => {},
            TransportHeaderData::Udp(u) => {
                let mut h = u.bind_mut(t_slice);
                h.set_payload_length(payload_length);
            },
        }
        assert(payload@ == p_old);
        proof {
            let v = self@;
            assert(v.buffer =~= headers_with_lengths(v0, payload_length as int) + v0.buffer.skip(pi as int));
            assert(v.buffer.take(ti as int) =~= ip_slice@);
            assert(v.buffer.subrange(ti as int, pi as int) =~= t_slice@);
        }
    }

    /// Completes the packet of `payload_length` bytes already in place after
    /// the headers: sets the lengths, then computes the checksums.
    #[verifier::rlimit(60)]
    fn build(&mut self, payload_length: u16) -> (p: IpPacket<'_>)
        requires
            old(self).wf(),
            old(self)@.payload_index + payload_length <= 0xffff,
        ensures
            final(self).wf(),
            final(self)@.transport_index == old(self)@.transport_index,
            final(self)@.payload_index == old(self)@.payload_index,
            final(self)@.transport_header_data == old(self)@.transport_header_data,
            final(self)@.ip_header_data == with_total_length(
                old(self)@.ip_header_data,
                (old(self)@.payload_index + payload_length) as u16,
            ),
            packet_shape(p),
            packet_ip_data(p) == final(self)@.ip_header_data,
            packet_transport_data(p) == Some(old(self)@.transport_header_data),
            packet_raw(p) == built_packet_raw(old(self)@, payload_length as int),
            headers_consistent(old(self)@) ==> packet_wf(p),
            match p {
                IpPacket::V4(q) => final(self)@.buffer == final(q.raw)@ + old(self)@.buffer.skip(
                    old(self)@.payload_index + payload_length,
                ),
                IpPacket::V6(q) => final(self)@.buffer == final(q.raw)@ + old(self)@.buffer.skip(
                    old(self)@.payload_index + payload_length,
                ),
            },
            headers_consistent(old(self)@) ==> match p {
                IpPacket::V4(q) => final(q.raw)@ == q.raw@ ==> headers_consistent(final(self)@),
                IpPacket::V6(q) => final(q.raw)@ == q.raw@ ==> headers_consistent(final(self)@),
            },
    {
        proof { self.lemma_wf(); }
        let ghost v0 = self@;
        let total_length = self.payload_index as u16 + payload_length;
        self.set_lengths(payload_length);
        let ghost v2 = self@;
        proof {
            self.lemma_wf();
            assert(v2.buffer.take(v2.payload_index) =~= headers_with_lengths(v0, payload_length as int));
            assert(v2.buffer.subrange(v2.payload_index, v2.payload_index + payload_length)
                =~= v0.buffer.subrange(v0.payload_index, v0.payload_index + payload_length));
        }
        let ip_data = self.ip_header_data;
        let transport_data = self.transport_header_data;
        let all = vstd::array::ref_mut_array_unsizing_coercion(&mut *self.buffer);
        let (raw, _rest) = all.split_at_mut(total_length as usize);
        let ghost raw0 = raw@;
        proof { lemma_built_prefix(v0, v2, raw0, payload_length as int); }
        let p = checksummed_packet(raw, ip_data, transport_data);
        proof {
            assert(v2.buffer.skip(total_length as int) =~= v0.buffer.skip(total_length as int));
            if headers_consistent(v0) {
                lemma_packet_keeps_headers(v2, p, v0.buffer.skip(total_length as int));
            }
        }
        p
    }
}

/// A well-formed packet left as it was built in front of the buffer keeps
/// the headers in front of the buffer consistent with its header data.
pub proof fn lemma_packet_keeps_headers(v: PacketizerView, p: IpPacket, rest: Seq<u8>)
    requires
        packet_wf(p),
        packet_transport_data(p) == Some(v.transport_header_data),
        v.transport_index == ip_header_length(packet_ip_data(p)),
        v.payload_index == v.transport_index + transport_header_length(v.transport_header_data),
        v.payload_index <= packet_raw(p).len(),
    ensures
        headers_consistent(
            PacketizerView { buffer: packet_raw(p) + rest, ip_header_data: packet_ip_data(p), ..v },
        ),
{
    let raw = packet_raw(p);
    let b = raw + rest;
    let ti = v.transport_index;
    let pi = v.payload_index;
    let t = v.transport_header_data;
    assert(forall|i: int| 0 <= i < raw.len() ==> b[i] == raw[i]);
    let h = b.take(ti);
    let th = b.subrange(ti, pi);
    let tr = raw.subrange(ti, raw.len() as int);
    assert(forall|i: int| 0 <= i < ti ==> h[i] == raw[i]);
    assert(forall|i: int| 0 <= i < pi - ti ==> th[i] == tr[i]);
    match p {
        IpPacket::V4(q) => {
            assert(h[0] == raw[0] && h[2] == raw[2] && h[3] == raw[3] && h[9] == raw[9]);
            assert(h[12] == raw[12] && h[13] == raw[13] && h[14] == raw[14] && h[15] == raw[15]);
            assert(h[16] == raw[16] && h[17] == raw[17] && h[18] == raw[18] && h[19] == raw[19]);
        },
        IpPacket::V6(q) => {
            assert(h[4] == raw[4] && h[5] == raw[5] && h[6] == raw[6] && h[7] == raw[7]);
            assert(h.subrange(8, 24) =~= raw.subrange(8, 24));
            assert(h.subrange(24, 40) =~= raw.subrange(24, 40));
        },
    }
    match t {
        TransportHeaderData::Tcp(_) => {
            assert(th[0] == tr[0] && th[1] == tr[1] && th[2] == tr[2] && th[3] == tr[3]);
            assert(th[4] == tr[4] && th[5] == tr[5] && th[6] == tr[6] && th[7] == tr[7]);
            assert(th[8] == tr[8] && th[9] == tr[9] && th[10] == tr[10] && th[11] == tr[11]);
            assert(th[12] == tr[12] && th[13] == tr[13] && th[14] == tr[14] && th[15] == tr[15]);
        },
        TransportHeaderData::Udp(_) => {
            assert(th[0] == tr[0] && th[1] == tr[1] && th[2] == tr[2] && th[3] == tr[3]);
        },
    }
}

/// The bytes of a packet about to be built: the headers with their lengths
/// set and the payload; what the headers encode stays so with the payload
/// after them.
proof fn lemma_built_prefix(v0: PacketizerView, v2: PacketizerView, raw0: Seq<u8>, payload_length: int)
    requires
        0 <= v0.transport_index <= v0.payload_index,
        0 <= payload_length,
        v0.payload_index + payload_length <= v0.buffer.len(),
        v2.transport_index == v0.transport_index,
        v2.payload_index == v0.payload_index,
        v2.transport_header_data == v0.transport_header_data,
        v2.buffer.len() == v0.buffer.len(),
        v2.buffer.take(v2.payload_index) == headers_with_lengths(v0, payload_length),
        v2.buffer.subrange(v2.payload_index, v2.payload_index + payload_length)
            == v0.buffer.subrange(v0.payload_index, v0.payload_index + payload_length),
        raw0 == v2.buffer.take(v0.payload_index + payload_length),
    ensures
        raw0 == headers_with_lengths(v0, payload_length) + v0.buffer.subrange(
            v0.payload_index,
            v0.payload_index + payload_length,
        ),
        raw0 == v2.buffer.take(v2.transport_index) + raw0.subrange(v2.transport_index, raw0.len() as int),
        raw0.subrange(v2.transport_index, raw0.len() as int) == v2.buffer.subrange(
            v2.transport_index,
            v2.payload_index,
        ) + raw0.subrange(v2.payload_index, raw0.len() as int),
        headers_consistent(v2) ==> {
            &&& ip_consistent(v2.ip_header_data, raw0)
            &&& transport_consistent(
                v2.transport_header_data,
                raw0.subrange(v2.transport_index, raw0.len() as int),
            )
        },
{
    let hdr = headers_with_lengths(v0, payload_length);
    let ti = v2.transport_index;
    let pi = v2.payload_index;
    assert(raw0 =~= hdr + v0.buffer.subrange(pi, pi + payload_length));
    assert(raw0.subrange(ti, raw0.len() as int) =~= v2.buffer.subrange(ti, pi)
        + raw0.subrange(pi, raw0.len() as int));
    assert(raw0 =~= v2.buffer.take(ti) + raw0.subrange(ti, raw0.len() as int));
    if headers_consistent(v2) {
        lemma_transport_consistent_extend(
            v2.transport_header_data,
            v2.buffer.subrange(ti, pi),
            raw0.subrange(pi, raw0.len() as int),
        );
        match v2.ip_header_data {
            IpHeaderData::V4(d) => lemma_ipv4_consistent_extend(
                d,
                v2.buffer.take(ti),
                raw0.subrange(ti, raw0.len() as int),
            ),
            IpHeaderData::V6(d) => lemma_ipv6_consistent_extend(
                d,
                v2.buffer.take(ti),
                raw0.subrange(ti, raw0.len() as int),
            ),
        }
    }
}

/// The packet over `raw`, with these headers, its checksums computed.
fn checksummed_packet<'a>(
    raw: &'a mut [u8],
    ip_data: IpHeaderData,
    transport_data: TransportHeaderData,
) -> (p: IpPacket<'a>)
    requires
        packet_shape(match ip_data {
            IpHeaderData::V4(v4) => IpPacket::V4(Ipv4Packet { raw: old(raw), ipv4_header_data: v4, transport_header_data: Some(transport_data) }),
            IpHeaderData::V6(v6) => IpPacket::V6(Ipv6Packet { raw: old(raw), ipv6_header_data: v6, transport_header_data: Some(transport_data) }),
        }),
    ensures
        packet_shape(p),
        packet_ip_data(p) == ip_data,
        packet_transport_data(p) == Some(transport_data),
        packet_raw(p) == match ip_data {
            IpHeaderData::V4(d) => ipv4_with_checksums(old(raw)@, d, Some(transport_data)),
            IpHeaderData::V6(d) => ipv6_with_checksums(old(raw)@, d, Some(transport_data)),
        },
        packet_wf(match ip_data {
            IpHeaderData::V4(v4) => IpPacket::V4(Ipv4Packet { raw: old(raw), ipv4_header_data: v4, transport_header_data: Some(transport_data) }),
            IpHeaderData::V6(v6) => IpPacket::V6(Ipv6Packet { raw: old(raw), ipv6_header_data: v6, transport_header_data: Some(transport_data) }),
        }) ==> packet_wf(p),
        match p {
            IpPacket::V4(q) => final(raw)@ == final(q.raw)@,
            IpPacket::V6(q) => final(raw)@ == final(q.raw)@,
        },
{
    match ip_data {
        IpHeaderData::V4(v4) => {
            let mut p = IpPacket::V4(Ipv4Packet::new(raw, v4, transport_data));
            p.compute_checksums();
            p
        },
        IpHeaderData::V6(v6) => {
            let mut p = IpPacket::V6(Ipv6Packet::new(raw, v6, transport_data));
            p.compute_checksums();
            p
        },
    }
}

impl Packetizer {
    /// Places `data` after the headers.
    fn write_payload(&mut self, data: &[u8])
        requires
            old(self).wf(),
            old(self)@.payload_index + data@.len() <= MAX_PACKET_LENGTH,
        ensures
            final(self).wf(),
            final(self)@ == with_payload(old(self)@, data@),
    {
        proof { self.lemma_wf(); }
        let pi = self.payload_index;
        let n = data.len();
        let all = vstd::array::ref_mut_array_unsizing_coercion(&mut *self.buffer);
        let (_headers, rest) = all.split_at_mut(pi);
        let (target, _after) = rest.split_at_mut(n);
        copy_into(target, data);
        proof {
            assert(self@.buffer =~= with_payload(old(self)@, data@).buffer);
        }
    }

    /// Sets the sequence number, acknowledgement number and flags of the TCP
    /// header.
    pub fn set_tcp_numbers(&mut self, sequence_number: u32, acknowledgement_number: u32, flags: u16)
        requires
            old(self).wf(),
            old(self)@.transport_header_data is Tcp,
        ensures
            final(self).wf(),
            final(self)@ == with_tcp_numbers(old(self)@, sequence_number, acknowledgement_number, flags),
            headers_consistent(old(self)@) ==> headers_consistent(final(self)@),
    {
        proof { self.lemma_wf(); }
        let ghost v0 = self@;
        let ti = self.transport_index;
        let pi = self.payload_index;
        let all = vstd::array::ref_mut_array_unsizing_coercion(&mut *self.buffer);
        let (ip_slice, rest) = all.split_at_mut(ti);
        let (t_slice, payload) = rest.split_at_mut(pi - ti);
        let ghost ip_old = ip_slice@;
        let ghost p_old = payload@;
        assert(ip_old =~= v0.buffer.take(ti as int));
        assert(t_slice@ =~= v0.buffer.subrange(ti as int, pi as int));
        assert(p_old =~= v0.buffer.skip(pi as int));
        match &mut self.transport_header_data {
            TransportHeaderData::Tcp(d) => {
                let mut h = d.bind_mut(t_slice);
                h.set_sequence_number(sequence_number);
                h.set_acknowledgement_number(acknowledgement_number);
                h.set_flags(flags);
            },
            TransportHeaderData::Udp(_) => {},
        }
        assert(payload@ == p_old);
        assert(ip_slice@ == ip_old);
        proof {
            let v = self@;
            assert(v.buffer =~= with_tcp_numbers(v0, sequence_number, acknowledgement_number, flags).buffer);
            assert(v.buffer.take(ti as int) =~= ip_old);
            assert(v.buffer.subrange(ti as int, pi as int) =~= t_slice@);
        }
    }

    /// A packet with an empty payload.
    pub fn packetize_empty_payload(&mut self) -> (p: IpPacket<'_>)
        requires
            old(self).wf(),
        ensures
            final(self).wf(),
            final(self)@.transport_index == old(self)@.transport_index,
            final(self)@.payload_index == old(self)@.payload_index,
            final(self)@.transport_header_data == old(self)@.transport_header_data,
            final(self)@.ip_header_data == with_total_length(
                old(self)@.ip_header_data,
                old(self)@.payload_index as u16,
            ),
            packet_shape(p),
            packet_ip_data(p) == final(self)@.ip_header_data,
            packet_transport_data(p) == Some(old(self)@.transport_header_data),
            packet_raw(p) == built_packet_raw(old(self)@, 0),
            headers_consistent(old(self)@) ==> packet_wf(p),            match p {
                IpPacket::V4(q) => final(self)@.buffer == final(q.raw)@ + old(self)@.buffer.skip(old(self)@.payload_index),
                IpPacket::V6(q) => final(self)@.buffer == final(q.raw)@ + old(self)@.buffer.skip(old(self)@.payload_index),
            },
            headers_consistent(old(self)@) ==> match p {
                IpPacket::V4(q) => final(q.raw)@ == q.raw@ ==> headers_consistent(final(self)@),
                IpPacket::V6(q) => final(q.raw)@ == q.raw@ ==> headers_consistent(final(self)@),
            },
    {
        proof { self.lemma_wf(); }
        self.build(0)
    }

    /// A packet carrying `data` (a datagram received from the network).
    pub fn packetize(&mut self, data: &[u8]) -> (p: IpPacket<'_>)
        requires
            old(self).wf(),
            old(self)@.payload_index + data@.len() <= 0xffff,
        ensures
            final(self).wf(),
            final(self)@.transport_index == old(self)@.transport_index,
            final(self)@.payload_index == old(self)@.payload_index,
            final(self)@.transport_header_data == old(self)@.transport_header_data,
            final(self)@.ip_header_data == with_total_length(
                old(self)@.ip_header_data,
                (old(self)@.payload_index + data@.len()) as u16,
            ),
            packet_shape(p),
            packet_ip_data(p) == final(self)@.ip_header_data,
            packet_transport_data(p) == Some(old(self)@.transport_header_data),
            packet_raw(p) == built_packet_raw(with_payload(old(self)@, data@), data@.len() as int),
            headers_consistent(old(self)@) ==> packet_wf(p),
            match p {
                IpPacket::V4(q) => final(self)@.buffer == final(q.raw)@ + old(self)@.buffer.skip(old(self)@.payload_index + data@.len()),
                IpPacket::V6(q) => final(self)@.buffer == final(q.raw)@ + old(self)@.buffer.skip(old(self)@.payload_index + data@.len()),
            },
            headers_consistent(old(self)@) ==> match p {
                IpPacket::V4(q) => final(q.raw)@ == q.raw@ ==> headers_consistent(final(self)@),
                IpPacket::V6(q) => final(q.raw)@ == q.raw@ ==> headers_consistent(final(self)@),
            },
    {
        proof { self.lemma_wf(); }
        self.write_payload(data);
        proof { lemma_with_payload_keeps_headers(old(self)@, data@); }
        self.build(data.len() as u16)
    }

    /// A packet carrying `data` read from a stream: `None` when `data` is
    /// empty (end of stream).
    pub fn packetize_read(&mut self, data: &[u8]) -> (p: Option<IpPacket<'_>>)
        requires
            old(self).wf(),
            old(self)@.payload_index + data@.len() <= 0xffff,
        ensures
            final(self).wf(),
            final(self)@.transport_index == old(self)@.transport_index,
            final(self)@.payload_index == old(self)@.payload_index,
            final(self)@.transport_header_data == old(self)@.transport_header_data,
            p is None <==> data@.len() == 0,
            p matches Some(p) ==> {
                &&& final(self)@.ip_header_data == with_total_length(
                    old(self)@.ip_header_data,
                    (old(self)@.payload_index + data@.len()) as u16,
                )
                &&& packet_shape(p)
                &&& packet_ip_data(p) == final(self)@.ip_header_data
                &&& packet_transport_data(p) == Some(old(self)@.transport_header_data)
                &&& packet_raw(p) == built_packet_raw(with_payload(old(self)@, data@), data@.len() as int)
                &&& (headers_consistent(old(self)@) ==> packet_wf(p))
            },
            data@.len() == 0 ==> final(self)@ == old(self)@,
            match p {
                Some(IpPacket::V4(q)) => final(self)@.buffer == final(q.raw)@ + old(self)@.buffer.skip(
                    old(self)@.payload_index + data@.len(),
                ),
                Some(IpPacket::V6(q)) => final(self)@.buffer == final(q.raw)@ + old(self)@.buffer.skip(
                    old(self)@.payload_index + data@.len(),
                ),
                None => true,
            },
            headers_consistent(old(self)@) ==> match p {
                Some(IpPacket::V4(q)) => final(q.raw)@ == q.raw@ ==> headers_consistent(final(self)@),
                Some(IpPacket::V6(q)) => final(q.raw)@ == q.raw@ ==> headers_consistent(final(self)@),
                None => headers_consistent(final(self)@),
            },
    {
        if data.len() > 0 {
            Some(self.packetize(data))
        } else {
            None
        }
    }

    /// The packet of `packet_length` bytes last built, again (its checksums
    /// are not recomputed).
    pub fn inflate(&mut self, packet_length: u16) -> (p: IpPacket<'_>)
        requires
            old(self).wf(),
        ensures
            final(self).wf(),
            final(self)@.transport_index == old(self)@.transport_index,
            final(self)@.payload_index == old(self)@.payload_index,
            final(self)@.transport_header_data == old(self)@.transport_header_data,
            final(self)@.ip_header_data == old(self)@.ip_header_data,
            packet_ip_data(p) == old(self)@.ip_header_data,
            packet_transport_data(p) == Some(old(self)@.transport_header_data),
            packet_raw(p) == old(self)@.buffer.take(packet_length as int),
            old(self)@.payload_index <= packet_length ==> packet_shape(p),
            match p {
                IpPacket::V4(q) => final(self)@.buffer == final(q.raw)@ + old(self)@.buffer.skip(
                    packet_length as int,
                ),
                IpPacket::V6(q) => final(self)@.buffer == final(q.raw)@ + old(self)@.buffer.skip(
                    packet_length as int,
                ),
            },
            match p {
                IpPacket::V4(q) => final(q.raw)@ == q.raw@ ==> final(self)@ == old(self)@,
                IpPacket::V6(q) => final(q.raw)@ == q.raw@ ==> final(self)@ == old(self)@,
            },
    {
        proof {
            self.lemma_wf();
            let b = self@.buffer;
            assert(b.take(packet_length as int) + b.skip(packet_length as int) =~= b);
        }
        let ip_data = self.ip_header_data;
        let transport_data = self.transport_header_data;
        let all = vstd::array::ref_mut_array_unsizing_coercion(&mut *self.buffer);
        let (raw, _rest) = all.split_at_mut(packet_length as usize);
        match ip_data {
            IpHeaderData::V4(v4) => IpPacket::V4(Ipv4Packet::new(raw, v4, transport_data)),
            IpHeaderData::V6(v6) => IpPacket::V6(Ipv6Packet::new(raw, v6, transport_data)),
        }
    }
}

/// Copies `src` over `dst`, of the same length.
fn copy_into(dst: &mut [u8], src: &[u8])
    requires
        old(dst)@.len() == src@.len(),
    ensures
        final(dst)@ == src@,
{
    let n = dst.len();
    let mut i: usize = 0;
    while i < n
        invariant
            n == dst@.len(),
            n == src@.len(),
            i <= n,
            forall|j: int| 0 <= j < i ==> dst@[j] == src@[j],
        decreases n - i,
    {
        dst[i] = src[i];
        i = i + 1;
    }
    assert(dst@ =~= src@);
}

} // verus!
