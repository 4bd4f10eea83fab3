//! The UDP header: its parsed fields, and views bound to the raw bytes.
use vstd::prelude::*;
use crate::byte_order::{be_u16, put_u16, read_u16_at, write_u16_at, lemma_put_u16_read};
use crate::ip_header::IpHeaderData;
use crate::pseudo_header::{compute_transport_checksum, pseudo_header_sum, transport_checksum};
use crate::checksum::{
    byte_sum, fold_carries, internet_checksum, lemma_byte_sum_put, lemma_fold_carries_bound,
    lemma_fold_carries_mod, lemma_sum_with_checksum,
};

verus! {

pub const UDP_HEADER_LENGTH: u8 = 8;

/// The protocol number of UDP in the pseudo-header.
pub const UDP_PROTOCOL_NUMBER: u8 = 17;

#[derive(Clone, Copy, Debug, PartialEq, Eq)]
pub struct UdpHeaderData {
    pub source_port: u16,
    pub destination_port: u16,
}

/// `data` is what the first 8 bytes of `raw` encode.
pub open spec fn udp_consistent(data: UdpHeaderData, raw: Seq<u8>) -> bool {
    &&& raw.len() >= 8
    &&& data.source_port as int == be_u16(raw, 0)
    &&& data.destination_port as int == be_u16(raw, 2)
}

/// The checksum that `update_checksum` writes: none (zero) under IPv4, where
/// it is optional; the computed one under IPv6, where it is mandatory.
pub open spec fn udp_checksum(ip: IpHeaderData, header: Seq<u8>, payload: Seq<u8>) -> u16 {
    match ip {
        IpHeaderData::V4(_) => 0,
        IpHeaderData::V6(_) => {
            let c = transport_checksum(ip, 17, header, 6, payload);
            if c == 0 {
                0xffff
            } else {
                c
            }
        },
    }
}

/// Under IPv6, a datagram whose checksum field holds what `update_checksum`
/// writes verifies: the pseudo-header, the header with its checksum and the
/// payload sum (carries folded) to `0xffff`, also where the computed checksum
/// was zero and is sent as `0xffff`.
pub proof fn lemma_udp_checksum_verifies(ip: IpHeaderData, header: Seq<u8>, payload: Seq<u8>)
    requires
        ip is V6,
        header.len() >= 8,
    ensures
        fold_carries(
            pseudo_header_sum(ip, 17, header.len() + payload.len()) + byte_sum(
                put_u16(header, 6, udp_checksum(ip, header, payload)),
            ) + byte_sum(payload),
        ) == 0xffff,
{
    let extra = pseudo_header_sum(ip, 17, header.len() + payload.len()) + byte_sum(payload);
    let t = extra + byte_sum(put_u16(header, 6, 0));
    let c = internet_checksum(t);
    assert(c == transport_checksum(ip, 17, header, 6, payload));
    let v = udp_checksum(ip, header, payload);
    lemma_byte_sum_put(header, 6, v);
    if c == 0 {
        assert(v == 0xffff);
        lemma_fold_carries_bound(t);
        lemma_fold_carries_mod(t);
        let u = t + 0xffff;
        lemma_fold_carries_mod(u);
        lemma_fold_carries_bound(u);
        assert(fold_carries(t) == 0xffff);
        assert(u % 0xffff == 0) by (nonlinear_arith)
            requires
                u == t + 0xffff,
                t % 0xffff == 0,
        {}
        let g = fold_carries(u);
        assert(g == 0xffff) by (nonlinear_arith)
            requires
                g % 0xffff == 0,
                0 < g < 0x10000,
        {
            assert(g == 0xffff * (g / 0xffff) + g % 0xffff);
        }
    } else {
        assert(v == c);
        lemma_sum_with_checksum(t);
    }
}

impl UdpHeaderData {
    pub fn parse(raw: &[u8]) -> (d: Self)
        requires
            raw@.len() >= 8,
        ensures
            udp_consistent(d, raw@),
    {
        UdpHeaderData { source_port: read_u16_at(raw, 0), destination_port: read_u16_at(raw, 2) }
    }

    pub fn bind<'a>(&'a self, raw: &'a [u8]) -> (h: UdpHeader<'a>)
        ensures
            h.raw@ == raw@,
            *h.data == *self,
    {
        UdpHeader { raw, data: self }
    }

    pub fn bind_mut<'a>(&'a mut self, raw: &'a mut [u8]) -> (h: UdpHeaderMut<'a>)
        ensures
            h.raw@ == old(raw)@,
            *h.data == *old(self),
            final(h.raw)@ == final(raw)@,
            *final(h.data) == *final(self),
    {
        UdpHeaderMut { raw, data: self }
    }

    pub fn source_port(&self) -> (r: u16)
        ensures
            r == self.source_port,
    {
        self.source_port
    }

    pub fn destination_port(&self) -> (r: u16)
        ensures
            r == self.destination_port,
    {
        self.destination_port
    }
}

pub struct UdpHeader<'a> {
    pub raw: &'a [u8],
    pub data: &'a UdpHeaderData,
}

pub struct UdpHeaderMut<'a> {
    pub raw: &'a mut [u8],
    pub data: &'a mut UdpHeaderData,
}

impl<'a> UdpHeader<'a> {
    pub fn raw(&self) -> (r: &[u8])
        ensures
            r@ == self.raw@,
    {
        self.raw
    }

    pub fn data(&self) -> (r: &UdpHeaderData)
        ensures
            *r == *self.data,
    {
        self.data
    }

    pub fn source_port(&self) -> (r: u16)
        ensures
            r == self.data.source_port,
    {
        self.data.source_port
    }

    pub fn destination_port(&self) -> (r: u16)
        ensures
            r == self.data.destination_port,
    {
        self.data.destination_port
    }
}

impl<'a> UdpHeaderMut<'a> {
    pub fn raw(&self) -> (r: &[u8])
        ensures
            r@ == old(self.raw)@,
    {
        self.raw
    }

    pub fn data(&self) -> (r: &UdpHeaderData)
        ensures
            *r == *old(self.data),
    {
        self.data
    }

    pub fn set_source_port(&mut self, port: u16)
        requires
            old(self).raw@.len() >= 8,
        ensures
            *final(self).data == (UdpHeaderData { source_port: port, ..*old(self).data }),
            final(self).raw@ == put_u16(old(self).raw@, 0, port),
            udp_consistent(*old(self).data, old(self).raw@) ==> udp_consistent(
                *final(self).data,
                final(self).raw@,
            ),
            *final(final(self).data) == *final(old(self).data),
            final(final(self).raw)@ == final(old(self).raw)@,
    {
        self.data.source_port = port;
        write_u16_at(self.raw, 0, port);
        proof { lemma_put_u16_read(old(self).raw@, 0, port); }
    }

    pub fn set_destination_port(&mut self, port: u16)
        requires
            old(self).raw@.len() >= 8,
        ensures
            *final(self).data == (UdpHeaderData { destination_port: port, ..*old(self).data }),
            final(self).raw@ == put_u16(old(self).raw@, 2, port),
            udp_consistent(*old(self).data, old(self).raw@) ==> udp_consistent(
                *final(self).data,
                final(self).raw@,
            ),
            *final(final(self).data) == *final(old(self).data),
            final(final(self).raw)@ == final(old(self).raw)@,
    {
        self.data.destination_port = port;
        write_u16_at(self.raw, 2, port);
        proof { lemma_put_u16_read(old(self).raw@, 2, port); }
    }

    pub fn swap_source_and_destination(&mut self)
        requires
            old(self).raw@.len() >= 8,
        ensures
            *final(self).data == (UdpHeaderData {
                source_port: old(self).data.destination_port,
                destination_port: old(self).data.source_port,
            }),
            final(self).raw@ == put_u16(
                put_u16(old(self).raw@, 0, old(self).data.destination_port),
                2,
                old(self).data.source_port,
            ),
            udp_consistent(*old(self).data, old(self).raw@) ==> udp_consistent(
                *final(self).data,
                final(self).raw@,
            ),
            *final(final(self).data) == *final(old(self).data),
            final(final(self).raw)@ == final(old(self).raw)@,
    {
        let s = self.data.source_port;
        let d = self.data.destination_port;
        self.set_source_port(d);
        self.set_destination_port(s);
    }

    /// Writes the UDP length field: the header and `payload_length` bytes.
    pub fn set_payload_length(&mut self, payload_length: u16)
        requires
            old(self).raw@.len() >= 8,
            payload_length <= u16::MAX - 8,
        ensures
            *final(self).data == *old(self).data,
            final(self).raw@ == put_u16(old(self).raw@, 4, (payload_length + 8) as u16),
            udp_consistent(*old(self).data, old(self).raw@) ==> udp_consistent(
                *final(self).data,
                final(self).raw@,
            ),
            *final(final(self).data) == *final(old(self).data),
            final(final(self).raw)@ == final(old(self).raw)@,
    {
        write_u16_at(self.raw, 4, UDP_HEADER_LENGTH as u16 + payload_length);
        proof { lemma_put_u16_read(old(self).raw@, 4, (payload_length + 8) as u16); }
    }

    pub fn set_checksum(&mut self, checksum: u16)
        requires
            old(self).raw@.len() >= 8,
        ensures
            *final(self).data == *old(self).data,
            final(self).raw@ == put_u16(old(self).raw@, 6, checksum),
            udp_consistent(*old(self).data, old(self).raw@) ==> udp_consistent(
                *final(self).data,
                final(self).raw@,
            ),
            *final(final(self).data) == *final(old(self).data),
            final(final(self).raw)@ == final(old(self).raw)@,
    {
        write_u16_at(self.raw, 6, checksum);
        proof { lemma_put_u16_read(old(self).raw@, 6, checksum); }
    }

    /// Writes the checksum of the datagram carrying `payload` under `ip`.
    pub fn update_checksum(&mut self, ip: &IpHeaderData, payload: &[u8])
        requires
            old(self).raw@.len() >= 8,
            old(self).raw@.len() + payload@.len() <= 0x1_0000,
        ensures
            *final(self).data == *old(self).data,
            final(self).raw@ == put_u16(old(self).raw@, 6, udp_checksum(*ip, old(self).raw@, payload@)),
            udp_consistent(*old(self).data, old(self).raw@) ==> udp_consistent(
                *final(self).data,
                final(self).raw@,
            ),
            *final(final(self).data) == *final(old(self).data),
            final(final(self).raw)@ == final(old(self).raw)@,
    {
        match ip {
            IpHeaderData::V4(_) => {
                self.set_checksum(0);
            },
            IpHeaderData::V6(_) => {
                let c = compute_transport_checksum(ip, UDP_PROTOCOL_NUMBER, self.raw, 6, payload);
                let c = if c == 0 { 0xffff } else { c };
                self.set_checksum(c);
            },
        }
    }
}

} // verus!
