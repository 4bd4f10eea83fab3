//! The TCP header: its parsed fields, and views that bind them to the raw bytes.
use vstd::prelude::*;
use crate::byte_order::{
    be_u16, be_u32, put_u16, put_u32, read_u16_at, read_u32_at, write_u16_at, write_u32_at,
    lemma_put_u16_read, lemma_put_u32_read,
};
use crate::ip_header::IpHeaderData;
use crate::pseudo_header::{compute_transport_checksum, transport_checksum};

verus! {

pub const FLAG_FIN: u16 = 1;
pub const FLAG_SYN: u16 = 2;
pub const FLAG_RST: u16 = 4;
pub const FLAG_PSH: u16 = 8;
pub const FLAG_ACK: u16 = 16;
pub const FLAG_URG: u16 = 32;

/// The length of a TCP header without options.
pub const TCP_MIN_HEADER_LENGTH: u8 = 20;

/// The fields of a TCP header.
#[derive(Clone, Copy, Debug, PartialEq, Eq)]
pub struct TcpHeaderData {
    pub source_port: u16,
    pub destination_port: u16,
    pub sequence_number: u32,
    pub acknowledgement_number: u32,
    pub header_length: u8,
    pub flags: u16,
    pub window: u16,
}

/// The fields that the first 20 bytes of `raw` encode.
pub open spec fn spec_parse_tcp(raw: Seq<u8>) -> TcpHeaderData {
    TcpHeaderData {
        source_port: be_u16(raw, 0) as u16,
        destination_port: be_u16(raw, 2) as u16,
        sequence_number: be_u32(raw, 4) as u32,
        acknowledgement_number: be_u32(raw, 8) as u32,
        header_length: ((raw[12] / 16) * 4) as u8,
        flags: (be_u16(raw, 12) % 512) as u16,
        window: be_u16(raw, 14) as u16,
    }
}

/// The protocol number of TCP in the pseudo-header.
pub const TCP_PROTOCOL_NUMBER: u8 = 6;

/// `data` is what `raw` encodes.
pub open spec fn tcp_consistent(data: TcpHeaderData, raw: Seq<u8>) -> bool {
    raw.len() >= 20 && data == spec_parse_tcp(raw)
}

/// `raw` with byte 12 (data offset and reserved bits) replaced by `b`.
pub open spec fn put_byte12(raw: Seq<u8>, b: u8) -> Seq<u8> {
    raw.update(12, b)
}

proof fn lemma_flags_keep_offset(dof: int, f: int)
    requires
        0 <= dof < 0x1_0000,
        0 <= f < 512,
    ensures
        ((dof / 512) * 512 + f) / 4096 == dof / 4096,
        ((dof / 512) * 512 + f) % 512 == f,
        0 <= (dof / 512) * 512 + f < 0x1_0000,
{
    assert(((dof / 512) * 512 + f) / 4096 == dof / 4096) by (nonlinear_arith)
        requires
            0 <= dof < 0x1_0000,
            0 <= f < 512,
    {
        let q = dof / 512;
        assert(dof == 512 * q + dof % 512);
        assert(q / 8 == dof / 4096);
        assert((512 * q + f) / 4096 == q / 8);
    }
    assert(((dof / 512) * 512 + f) % 512 == f) by (nonlinear_arith)
        requires
            0 <= f < 512,
    {}
    assert(0 <= (dof / 512) * 512 + f < 0x1_0000) by (nonlinear_arith)
        requires
            0 <= dof < 0x1_0000,
            0 <= f < 512,
    {}
}

proof fn lemma_offset_keeps_flags(b: int, c: int)
    requires
        0 <= b < 256,
        0 <= c < 256,
    ensures
        ((b % 16 + 80) * 256 + c) % 512 == (b * 256 + c) % 512,
        (b % 16 + 80) / 16 == 5,
{
    assert(((b % 16 + 80) * 256 + c) % 512 == (b * 256 + c) % 512) by (nonlinear_arith)
        requires
            0 <= b < 256,
            0 <= c < 256,
    {
        assert((b % 16 + 80) % 2 == b % 2);
        assert(b * 256 == (b / 2) * 512 + (b % 2) * 256);
        assert((b % 16 + 80) * 256 == ((b % 16 + 80) / 2) * 512 + (b % 2) * 256);
    }
}

pub open spec fn has_flag(flags: u16, flag: u16) -> bool {
    flags & flag != 0
}

impl TcpHeaderData {
    pub fn bind<'a>(&'a self, raw: &'a [u8]) -> (h: TcpHeader<'a>)
        ensures
            h.raw@ == raw@,
            *h.data == *self,
    {
        TcpHeader { raw, data: self }
    }

    pub fn bind_mut<'a>(&'a mut self, raw: &'a mut [u8]) -> (h: TcpHeaderMut<'a>)
        ensures
            h.raw@ == old(raw)@,
            *h.data == *old(self),
            final(h.raw)@ == final(raw)@,
            *final(h.data) == *final(self),
    {
        TcpHeaderMut { raw, data: self }
    }

    pub fn parse(raw: &[u8]) -> (d: Self)
        requires
            raw@.len() >= 20,
        ensures
            d == spec_parse_tcp(raw@),
    {
        let data_offset_and_flags = read_u16_at(raw, 12);
        TcpHeaderData {
            source_port: read_u16_at(raw, 0),
            destination_port: read_u16_at(raw, 2),
            sequence_number: read_u32_at(raw, 4),
            acknowledgement_number: read_u32_at(raw, 8),
            header_length: (raw[12] / 16) * 4,
            flags: data_offset_and_flags % 512,
            window: read_u16_at(raw, 14),
        }
    }

    pub fn source_port(&self) -> (r: u16)
        ensures
            r == self.source_port,
    {
        self.source_port
    }

    pub fn destination_port(&self) -> (r: u16)
        ensures
            r == self.destination_port,
    {
        self.destination_port
    }

    pub fn sequence_number(&self) -> (r: u32)
        ensures
            r == self.sequence_number,
    {
        self.sequence_number
    }

    pub fn acknowledgement_number(&self) -> (r: u32)
        ensures
            r == self.acknowledgement_number,
    {
        self.acknowledgement_number
    }

    pub fn header_length(&self) -> (r: u8)
        ensures
            r == self.header_length,
    {
        self.header_length
    }

    pub fn flags(&self) -> (r: u16)
        ensures
            r == self.flags,
    {
        self.flags
    }

    pub fn window(&self) -> (r: u16)
        ensures
            r == self.window,
    {
        self.window
    }

    pub fn is_fin(&self) -> (b: bool)
        ensures
            b == has_flag(self.flags, FLAG_FIN),
    {
        self.flags & FLAG_FIN != 0
    }

    pub fn is_syn(&self) -> (b: bool)
        ensures
            b == has_flag(self.flags, FLAG_SYN),
    {
        self.flags & FLAG_SYN != 0
    }

    pub fn is_rst(&self) -> (b: bool)
        ensures
            b == has_flag(self.flags, FLAG_RST),
    {
        self.flags & FLAG_RST != 0
    }

    pub fn is_psh(&self) -> (b: bool)
        ensures
            b == has_flag(self.flags, FLAG_PSH),
    {
        self.flags & FLAG_PSH != 0
    }

    pub fn is_ack(&self) -> (b: bool)
        ensures
            b == has_flag(self.flags, FLAG_ACK),
    {
        self.flags & FLAG_ACK != 0
    }

    pub fn is_urg(&self) -> (b: bool)
        ensures
            b == has_flag(self.flags, FLAG_URG),
    {
        self.flags & FLAG_URG != 0
    }
}


/// A TCP header: its raw bytes and their parsed fields.
pub struct TcpHeader<'a> {
    pub raw: &'a [u8],
    pub data: &'a TcpHeaderData,
}

/// A TCP header whose fields are changed in its raw bytes and in the parsed
/// data at once.
pub struct TcpHeaderMut<'a> {
    pub raw: &'a mut [u8],
    pub data: &'a mut TcpHeaderData,
}

impl<'a> TcpHeader<'a> {
    pub fn raw(&self) -> (r: &[u8])
        ensures
            r@ == self.raw@,
    {
        self.raw
    }

    pub fn data(&self) -> (r: &TcpHeaderData)
        ensures
            *r == *self.data,
    {
        self.data
    }

    pub fn header_length(&self) -> (r: u8)
        ensures
            r == self.data.header_length,
    {
        self.data.header_length
    }
}

impl<'a> TcpHeaderMut<'a> {
    pub fn raw(&self) -> (r: &[u8])
        ensures
            r@ == old(self.raw)@,
    {
        self.raw
    }

    pub fn data(&self) -> (r: &TcpHeaderData)
        ensures
            *r == *old(self.data),
    {
        self.data
    }

    pub fn header_length(&self) -> (r: u8)
        ensures
            r == old(self.data).header_length,
    {
        self.data.header_length
    }

    pub fn set_source_port(&mut self, port: u16)
        requires
            old(self).raw@.len() >= 20,
        ensures
            *final(self).data == (TcpHeaderData { source_port: port, ..*old(self).data }),
            final(self).raw@ == put_u16(old(self).raw@, 0, port),
            tcp_consistent(*old(self).data, old(self).raw@) ==> tcp_consistent(
                *final(self).data,
                final(self).raw@,
            ),
            *final(final(self).data) == *final(old(self).data),
            final(final(self).raw)@ == final(old(self).raw)@,
    {
        self.data.source_port = port;
        write_u16_at(self.raw, 0, port);
        proof { lemma_put_u16_read(old(self).raw@, 0, port); }
    }

    pub fn set_destination_port(&mut self, port: u16)
        requires
            old(self).raw@.len() >= 20,
        ensures
            *final(self).data == (TcpHeaderData { destination_port: port, ..*old(self).data }),
            final(self).raw@ == put_u16(old(self).raw@, 2, port),
            tcp_consistent(*old(self).data, old(self).raw@) ==> tcp_consistent(
                *final(self).data,
                final(self).raw@,
            ),
            *final(final(self).data) == *final(old(self).data),
            final(final(self).raw)@ == final(old(self).raw)@,
    {
        self.data.destination_port = port;
        write_u16_at(self.raw, 2, port);
        proof { lemma_put_u16_read(old(self).raw@, 2, port); }
    }

    pub fn swap_source_and_destination(&mut self)
        requires
            old(self).raw@.len() >= 20,
        ensures
            *final(self).data == (TcpHeaderData {
                source_port: old(self).data.destination_port,
                destination_port: old(self).data.source_port,
                ..*old(self).data
            }),
            final(self).raw@ == put_u16(
                put_u16(old(self).raw@, 0, old(self).data.destination_port),
                2,
                old(self).data.source_port,
            ),
            tcp_consistent(*old(self).data, old(self).raw@) ==> tcp_consistent(
                *final(self).data,
                final(self).raw@,
            ),
            *final(final(self).data) == *final(old(self).data),
            final(final(self).raw)@ == final(old(self).raw)@,
    {
        let s = self.data.source_port;
        let d = self.data.destination_port;
        self.set_source_port(d);
        self.set_destination_port(s);
    }

    pub fn set_sequence_number(&mut self, sequence_number: u32)
        requires
            old(self).raw@.len() >= 20,
        ensures
            *final(self).data == (TcpHeaderData { sequence_number, ..*old(self).data }),
            final(self).raw@ == put_u32(old(self).raw@, 4, sequence_number),
            tcp_consistent(*old(self).data, old(self).raw@) ==> tcp_consistent(
                *final(self).data,
                final(self).raw@,
            ),
            *final(final(self).data) == *final(old(self).data),
            final(final(self).raw)@ == final(old(self).raw)@,
    {
        self.data.sequence_number = sequence_number;
        write_u32_at(self.raw, 4, sequence_number);
        proof { lemma_put_u32_read(old(self).raw@, 4, sequence_number); }
    }

    pub fn set_acknowledgement_number(&mut self, acknowledgement_number: u32)
        requires
            old(self).raw@.len() >= 20,
        ensures
            *final(self).data == (TcpHeaderData { acknowledgement_number, ..*old(self).data }),
            final(self).raw@ == put_u32(old(self).raw@, 8, acknowledgement_number),
            tcp_consistent(*old(self).data, old(self).raw@) ==> tcp_consistent(
                *final(self).data,
                final(self).raw@,
            ),
            *final(final(self).data) == *final(old(self).data),
            final(final(self).raw)@ == final(old(self).raw)@,
    {
        self.data.acknowledgement_number = acknowledgement_number;
        write_u32_at(self.raw, 8, acknowledgement_number);
        proof { lemma_put_u32_read(old(self).raw@, 8, acknowledgement_number); }
    }

    /// Sets the flags: the 9 low bits of `flags`, leaving the data offset as it is.
    #[verifier::rlimit(40)]
    pub fn set_flags(&mut self, flags: u16)
        requires
            old(self).raw@.len() >= 20,
        ensures
            *final(self).data == (TcpHeaderData { flags: flags % 512, ..*old(self).data }),
            final(self).raw@ == put_u16(
                old(self).raw@,
                12,
                ((be_u16(old(self).raw@, 12) / 512) * 512 + flags % 512) as u16,
            ),
            tcp_consistent(*old(self).data, old(self).raw@) ==> tcp_consistent(
                *final(self).data,
                final(self).raw@,
            ),
            *final(final(self).data) == *final(old(self).data),
            final(final(self).raw)@ == final(old(self).raw)@,
    {
        let data_offset_and_flags = read_u16_at(self.raw, 12);
        let f = flags % 512;
        proof { lemma_flags_keep_offset(data_offset_and_flags as int, f as int); }
        let updated = (data_offset_and_flags / 512) * 512 + f;
        self.data.flags = f;
        write_u16_at(self.raw, 12, updated);
        proof { lemma_put_u16_read(old(self).raw@, 12, updated); }
    }

    /// Drops the options: the data offset becomes 5 words (20 bytes).
    pub fn shrink_options(&mut self)
        requires
            old(self).raw@.len() >= 20,
        ensures
            *final(self).data == (TcpHeaderData { header_length: 20, ..*old(self).data }),
            final(self).raw@ == put_byte12(old(self).raw@, (old(self).raw@[12] % 16 + 80) as u8),
            tcp_consistent(*old(self).data, old(self).raw@) ==> tcp_consistent(
                *final(self).data,
                final(self).raw@,
            ),
            *final(final(self).data) == *final(old(self).data),
            final(final(self).raw)@ == final(old(self).raw)@,
    {
        let b = self.raw[12];
        proof { lemma_offset_keeps_flags(b as int, old(self).raw@[13] as int); }
        self.raw[12] = b % 16 + 80;
        self.data.header_length = 20;
    }

    pub fn set_checksum(&mut self, checksum: u16)
        requires
            old(self).raw@.len() >= 20,
        ensures
            *final(self).data == *old(self).data,
            final(self).raw@ == put_u16(old(self).raw@, 16, checksum),
            tcp_consistent(*old(self).data, old(self).raw@) ==> tcp_consistent(
                *final(self).data,
                final(self).raw@,
            ),
            *final(final(self).data) == *final(old(self).data),
            final(final(self).raw)@ == final(old(self).raw)@,
    {
        write_u16_at(self.raw, 16, checksum);
        proof { lemma_put_u16_read(old(self).raw@, 16, checksum); }
    }

    /// Writes the checksum of the segment carrying `payload` under `ip`.
    pub fn update_checksum(&mut self, ip: &IpHeaderData, payload: &[u8])
        requires
            old(self).raw@.len() >= 20,
            old(self).raw@.len() + payload@.len() <= 0x1_0000,
        ensures
            *final(self).data == *old(self).data,
            final(self).raw@ == put_u16(
                old(self).raw@,
                16,
                transport_checksum(*ip, 6, old(self).raw@, 16, payload@),
            ),
            tcp_consistent(*old(self).data, old(self).raw@) ==> tcp_consistent(
                *final(self).data,
                final(self).raw@,
            ),
            *final(final(self).data) == *final(old(self).data),
            final(final(self).raw)@ == final(old(self).raw)@,
    {
        let c = compute_transport_checksum(ip, TCP_PROTOCOL_NUMBER, self.raw, 16, payload);
        self.set_checksum(c);
    }
}

} // verus!
