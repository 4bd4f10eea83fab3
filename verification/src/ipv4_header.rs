//! The IPv4 header: its parsed fields, and views that bind them to the raw
//! bytes so that a change is made to both at once.
use vstd::prelude::*;
use crate::byte_order::{
    be_u16, be_u32, put_u16, put_u32, read_u16_at, read_u32_at, write_u16_at, write_u32_at,
    lemma_put_u16_read, lemma_put_u32_read,
};
use crate::checksum::{
    add_byte_sum, byte_sum, checksum_of_sum, fold_carries, internet_checksum,
    lemma_checksum_verifies,
};

verus! {

/// The transport protocol that an IP header announces.
#[derive(Clone, Copy, Debug, PartialEq, Eq, Structural)]
pub enum Protocol {
    Tcp,
    Udp,
    Other,
}

/// The protocol of a protocol number: 6 is TCP, 17 is UDP.
pub open spec fn protocol_of(n: u8) -> Protocol {
    if n == 6 {
        Protocol::Tcp
    } else if n == 17 {
        Protocol::Udp
    } else {
        Protocol::Other
    }
}

pub fn protocol_from_number(n: u8) -> (p: Protocol)
    ensures
        p == protocol_of(n),
{
    if n == 6 {
        Protocol::Tcp
    } else if n == 17 {
        Protocol::Udp
    } else {
        Protocol::Other
    }
}

/// The length of an IPv4 header without options.
pub const IPV4_MIN_HEADER_LENGTH: u8 = 20;

/// The fields of an IPv4 header.
#[derive(Clone, Copy, Debug, PartialEq, Eq)]
pub struct Ipv4HeaderData {
    pub version: u8,
    pub header_length: u8,
    pub total_length: u16,
    pub protocol: Protocol,
    pub source: u32,
    pub destination: u32,
}

/// The fields that the first 20 bytes of `raw` encode.
pub open spec fn spec_parse_ipv4(raw: Seq<u8>) -> Ipv4HeaderData {
    Ipv4HeaderData {
        version: raw[0] / 16,
        header_length: ((raw[0] % 16) * 4) as u8,
        total_length: be_u16(raw, 2) as u16,
        protocol: protocol_of(raw[9]),
        source: be_u32(raw, 12) as u32,
        destination: be_u32(raw, 16) as u32,
    }
}

/// `data` is what `raw` encodes.
pub open spec fn ipv4_consistent(data: Ipv4HeaderData, raw: Seq<u8>) -> bool {
    raw.len() >= 20 && data == spec_parse_ipv4(raw)
}

/// `raw` with its checksum field (bytes 10 and 11) zeroed.
pub open spec fn without_checksum(raw: Seq<u8>) -> Seq<u8> {
    put_u16(raw, 10, 0)
}

/// The header checksum of `raw`, computed over its first `header_length` bytes
/// with the checksum field taken as zero.
pub open spec fn ipv4_checksum(raw: Seq<u8>, header_length: int) -> u16 {
    internet_checksum(byte_sum(without_checksum(raw).take(header_length)))
}

/// A header whose checksum field holds the checksum that `update_checksum`
/// writes verifies: the words of its first `header_length` bytes, checksum
/// included, sum (carries folded) to `0xffff`.
pub proof fn lemma_ipv4_checksum_verifies(raw: Seq<u8>, header_length: int)
    requires
        20 <= header_length <= raw.len(),
        header_length % 2 == 0,
    ensures
        fold_carries(
            byte_sum(put_u16(raw, 10, ipv4_checksum(raw, header_length)).take(header_length)),
        ) == 0xffff,
{
    let h = raw.take(header_length);
    let c = ipv4_checksum(raw, header_length);
    assert(put_u16(raw, 10, 0).take(header_length) =~= put_u16(h, 10, 0));
    assert(put_u16(raw, 10, c).take(header_length) =~= put_u16(h, 10, c));
    lemma_checksum_verifies(h, 10, 0);
}

/// What a header's first 20 bytes encode stays so when bytes follow them.
pub proof fn lemma_ipv4_consistent_extend(d: Ipv4HeaderData, a: Seq<u8>, b: Seq<u8>)
    requires
        ipv4_consistent(d, a),
    ensures
        ipv4_consistent(d, a + b),
{
    assert((a + b).take(20) =~= a.take(20));
    assert(forall|i: int| 0 <= i < 20 ==> (a + b)[i] == a[i]);
}

impl Ipv4HeaderData {
    pub fn parse(raw: &[u8]) -> (d: Self)
        requires
            raw@.len() >= 20,
        ensures
            d == spec_parse_ipv4(raw@),
            ipv4_consistent(d, raw@),
    {
        Ipv4HeaderData {
            version: raw[0] / 16,
            header_length: (raw[0] % 16) * 4,
            total_length: read_u16_at(raw, 2),
            protocol: protocol_from_number(raw[9]),
            source: read_u32_at(raw, 12),
            destination: read_u32_at(raw, 16),
        }
    }

    pub fn bind<'a>(&'a self, raw: &'a [u8]) -> (h: Ipv4Header<'a>)
        ensures
            h.raw@ == raw@,
            *h.data == *self,
    {
        Ipv4Header { raw, data: self }
    }

    pub fn bind_mut<'a>(&'a mut self, raw: &'a mut [u8]) -> (h: Ipv4HeaderMut<'a>)
        ensures
            h.raw@ == old(raw)@,
            *h.data == *old(self),
            final(h.raw)@ == final(raw)@,
            *final(h.data) == *final(self),
    {
        Ipv4HeaderMut { raw, data: self }
    }

    pub fn version(&self) -> (r: u8)
        ensures
            r == self.version,
    {
        self.version
    }

    pub fn header_length(&self) -> (r: u8)
        ensures
            r == self.header_length,
    {
        self.header_length
    }

    pub fn total_length(&self) -> (r: u16)
        ensures
            r == self.total_length,
    {
        self.total_length
    }

    pub fn protocol(&self) -> (r: Protocol)
        ensures
            r == self.protocol,
    {
        self.protocol
    }

    pub fn source(&self) -> (r: u32)
        ensures
            r == self.source,
    {
        self.source
    }

    pub fn destination(&self) -> (r: u32)
        ensures
            r == self.destination,
    {
        self.destination
    }
}

/// An IPv4 header: its raw bytes and their parsed fields.
pub struct Ipv4Header<'a> {
    pub raw: &'a [u8],
    pub data: &'a Ipv4HeaderData,
}

/// An IPv4 header whose fields are changed in its raw bytes and in the parsed
/// data at once.
pub struct Ipv4HeaderMut<'a> {
    pub raw: &'a mut [u8],
    pub data: &'a mut Ipv4HeaderData,
}

impl<'a> Ipv4Header<'a> {
    pub fn new(raw: &'a [u8], data: &'a Ipv4HeaderData) -> (h: Self)
        ensures
            h.raw@ == raw@,
            *h.data == *data,
    {
        Ipv4Header { raw, data }
    }

    pub fn raw(&self) -> (r: &[u8])
        ensures
            r@ == self.raw@,
    {
        self.raw
    }

    pub fn data(&self) -> (r: &Ipv4HeaderData)
        ensures
            *r == *self.data,
    {
        self.data
    }

    pub fn header_length(&self) -> (r: u8)
        ensures
            r == self.data.header_length,
    {
        self.data.header_length
    }

    pub fn total_length(&self) -> (r: u16)
        ensures
            r == self.data.total_length,
    {
        self.data.total_length
    }

    pub fn protocol(&self) -> (r: Protocol)
        ensures
            r == self.data.protocol,
    {
        self.data.protocol
    }

    pub fn source(&self) -> (r: u32)
        ensures
            r == self.data.source,
    {
        self.data.source
    }

    pub fn destination(&self) -> (r: u32)
        ensures
            r == self.data.destination,
    {
        self.data.destination
    }
}

impl<'a> Ipv4HeaderMut<'a> {
    pub fn new(raw: &'a mut [u8], data: &'a mut Ipv4HeaderData) -> (h: Self)
        ensures
            h.raw@ == old(raw)@,
            *h.data == *old(data),
            final(h.raw)@ == final(raw)@,
            *final(h.data) == *final(data),
    {
        Ipv4HeaderMut { raw, data }
    }

    pub fn raw(&self) -> (r: &[u8])
        ensures
            r@ == old(self.raw)@,
    {
        self.raw
    }

    pub fn data(&self) -> (r: &Ipv4HeaderData)
        ensures
            *r == *old(self.data),
    {
        self.data
    }

    pub fn header_length(&self) -> (r: u8)
        ensures
            r == old(self.data).header_length,
    {
        self.data.header_length
    }

    pub fn total_length(&self) -> (r: u16)
        ensures
            r == old(self.data).total_length,
    {
        self.data.total_length
    }

    pub fn protocol(&self) -> (r: Protocol)
        ensures
            r == old(self.data).protocol,
    {
        self.data.protocol
    }

    pub fn source(&self) -> (r: u32)
        ensures
            r == old(self.data).source,
    {
        self.data.source
    }

    pub fn destination(&self) -> (r: u32)
        ensures
            r == old(self.data).destination,
    {
        self.data.destination
    }

    /// The raw bytes, to be changed in place.
    pub fn raw_mut(&mut self) -> (r: &mut [u8])
        ensures
            r@ == old(self).raw@,
            final(self).raw@ == final(r)@,
            *final(self).data == *old(self).data,
            *final(final(self).data) == *final(old(self).data),
            final(final(self).raw)@ == final(old(self).raw)@,
    {
        self.raw
    }

    pub fn set_total_length(&mut self, total_length: u16)
        requires
            old(self).raw@.len() >= 20,
        ensures
            *final(self).data == (Ipv4HeaderData { total_length, ..*old(self).data }),
            final(self).raw@ == put_u16(old(self).raw@, 2, total_length),
            ipv4_consistent(*old(self).data, old(self).raw@) ==> ipv4_consistent(
                *final(self).data,
                final(self).raw@,
            ),
            *final(final(self).data) == *final(old(self).data),
            final(final(self).raw)@ == final(old(self).raw)@,
    {
        self.data.total_length = total_length;
        write_u16_at(self.raw, 2, total_length);
        proof { lemma_put_u16_read(old(self).raw@, 2, total_length); }
    }

    pub fn set_checksum(&mut self, checksum: u16)
        requires
            old(self).raw@.len() >= 20,
        ensures
            *final(self).data == *old(self).data,
            final(self).raw@ == put_u16(old(self).raw@, 10, checksum),
            ipv4_consistent(*old(self).data, old(self).raw@) ==> ipv4_consistent(
                *final(self).data,
                final(self).raw@,
            ),
            *final(final(self).data) == *final(old(self).data),
            final(final(self).raw)@ == final(old(self).raw)@,
    {
        write_u16_at(self.raw, 10, checksum);
        proof { lemma_put_u16_read(old(self).raw@, 10, checksum); }
    }

    pub fn set_source(&mut self, source: u32)
        requires
            old(self).raw@.len() >= 20,
        ensures
            *final(self).data == (Ipv4HeaderData { source, ..*old(self).data }),
            final(self).raw@ == put_u32(old(self).raw@, 12, source),
            ipv4_consistent(*old(self).data, old(self).raw@) ==> ipv4_consistent(
                *final(self).data,
                final(self).raw@,
            ),
            *final(final(self).data) == *final(old(self).data),
            final(final(self).raw)@ == final(old(self).raw)@,
    {
        self.data.source = source;
        write_u32_at(self.raw, 12, source);
        proof { lemma_put_u32_read(old(self).raw@, 12, source); }
    }

    pub fn set_destination(&mut self, destination: u32)
        requires
            old(self).raw@.len() >= 20,
        ensures
            *final(self).data == (Ipv4HeaderData { destination, ..*old(self).data }),
            final(self).raw@ == put_u32(old(self).raw@, 16, destination),
            ipv4_consistent(*old(self).data, old(self).raw@) ==> ipv4_consistent(
                *final(self).data,
                final(self).raw@,
            ),
            *final(final(self).data) == *final(old(self).data),
            final(final(self).raw)@ == final(old(self).raw)@,
    {
        self.data.destination = destination;
        write_u32_at(self.raw, 16, destination);
        proof { lemma_put_u32_read(old(self).raw@, 16, destination); }
    }

    pub fn swap_source_and_destination(&mut self)
        requires
            old(self).raw@.len() >= 20,
        ensures
            *final(self).data == (Ipv4HeaderData {
                source: old(self).data.destination,
                destination: old(self).data.source,
                ..*old(self).data
            }),
            final(self).raw@ == put_u32(
                put_u32(old(self).raw@, 12, old(self).data.destination),
                16,
                old(self).data.source,
            ),
            ipv4_consistent(*old(self).data, old(self).raw@) ==> ipv4_consistent(
                *final(self).data,
                final(self).raw@,
            ),
            *final(final(self).data) == *final(old(self).data),
            final(final(self).raw)@ == final(old(self).raw)@,
    {
        let source = self.data.source;
        let destination = self.data.destination;
        self.set_source(destination);
        self.set_destination(source);
    }

    /// The header checksum of the current bytes, the checksum field taken as zero.
    pub fn compute_checksum(&self) -> (c: u16)
        requires
            self.raw@.len() >= 20,
            self.data.header_length <= self.raw@.len(),
        ensures
            c == ipv4_checksum(old(self.raw)@, old(self.data).header_length as int),
    {
        let hl = self.data.header_length as usize;
        let mut zeroed: Vec<u8> = Vec::new();
        let mut i: usize = 0;
        while i < hl
            invariant
                i <= hl,
                hl <= self.raw@.len(),
                self.raw@.len() >= 20,
                zeroed@ == without_checksum(self.raw@).take(i as int),
            decreases hl - i,
        {
            let b = if i == 10 || i == 11 { 0u8 } else { self.raw[i] };
            zeroed.push(b);
            proof {
                lemma_put_u16_read(self.raw@, 10, 0);
                assert(zeroed@ =~= without_checksum(self.raw@).take(i + 1));
            }
            i = i + 1;
        }
        let sum = add_byte_sum(zeroed.as_slice(), 0);
        checksum_of_sum(sum)
    }

    /// Writes the header checksum.
    pub fn update_checksum(&mut self)
        requires
            old(self).raw@.len() >= 20,
            old(self).data.header_length <= old(self).raw@.len(),
        ensures
            *final(self).data == *old(self).data,
            final(self).raw@ == put_u16(
                old(self).raw@,
                10,
                ipv4_checksum(old(self).raw@, old(self).data.header_length as int),
            ),
            ipv4_consistent(*old(self).data, old(self).raw@) ==> ipv4_consistent(
                *final(self).data,
                final(self).raw@,
            ),
            *final(final(self).data) == *final(old(self).data),
            final(final(self).raw)@ == final(old(self).raw)@,
    {
        let c = self.compute_checksum();
        self.set_checksum(c);
    }
}

} // verus!
