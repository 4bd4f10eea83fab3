//! The IPv6 header: its parsed fields, and views that bind them to the raw
//! bytes so that a change is made to both at once.
use vstd::prelude::*;
use crate::byte_order::{be_u16, put_u16, read_u16_at, write_u16_at, lemma_put_u16_read};
use crate::ipv4_header::{Protocol, protocol_of, protocol_from_number};

verus! {

pub const IPV6_HEADER_LENGTH: u8 = 40;

/// The fields of an IPv6 header; the addresses are their 16 bytes.
#[derive(Clone, Copy, Debug, PartialEq, Eq)]
pub struct Ipv6HeaderData {
    pub payload_length: u16,
    pub next_header: Protocol,
    pub hop_limit: u8,
    pub source: [u8; 16],
    pub destination: [u8; 16],
}

/// `data` is what the first 40 bytes of `raw` encode.
pub open spec fn ipv6_consistent(data: Ipv6HeaderData, raw: Seq<u8>) -> bool {
    &&& raw.len() >= 40
    &&& data.payload_length as int == be_u16(raw, 4)
    &&& data.next_header == protocol_of(raw[6])
    &&& data.hop_limit == raw[7]
    &&& data.source@ == raw.subrange(8, 24)
    &&& data.destination@ == raw.subrange(24, 40)
}

/// The total length of an IPv6 packet: the fixed header and the payload
/// (modulo 2^16).
pub open spec fn ipv6_total_length(data: Ipv6HeaderData) -> u16 {
    ((40 + data.payload_length) % 0x1_0000) as u16
}

/// `s` with the 16 bytes `b` written at `off`.
pub open spec fn put_bytes16(s: Seq<u8>, off: int, b: Seq<u8>) -> Seq<u8> {
    s.subrange(0, off) + b + s.subrange(off + 16, s.len() as int)
}

/// The 16 bytes of `raw` from `off`.
fn read_bytes16(raw: &[u8], off: usize) -> (a: [u8; 16])
    requires
        off + 16 <= raw@.len(),
    ensures
        a@ == raw@.subrange(off as int, off + 16),
{
    let mut a = [0u8; 16];
    let n = raw.len();
    let mut i: usize = 0;
    while i < 16
        invariant
            i <= 16,
            n == raw@.len(),
            off + 16 <= raw@.len(),
            forall|j: int| 0 <= j < i ==> a@[j] == raw@[off + j],
        decreases 16 - i,
    {
        a[i] = raw[off + i];
        i = i + 1;
    }
    assert(a@ =~= raw@.subrange(off as int, off + 16));
    a
}

/// Writes the 16 bytes `b` into `raw` from `off`.
fn write_bytes16(raw: &mut [u8], off: usize, b: &[u8; 16])
    requires
        off + 16 <= old(raw)@.len(),
    ensures
        final(raw)@ == put_bytes16(old(raw)@, off as int, b@),
{
    let n = raw.len();
    let mut i: usize = 0;
    while i < 16
        invariant
            i <= 16,
            n == raw@.len(),
            off + 16 <= old(raw)@.len(),
            raw@.len() == old(raw)@.len(),
            forall|j: int| 0 <= j < raw@.len() && !(off <= j < off + i) ==> raw@[j] == old(raw)@[j],
            forall|j: int| 0 <= j < i ==> raw@[off + j] == b@[j],
        decreases 16 - i,
    {
        raw[off + i] = b[i];
        i = i + 1;
    }
    assert(raw@ =~= put_bytes16(old(raw)@, off as int, b@));
}

/// What a header's first 40 bytes encode stays so when bytes follow them.
pub proof fn lemma_ipv6_consistent_extend(d: Ipv6HeaderData, a: Seq<u8>, b: Seq<u8>)
    requires
        ipv6_consistent(d, a),
    ensures
        ipv6_consistent(d, a + b),
{
    assert(forall|i: int| 0 <= i < 40 ==> (a + b)[i] == a[i]);
    assert((a + b).subrange(8, 24) =~= a.subrange(8, 24));
    assert((a + b).subrange(24, 40) =~= a.subrange(24, 40));
}

impl Ipv6HeaderData {
    pub fn parse(raw: &[u8]) -> (d: Self)
        requires
            raw@.len() >= 40,
        ensures
            ipv6_consistent(d, raw@),
    {
        Ipv6HeaderData {
            payload_length: read_u16_at(raw, 4),
            next_header: protocol_from_number(raw[6]),
            hop_limit: raw[7],
            source: read_bytes16(raw, 8),
            destination: read_bytes16(raw, 24),
        }
    }

    pub fn bind<'a>(&'a self, raw: &'a [u8]) -> (h: Ipv6Header<'a>)
        ensures
            h.raw@ == raw@,
            *h.data == *self,
    {
        Ipv6Header { raw, data: self }
    }

    pub fn bind_mut<'a>(&'a mut self, raw: &'a mut [u8]) -> (h: Ipv6HeaderMut<'a>)
        ensures
            h.raw@ == old(raw)@,
            *h.data == *old(self),
            final(h.raw)@ == final(raw)@,
            *final(h.data) == *final(self),
    {
        Ipv6HeaderMut { raw, data: self }
    }

    pub fn payload_length(&self) -> (r: u16)
        ensures
            r == self.payload_length,
    {
        self.payload_length
    }

    pub fn total_length(&self) -> (r: u16)
        ensures
            r == ipv6_total_length(*self),
    {
        40u16.wrapping_add(self.payload_length)
    }

    pub fn header_length(&self) -> (r: u8)
        ensures
            r == IPV6_HEADER_LENGTH,
    {
        IPV6_HEADER_LENGTH
    }

    pub fn protocol(&self) -> (r: Protocol)
        ensures
            r == self.next_header,
    {
        self.next_header
    }

    pub fn source(&self) -> (r: [u8; 16])
        ensures
            r == self.source,
    {
        self.source
    }

    pub fn destination(&self) -> (r: [u8; 16])
        ensures
            r == self.destination,
    {
        self.destination
    }

    pub fn source_bytes(&self) -> (r: [u8; 16])
        ensures
            r == self.source,
    {
        self.source
    }

    pub fn destination_bytes(&self) -> (r: [u8; 16])
        ensures
            r == self.destination,
    {
        self.destination
    }

    pub fn hop_limit(&self) -> (r: u8)
        ensures
            r == self.hop_limit,
    {
        self.hop_limit
    }
}

/// An IPv6 header: its raw bytes and their parsed fields.
pub struct Ipv6Header<'a> {
    pub raw: &'a [u8],
    pub data: &'a Ipv6HeaderData,
}

/// An IPv6 header whose fields are changed in its raw bytes and in the parsed
/// data at once.
pub struct Ipv6HeaderMut<'a> {
    pub raw: &'a mut [u8],
    pub data: &'a mut Ipv6HeaderData,
}

impl<'a> Ipv6Header<'a> {
    pub fn new(raw: &'a [u8], data: &'a Ipv6HeaderData) -> (h: Self)
        ensures
            h.raw@ == raw@,
            *h.data == *data,
    {
        Ipv6Header { raw, data }
    }

    pub fn raw(&self) -> (r: &[u8])
        ensures
            r@ == self.raw@,
    {
        self.raw
    }

    pub fn data(&self) -> (r: &Ipv6HeaderData)
        ensures
            *r == *self.data,
    {
        self.data
    }

    pub fn header_length(&self) -> (r: u8)
        ensures
            r == IPV6_HEADER_LENGTH,
    {
        IPV6_HEADER_LENGTH
    }

    pub fn payload_length(&self) -> (r: u16)
        ensures
            r == self.data.payload_length,
    {
        self.data.payload_length
    }

    pub fn total_length(&self) -> (r: u16)
        ensures
            r == ipv6_total_length(*self.data),
    {
        self.data.total_length()
    }

    pub fn protocol(&self) -> (r: Protocol)
        ensures
            r == self.data.next_header,
    {
        self.data.next_header
    }

    pub fn source(&self) -> (r: [u8; 16])
        ensures
            r == self.data.source,
    {
        self.data.source
    }

    pub fn destination(&self) -> (r: [u8; 16])
        ensures
            r == self.data.destination,
    {
        self.data.destination
    }
}

impl<'a> Ipv6HeaderMut<'a> {
    pub fn new(raw: &'a mut [u8], data: &'a mut Ipv6HeaderData) -> (h: Self)
        ensures
            h.raw@ == old(raw)@,
            *h.data == *old(data),
            final(h.raw)@ == final(raw)@,
            *final(h.data) == *final(data),
    {
        Ipv6HeaderMut { raw, data }
    }

    pub fn raw(&self) -> (r: &[u8])
        ensures
            r@ == old(self.raw)@,
    {
        self.raw
    }

    pub fn data(&self) -> (r: &Ipv6HeaderData)
        ensures
            *r == *old(self.data),
    {
        self.data
    }

    pub fn header_length(&self) -> (r: u8)
        ensures
            r == IPV6_HEADER_LENGTH,
    {
        IPV6_HEADER_LENGTH
    }

    pub fn payload_length(&self) -> (r: u16)
        ensures
            r == old(self.data).payload_length,
    {
        self.data.payload_length
    }

    pub fn total_length(&self) -> (r: u16)
        ensures
            r == ipv6_total_length(*old(self.data)),
    {
        self.data.total_length()
    }

    pub fn protocol(&self) -> (r: Protocol)
        ensures
            r == old(self.data).next_header,
    {
        self.data.next_header
    }

    pub fn source(&self) -> (r: [u8; 16])
        ensures
            r == old(self.data).source,
    {
        self.data.source
    }

    pub fn destination(&self) -> (r: [u8; 16])
        ensures
            r == old(self.data).destination,
    {
        self.data.destination
    }

    /// The raw bytes, to be changed in place.
    pub fn raw_mut(&mut self) -> (r: &mut [u8])
        ensures
            r@ == old(self).raw@,
            final(self).raw@ == final(r)@,
            *final(self).data == *old(self).data,
            *final(final(self).data) == *final(old(self).data),
            final(final(self).raw)@ == final(old(self).raw)@,
    {
        self.raw
    }

    /// The parsed data, to be changed in place.
    pub fn data_mut(&mut self) -> (r: &mut Ipv6HeaderData)
        ensures
            *r == *old(self).data,
            *final(self).data == *final(r),
            final(self).raw@ == old(self).raw@,
            *final(final(self).data) == *final(old(self).data),
            final(final(self).raw)@ == final(old(self).raw)@,
    {
        self.data
    }

    pub fn set_payload_length(&mut self, payload_length: u16)
        requires
            old(self).raw@.len() >= 40,
        ensures
            *final(self).data == (Ipv6HeaderData { payload_length, ..*old(self).data }),
            final(self).raw@ == put_u16(old(self).raw@, 4, payload_length),
            ipv6_consistent(*old(self).data, old(self).raw@) ==> ipv6_consistent(
                *final(self).data,
                final(self).raw@,
            ),
            *final(final(self).data) == *final(old(self).data),
            final(final(self).raw)@ == final(old(self).raw)@,
    {
        self.data.payload_length = payload_length;
        write_u16_at(self.raw, 4, payload_length);
        proof {
            lemma_put_u16_read(old(self).raw@, 4, payload_length);
            let r = put_u16(old(self).raw@, 4, payload_length);
            assert(r.subrange(8, 24) =~= old(self).raw@.subrange(8, 24));
            assert(r.subrange(24, 40) =~= old(self).raw@.subrange(24, 40));
        }
    }

    pub fn set_source(&mut self, source: [u8; 16])
        requires
            old(self).raw@.len() >= 40,
        ensures
            *final(self).data == (Ipv6HeaderData { source, ..*old(self).data }),
            final(self).raw@ == put_bytes16(old(self).raw@, 8, source@),
            ipv6_consistent(*old(self).data, old(self).raw@) ==> ipv6_consistent(
                *final(self).data,
                final(self).raw@,
            ),
            *final(final(self).data) == *final(old(self).data),
            final(final(self).raw)@ == final(old(self).raw)@,
    {
        self.data.source = source;
        write_bytes16(self.raw, 8, &source);
        proof {
            let r = put_bytes16(old(self).raw@, 8, source@);
            assert(r.subrange(8, 24) =~= source@);
            assert(r.subrange(24, 40) =~= old(self).raw@.subrange(24, 40));
        }
    }

    pub fn set_destination(&mut self, destination: [u8; 16])
        requires
            old(self).raw@.len() >= 40,
        ensures
            *final(self).data == (Ipv6HeaderData { destination, ..*old(self).data }),
            final(self).raw@ == put_bytes16(old(self).raw@, 24, destination@),
            ipv6_consistent(*old(self).data, old(self).raw@) ==> ipv6_consistent(
                *final(self).data,
                final(self).raw@,
            ),
            *final(final(self).data) == *final(old(self).data),
            final(final(self).raw)@ == final(old(self).raw)@,
    {
        self.data.destination = destination;
        write_bytes16(self.raw, 24, &destination);
        proof {
            let r = put_bytes16(old(self).raw@, 24, destination@);
            assert(r.subrange(24, 40) =~= destination@);
            assert(r.subrange(8, 24) =~= old(self).raw@.subrange(8, 24));
        }
    }

    pub fn swap_source_and_destination(&mut self)
        requires
            old(self).raw@.len() >= 40,
        ensures
            *final(self).data == (Ipv6HeaderData {
                source: old(self).data.destination,
                destination: old(self).data.source,
                ..*old(self).data
            }),
            final(self).raw@ == put_bytes16(
                put_bytes16(old(self).raw@, 8, old(self).data.destination@),
                24,
                old(self).data.source@,
            ),
            ipv6_consistent(*old(self).data, old(self).raw@) ==> ipv6_consistent(
                *final(self).data,
                final(self).raw@,
            ),
            *final(final(self).data) == *final(old(self).data),
            final(final(self).raw)@ == final(old(self).raw)@,
    {
        let src = self.data.source;
        let dst = self.data.destination;
        self.set_source(dst);
        self.set_destination(src);
    }
}

} // verus!
