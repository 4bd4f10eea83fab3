//! Frames the stream of bytes from the device into IP packets.
use vstd::prelude::*;
use crate::byte_buffer::ByteBuffer;
use crate::byte_order::{be_u16, read_u16_at};
use crate::ip_packet::{
    IpPacket, is_parsable, packet_parsable, packet_raw, packet_wf, packet_version, parsed_length,
    packet_transport_data, packet_transport_parses,
};
use crate::ipv4_packet::MAX_PACKET_LENGTH;

verus! {

/// The version and total length of the packet at the front of `data`, once
/// all of its bytes are there: for IPv4 the total length field (offset 2), for
/// IPv6 the payload length field (offset 4) plus the 40-byte header.
pub open spec fn spec_packet_info(data: Seq<u8>) -> Option<(u8, u16)> {
    if data.len() < 4 {
        None
    } else {
        let version = data[0] / 16;
        if version == 4 {
            let length = be_u16(data, 2);
            if length <= data.len() {
                Some((4u8, length as u16))
            } else {
                None
            }
        } else if version == 6 {
            if data.len() < 6 {
                None
            } else {
                let total_length = be_u16(data, 4) + 40;
                if total_length <= data.len() && total_length <= 0xffff {
                    Some((6u8, total_length as u16))
                } else {
                    None
                }
            }
        } else {
            None
        }
    }
}

/// Packets received one after another are framed one after another: when
/// `a` holds exactly one whole packet, the bytes `a + b` frame that packet
/// first, and dropping it leaves `b`.
pub proof fn lemma_packets_in_order(a: Seq<u8>, b: Seq<u8>)
    requires
        spec_packet_info(a) matches Some((_, length)) && length == a.len(),
    ensures
        spec_packet_info(a + b) == spec_packet_info(a),
        (a + b).take(a.len() as int) == a,
        (a + b).skip(a.len() as int) == b,
{
    let ab = a + b;
    assert(ab[0] == a[0] && ab[1] == a[1] && ab[2] == a[2] && ab[3] == a[3]);
    if a.len() >= 6 {
        assert(ab[4] == a[4] && ab[5] == a[5]);
    }
    assert(ab.take(a.len() as int) =~= a);
    assert(ab.skip(a.len() as int) =~= b);
}

pub struct IpPacketBuffer {
    buf: ByteBuffer,
}

impl View for IpPacketBuffer {
    type V = Seq<u8>;

    /// The bytes received and not yet consumed.
    closed spec fn view(&self) -> Seq<u8> {
        self.buf@
    }
}

impl IpPacketBuffer {
    /// The most bytes the buffer takes.
    pub closed spec fn spec_capacity(&self) -> nat {
        self.buf.spec_capacity()
    }

    pub fn new() -> (b: Self)
        ensures
            b@ == Seq::<u8>::empty(),
            b.spec_capacity() == MAX_PACKET_LENGTH,
    {
        IpPacketBuffer { buf: ByteBuffer::new(MAX_PACKET_LENGTH) }
    }

    /// Room left for more bytes.
    pub fn remaining(&self) -> (n: usize)
        ensures
            n == (if self@.len() <= self.spec_capacity() {
                self.spec_capacity() - self@.len()
            } else {
                0
            }),
    {
        self.buf.remaining()
    }

    /// Appends bytes received from the device; returns whether any was.
    pub fn read_from(&mut self, data: &[u8]) -> (r: bool)
        requires
            old(self)@.len() + data@.len() <= old(self).spec_capacity(),
        ensures
            final(self)@ == old(self)@ + data@,
            final(self).spec_capacity() == old(self).spec_capacity(),
            r == (data@.len() > 0),
    {
        self.buf.read_from(data)
    }

    /// The version and total length of the packet at the front, once all of
    /// its bytes have been received.
    fn available_packet_info(&self) -> (r: Option<(u8, u16)>)
        ensures
            r == spec_packet_info(self@),
    {
        let data = self.buf.peek();
        if data.len() < 4 {
            return None;
        }
        let version = data[0] / 16;
        if version == 4 {
            let length = read_u16_at(data, 2);
            if length as usize <= data.len() {
                Some((4, length))
            } else {
                None
            }
        } else if version == 6 {
            if data.len() < 6 {
                return None;
            }
            let payload_length = read_u16_at(data, 4);
            let total_length = payload_length as usize + 40;
            if total_length <= data.len() && total_length <= 0xffff {
                Some((6, total_length as u16))
            } else {
                None
            }
        } else {
            None
        }
    }

    /// The packet at the front can be parsed once complete.
    pub open spec fn front_parsable(&self) -> bool {
        spec_packet_info(self@) is Some ==> packet_parsable(self@)
    }

    /// Checks `front_parsable`.
    pub fn is_front_parsable(&self) -> (b: bool)
        ensures
            b == self.front_parsable(),
    {
        match self.available_packet_info() {
            Some(_) => is_parsable(self.buf.peek()),
            None => true,
        }
    }

    /// The packet at the front, once all of its bytes have been received.
    pub fn as_ip_packet(&mut self) -> (p: Option<IpPacket<'_>>)
        requires
            old(self).front_parsable(),
        ensures
            p is Some <==> spec_packet_info(old(self)@) is Some,
            p matches Some(p) ==> {
                &&& packet_wf(p)
                &&& packet_raw(p) == old(self)@.take(spec_packet_info(old(self)@).unwrap().1 as int)
                &&& (p is V4 <==> packet_version(old(self)@) == 4)
                &&& (p is V6 <==> packet_version(old(self)@) == 6)
                &&& (packet_transport_data(p) is Some <==> packet_transport_parses(old(self)@))
            },
            match p {
                Some(IpPacket::V4(q)) => final(self)@ == final(q.raw)@ + old(self)@.skip(
                    spec_packet_info(old(self)@).unwrap().1 as int,
                ),
                Some(IpPacket::V6(q)) => final(self)@ == final(q.raw)@ + old(self)@.skip(
                    spec_packet_info(old(self)@).unwrap().1 as int,
                ),
                None => final(self)@ == old(self)@,
            },
            final(self).spec_capacity() == old(self).spec_capacity(),
    {
        if self.available_packet_info().is_some() {
            let data = self.buf.peek_mut();
            IpPacket::parse(data)
        } else {
            None
        }
    }

    /// Drops the packet at the front, if it has been received whole.
    pub fn next(&mut self)
        ensures
            final(self)@ == match spec_packet_info(old(self)@) {
                Some((_, length)) => old(self)@.skip(length as int),
                None => old(self)@,
            },
            final(self).spec_capacity() == old(self).spec_capacity(),
    {
        if let Some((_, length)) = self.available_packet_info() {
            self.buf.consume(length as usize);
        }
    }
}

} // verus!
