//! IP headers of either version: parsed data, and views bound to raw bytes.
use vstd::prelude::*;
use crate::binary::{to_byte_array, be_bytes_u32};
use crate::ipv4_header::{
    Ipv4Header, Ipv4HeaderData, Ipv4HeaderMut, Protocol, ipv4_consistent, ipv4_checksum,
};
use crate::ipv6_header::{
    Ipv6Header, Ipv6HeaderData, Ipv6HeaderMut, IPV6_HEADER_LENGTH, ipv6_consistent,
    ipv6_total_length, put_bytes16,
};
use crate::byte_order::{put_u16, put_u32};

verus! {

/// An IP address of either version, as its bytes in network order.
#[derive(Clone, Copy, Debug, PartialEq, Eq)]
pub enum IpAddress {
    V4([u8; 4]),
    V6([u8; 16]),
}

/// The parsed header of an IPv4 or an IPv6 packet.
#[derive(Clone, Copy, Debug)]
pub enum IpHeaderData {
    V4(Ipv4HeaderData),
    V6(Ipv6HeaderData),
}

pub open spec fn ip_protocol(d: IpHeaderData) -> Protocol {
    match d {
        IpHeaderData::V4(v4) => v4.protocol,
        IpHeaderData::V6(v6) => v6.next_header,
    }
}

pub open spec fn ip_total_length(d: IpHeaderData) -> u16 {
    match d {
        IpHeaderData::V4(v4) => v4.total_length,
        IpHeaderData::V6(v6) => ipv6_total_length(v6),
    }
}

pub open spec fn ip_header_length(d: IpHeaderData) -> u8 {
    match d {
        IpHeaderData::V4(v4) => v4.header_length,
        IpHeaderData::V6(_) => IPV6_HEADER_LENGTH,
    }
}

/// The source address of a header.
pub open spec fn ip_source_matches(d: IpHeaderData, a: IpAddress) -> bool {
    match (d, a) {
        (IpHeaderData::V4(v4), IpAddress::V4(b)) => b@ == be_bytes_u32(v4.source),
        (IpHeaderData::V6(v6), IpAddress::V6(b)) => b == v6.source,
        _ => false,
    }
}

/// The destination address of a header.
pub open spec fn ip_destination_matches(d: IpHeaderData, a: IpAddress) -> bool {
    match (d, a) {
        (IpHeaderData::V4(v4), IpAddress::V4(b)) => b@ == be_bytes_u32(v4.destination),
        (IpHeaderData::V6(v6), IpAddress::V6(b)) => b == v6.destination,
        _ => false,
    }
}

/// `data` is what `raw` encodes.
pub open spec fn ip_consistent(d: IpHeaderData, raw: Seq<u8>) -> bool {
    match d {
        IpHeaderData::V4(v4) => ipv4_consistent(v4, raw),
        IpHeaderData::V6(v6) => ipv6_consistent(v6, raw),
    }
}

impl IpHeaderData {
    pub fn protocol(&self) -> (r: Protocol)
        ensures
            r == ip_protocol(*self),
    {
        match self {
            IpHeaderData::V4(v4) => v4.protocol(),
            IpHeaderData::V6(v6) => v6.protocol(),
        }
    }

    pub fn total_length(&self) -> (r: u16)
        ensures
            r == ip_total_length(*self),
    {
        match self {
            IpHeaderData::V4(v4) => v4.total_length(),
            IpHeaderData::V6(v6) => v6.total_length(),
        }
    }

    pub fn header_length(&self) -> (r: u8)
        ensures
            r == ip_header_length(*self),
    {
        match self {
            IpHeaderData::V4(v4) => v4.header_length(),
            IpHeaderData::V6(v6) => v6.header_length(),
        }
    }

    pub fn source(&self) -> (r: IpAddress)
        ensures
            ip_source_matches(*self, r),
    {
        match self {
            IpHeaderData::V4(v4) => IpAddress::V4(to_byte_array(v4.source())),
            IpHeaderData::V6(v6) => IpAddress::V6(v6.source()),
        }
    }

    pub fn destination(&self) -> (r: IpAddress)
        ensures
            ip_destination_matches(*self, r),
    {
        match self {
            IpHeaderData::V4(v4) => IpAddress::V4(to_byte_array(v4.destination())),
            IpHeaderData::V6(v6) => IpAddress::V6(v6.destination()),
        }
    }
}

/// A borrowed IP header of either version.
pub enum IpHeader<'a> {
    V4(Ipv4Header<'a>),
    V6(Ipv6Header<'a>),
}

/// The parsed data of a borrowed header.
pub open spec fn ip_header_data(h: IpHeader) -> IpHeaderData {
    match h {
        IpHeader::V4(v4) => IpHeaderData::V4(*v4.data),
        IpHeader::V6(v6) => IpHeaderData::V6(*v6.data),
    }
}

/// The raw bytes of a borrowed header.
pub open spec fn ip_header_raw(h: IpHeader) -> Seq<u8> {
    match h {
        IpHeader::V4(v4) => v4.raw@,
        IpHeader::V6(v6) => v6.raw@,
    }
}

impl<'a> IpHeader<'a> {
    pub fn raw(&self) -> (r: &[u8])
        ensures
            r@ == ip_header_raw(*self),
    {
        match self {
            IpHeader::V4(h) => h.raw(),
            IpHeader::V6(h) => h.raw(),
        }
    }

    pub fn protocol(&self) -> (r: Protocol)
        ensures
            r == ip_protocol(ip_header_data(*self)),
    {
        match self {
            IpHeader::V4(h) => h.protocol(),
            IpHeader::V6(h) => h.protocol(),
        }
    }

    pub fn total_length(&self) -> (r: u16)
        ensures
            r == ip_total_length(ip_header_data(*self)),
    {
        match self {
            IpHeader::V4(h) => h.total_length(),
            IpHeader::V6(h) => h.total_length(),
        }
    }

    pub fn header_length(&self) -> (r: u8)
        ensures
            r == ip_header_length(ip_header_data(*self)),
    {
        match self {
            IpHeader::V4(h) => h.header_length(),
            IpHeader::V6(h) => h.header_length(),
        }
    }

    pub fn source(&self) -> (r: IpAddress)
        ensures
            ip_source_matches(ip_header_data(*self), r),
    {
        self.data_clone().source()
    }

    pub fn destination(&self) -> (r: IpAddress)
        ensures
            ip_destination_matches(ip_header_data(*self), r),
    {
        self.data_clone().destination()
    }

    /// A copy of the parsed data.
    pub fn data_clone(&self) -> (r: IpHeaderData)
        ensures
            r == ip_header_data(*self),
    {
        match self {
            IpHeader::V4(h) => IpHeaderData::V4(*h.data()),
            IpHeader::V6(h) => IpHeaderData::V6(*h.data()),
        }
    }
}

/// A mutable IP header of either version.
pub enum IpHeaderMut<'a> {
    V4(Ipv4HeaderMut<'a>),
    V6(Ipv6HeaderMut<'a>),
}

/// The parsed data of a mutable header.
pub open spec fn ip_header_mut_data(h: IpHeaderMut) -> IpHeaderData {
    match h {
        IpHeaderMut::V4(v4) => IpHeaderData::V4(*v4.data),
        IpHeaderMut::V6(v6) => IpHeaderData::V6(*v6.data),
    }
}

/// The raw bytes of a mutable header.
pub open spec fn ip_header_mut_raw(h: IpHeaderMut) -> Seq<u8> {
    match h {
        IpHeaderMut::V4(v4) => v4.raw@,
        IpHeaderMut::V6(v6) => v6.raw@,
    }
}

impl<'a> IpHeaderMut<'a> {
    pub fn raw(&self) -> (r: &[u8])
        ensures
            r@ == ip_header_mut_raw(*self),
    {
        match self {
            IpHeaderMut::V4(h) => h.raw(),
            IpHeaderMut::V6(h) => h.raw(),
        }
    }

    pub fn protocol(&self) -> (r: Protocol)
        ensures
            r == ip_protocol(ip_header_mut_data(*self)),
    {
        match self {
            IpHeaderMut::V4(h) => h.protocol(),
            IpHeaderMut::V6(h) => h.protocol(),
        }
    }

    pub fn total_length(&self) -> (r: u16)
        ensures
            r == ip_total_length(ip_header_mut_data(*self)),
    {
        match self {
            IpHeaderMut::V4(h) => h.total_length(),
            IpHeaderMut::V6(h) => h.total_length(),
        }
    }

    pub fn header_length(&self) -> (r: u8)
        ensures
            r == ip_header_length(ip_header_mut_data(*self)),
    {
        match self {
            IpHeaderMut::V4(h) => h.header_length(),
            IpHeaderMut::V6(h) => h.header_length(),
        }
    }

    /// A copy of the parsed data.
    pub fn data_clone(&self) -> (r: IpHeaderData)
        ensures
            r == ip_header_mut_data(*self),
    {
        match self {
            IpHeaderMut::V4(h) => IpHeaderData::V4(*h.data()),
            IpHeaderMut::V6(h) => IpHeaderData::V6(*h.data()),
        }
    }

    pub fn source(&self) -> (r: IpAddress)
        ensures
            ip_source_matches(ip_header_mut_data(*self), r),
    {
        self.data_clone().source()
    }

    pub fn destination(&self) -> (r: IpAddress)
        ensures
            ip_destination_matches(ip_header_mut_data(*self), r),
    {
        self.data_clone().destination()
    }

    /// The raw bytes, to be changed in place.
    pub fn raw_mut(&mut self) -> (r: &mut [u8])
        ensures
            r@ == ip_header_mut_raw(*old(self)),
            ip_header_mut_raw(*final(self)) == final(r)@,
            ip_header_mut_data(*final(self)) == ip_header_mut_data(*old(self)),
    {
        match self {
            IpHeaderMut::V4(h) => h.raw_mut(),
            IpHeaderMut::V6(h) => h.raw_mut(),
        }
    }

    /// Sets the total length of the packet: for IPv6, as the payload length
    /// (the total minus the 40-byte header).
    pub fn set_total_length(&mut self, total_length: u16)
        requires
            match *old(self) {
                IpHeaderMut::V4(h) => h.raw@.len() >= 20,
                IpHeaderMut::V6(h) => h.raw@.len() >= 40 && total_length >= 40,
            },
        ensures
            match (*old(self), *final(self)) {
                (IpHeaderMut::V4(a), IpHeaderMut::V4(b)) => {
                    &&& *b.data == Ipv4HeaderData { total_length, ..*a.data }
                    &&& b.raw@ == put_u16(a.raw@, 2, total_length)
                    &&& *final(b.data) == *final(a.data)
                    &&& final(b.raw)@ == final(a.raw)@
                },
                (IpHeaderMut::V6(a), IpHeaderMut::V6(b)) => {
                    &&& *b.data == Ipv6HeaderData {
                        payload_length: (total_length - 40) as u16,
                        ..*a.data
                    }
                    &&& b.raw@ == put_u16(a.raw@, 4, (total_length - 40) as u16)
                    &&& *final(b.data) == *final(a.data)
                    &&& final(b.raw)@ == final(a.raw)@
                },
                _ => false,
            },
            ip_consistent(ip_header_mut_data(*old(self)), ip_header_mut_raw(*old(self)))
                ==> ip_consistent(ip_header_mut_data(*final(self)), ip_header_mut_raw(*final(self))),
            ip_total_length(ip_header_mut_data(*final(self))) == total_length,
    {
        match self {
            IpHeaderMut::V4(h) => h.set_total_length(total_length),
            IpHeaderMut::V6(h) => {
                let payload_length = total_length - 40;
                h.set_payload_length(payload_length);
            },
        }
    }

    pub fn swap_source_and_destination(&mut self)
        requires
            match *old(self) {
                IpHeaderMut::V4(h) => h.raw@.len() >= 20,
                IpHeaderMut::V6(h) => h.raw@.len() >= 40,
            },
        ensures
            match (*old(self), *final(self)) {
                (IpHeaderMut::V4(a), IpHeaderMut::V4(b)) => {
                    &&& *b.data == Ipv4HeaderData {
                        source: a.data.destination,
                        destination: a.data.source,
                        ..*a.data
                    }
                    &&& b.raw@ == put_u32(put_u32(a.raw@, 12, a.data.destination), 16, a.data.source)
                    &&& *final(b.data) == *final(a.data)
                    &&& final(b.raw)@ == final(a.raw)@
                },
                (IpHeaderMut::V6(a), IpHeaderMut::V6(b)) => {
                    &&& *b.data == Ipv6HeaderData {
                        source: a.data.destination,
                        destination: a.data.source,
                        ..*a.data
                    }
                    &&& b.raw@ == put_bytes16(put_bytes16(a.raw@, 8, a.data.destination@), 24, a.data.source@)
                    &&& *final(b.data) == *final(a.data)
                    &&& final(b.raw)@ == final(a.raw)@
                },
                _ => false,
            },
            ip_header_mut_raw(*final(self)).len() == ip_header_mut_raw(*old(self)).len(),
            ip_consistent(ip_header_mut_data(*old(self)), ip_header_mut_raw(*old(self)))
                ==> ip_consistent(ip_header_mut_data(*final(self)), ip_header_mut_raw(*final(self))),
    {
        match self {
            IpHeaderMut::V4(h) => h.swap_source_and_destination(),
            IpHeaderMut::V6(h) => h.swap_source_and_destination(),
        }
    }

    /// Writes the header checksum; IPv6 headers have none.
    pub fn update_checksum(&mut self)
        requires
            match *old(self) {
                IpHeaderMut::V4(h) => h.raw@.len() >= 20 && h.data.header_length <= h.raw@.len(),
                IpHeaderMut::V6(h) => true,
            },
        ensures
            match (*old(self), *final(self)) {
                (IpHeaderMut::V4(a), IpHeaderMut::V4(b)) => {
                    &&& *b.data == *a.data
                    &&& b.raw@ == put_u16(
                        a.raw@,
                        10,
                        ipv4_checksum(a.raw@, a.data.header_length as int),
                    )
                    &&& *final(b.data) == *final(a.data)
                    &&& final(b.raw)@ == final(a.raw)@
                },
                (IpHeaderMut::V6(a), IpHeaderMut::V6(b)) => {
                    &&& *b.data == *a.data
                    &&& b.raw@ == a.raw@
                    &&& *final(b.data) == *final(a.data)
                    &&& final(b.raw)@ == final(a.raw)@
                },
                _ => false,
            },
            ip_consistent(ip_header_mut_data(*old(self)), ip_header_mut_raw(*old(self)))
                ==> ip_consistent(ip_header_mut_data(*final(self)), ip_header_mut_raw(*final(self))),
    {
        match self {
            IpHeaderMut::V4(h) => h.update_checksum(),
            IpHeaderMut::V6(_) => {},
        }
    }
}

} // verus!
