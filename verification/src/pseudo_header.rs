//! The pseudo-header that TCP and UDP checksums cover: the IP addresses, the
//! protocol number and the length of the transport segment.
use vstd::prelude::*;
use crate::checksum::{
    add_byte_sum, add_byte_sum_zeroed, byte_sum, checksum_of_sum, fold_carries, internet_checksum,
    lemma_checksum_verifies, word_sum,
};
use crate::byte_order::put_u16;
use crate::ip_header::IpHeaderData;

verus! {

/// The sum of the words of the pseudo-header.
pub open spec fn pseudo_header_sum(ip: IpHeaderData, protocol_number: nat, length: nat) -> nat {
    match ip {
        IpHeaderData::V4(d) => d.source as nat / 0x1_0000 + d.source as nat % 0x1_0000
            + d.destination as nat / 0x1_0000 + d.destination as nat % 0x1_0000 + protocol_number
            + length,
        IpHeaderData::V6(d) => byte_sum(d.source@) + byte_sum(d.destination@) + length / 0x1_0000
            + length % 0x1_0000 + protocol_number,
    }
}

/// The checksum of a transport segment: its header, with the checksum field at
/// `checksum_offset` taken as zero, its payload, and the pseudo-header.
pub open spec fn transport_checksum(
    ip: IpHeaderData,
    protocol_number: nat,
    header: Seq<u8>,
    checksum_offset: int,
    payload: Seq<u8>,
) -> u16 {
    internet_checksum(
        pseudo_header_sum(ip, protocol_number, header.len() + payload.len()) + byte_sum(
            put_u16(header, checksum_offset, 0),
        ) + byte_sum(payload),
    )
}

/// A segment whose checksum field holds the checksum that
/// `compute_transport_checksum` gives verifies: the pseudo-header, the header
/// with its checksum and the payload sum (carries folded) to `0xffff`.
pub proof fn lemma_transport_checksum_verifies(
    ip: IpHeaderData,
    protocol_number: nat,
    header: Seq<u8>,
    checksum_offset: int,
    payload: Seq<u8>,
)
    requires
        0 <= checksum_offset,
        checksum_offset % 2 == 0,
        checksum_offset + 2 <= header.len(),
    ensures
        fold_carries(
            pseudo_header_sum(ip, protocol_number, header.len() + payload.len()) + byte_sum(
                put_u16(
                    header,
                    checksum_offset,
                    transport_checksum(ip, protocol_number, header, checksum_offset, payload),
                ),
            ) + byte_sum(payload),
        ) == 0xffff,
{
    let extra = pseudo_header_sum(ip, protocol_number, header.len() + payload.len()) + byte_sum(
        payload,
    );
    lemma_checksum_verifies(header, checksum_offset, extra);
}

pub fn compute_transport_checksum(
    ip: &IpHeaderData,
    protocol_number: u8,
    header: &[u8],
    checksum_offset: usize,
    payload: &[u8],
) -> (c: u16)
    requires
        checksum_offset + 2 <= header@.len(),
        header@.len() + payload@.len() <= 0x1_0000,
    ensures
        c == transport_checksum(*ip, protocol_number as nat, header@, checksum_offset as int, payload@),
{
    let length = (header.len() + payload.len()) as u64;
    let mut sum: u64 = match ip {
        IpHeaderData::V4(d) => {
            let s = d.source as u64;
            let t = d.destination as u64;
            s / 0x1_0000 + s % 0x1_0000 + t / 0x1_0000 + t % 0x1_0000 + protocol_number as u64
                + length
        },
        IpHeaderData::V6(d) => {
            let a = add_byte_sum(d.source.as_slice(), 0);
            let b = add_byte_sum(d.destination.as_slice(), a);
            b + length / 0x1_0000 + length % 0x1_0000 + protocol_number as u64
        },
    };
    sum = add_byte_sum_zeroed(header, checksum_offset, sum);
    sum = add_byte_sum(payload, sum);
    checksum_of_sum(sum)
}

} // verus!
