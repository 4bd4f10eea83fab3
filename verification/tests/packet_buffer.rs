use byteorder::{BigEndian, WriteBytesExt};
use gnirehtet::ip_header::IpHeaderData;
use gnirehtet::ip_packet::IpPacket;
use gnirehtet::ip_packet_buffer::IpPacketBuffer;
use gnirehtet::ipv4_header::Protocol;
use gnirehtet::transport_header::TransportHeaderData;
use std::io::{self, Read};

fn create_v4_packet() -> Vec<u8> {
    let mut raw = Vec::new();
    write_v4_packet_to(&mut raw);
    raw
}

fn write_v4_packet_to(raw: &mut Vec<u8>) {
    raw.write_u8(4u8 << 4 | 5).unwrap();
    raw.write_u8(0).unwrap(); // ToS
    raw.write_u16::<BigEndian>(32).unwrap(); // total length 20 + 8 + 4
    raw.write_u32::<BigEndian>(0).unwrap(); // id_flags_fragment_offset
    raw.write_u8(0).unwrap(); // TTL
    raw.write_u8(17).unwrap(); // protocol (UDP)
    raw.write_u16::<BigEndian>(0).unwrap(); // checksum
    raw.write_u32::<BigEndian>(0x12345678).unwrap(); // source address
    raw.write_u32::<BigEndian>(0x42424242).unwrap(); // destination address

    raw.write_u16::<BigEndian>(1234).unwrap(); // source port
    raw.write_u16::<BigEndian>(5678).unwrap(); // destination port
    raw.write_u16::<BigEndian>(12).unwrap(); // length
    raw.write_u16::<BigEndian>(0).unwrap(); // checksum

    raw.write_u32::<BigEndian>(0x11223344).unwrap(); // payload
}

fn write_v6_packet_to(raw: &mut Vec<u8>) {
    raw.write_u32::<BigEndian>(0x60000000).unwrap(); // version, traffic class, flow label
    raw.write_u16::<BigEndian>(12).unwrap(); // payload length (8 UDP + 4 payload)
    raw.write_u8(17).unwrap(); // next header (UDP)
    raw.write_u8(64).unwrap(); // hop limit
    raw.extend_from_slice(&[
        0x20, 0x01, 0x0d, 0xb8, 0x00, 0x00, 0x00, 0x00, 0x00, 0x00, 0x00, 0x00, 0x00, 0x00, 0x00,
        0x01,
    ]);
    raw.extend_from_slice(&[
        0x20, 0x01, 0x0d, 0xb8, 0x00, 0x00, 0x00, 0x00, 0x00, 0x00, 0x00, 0x00, 0x00, 0x00, 0x00,
        0x02,
    ]);

    raw.write_u16::<BigEndian>(1234).unwrap(); // source port
    raw.write_u16::<BigEndian>(5678).unwrap(); // destination port
    raw.write_u16::<BigEndian>(12).unwrap(); // length
    raw.write_u16::<BigEndian>(0).unwrap(); // checksum

    raw.write_u32::<BigEndian>(0x11223344).unwrap(); // payload
}

/// Reads what `source` has, as much as the buffer takes, into the buffer.
fn read_into<R: Read>(buffer: &mut IpPacketBuffer, source: &mut R) -> io::Result<bool> {
    let mut tmp = vec![0u8; buffer.remaining()];
    let n = source.read(&mut tmp)?;
    Ok(buffer.read_from(&tmp[..n]))
}

fn check_udp_packet_headers(packet: &IpPacket) {
    let (ip_data, transport) = packet.headers_data();
    assert_eq!(Protocol::Udp, ip_data.protocol());
    if let Some(&TransportHeaderData::Udp(ref udp_header)) = transport {
        assert_eq!(1234, udp_header.source_port());
        assert_eq!(5678, udp_header.destination_port());
    } else {
        panic!("No UDP transport header");
    }
}

fn check_v4_packet_headers(packet: &IpPacket) {
    assert!(matches!(packet, IpPacket::V4(_)));
    check_udp_packet_headers(packet);
}

fn check_v6_packet_headers(packet: &IpPacket) {
    assert!(matches!(packet, IpPacket::V6(_)));
    check_udp_packet_headers(packet);
}

#[test]
fn parse_ipv4_packet_buffer() {
    let raw = create_v4_packet();
    let mut packet_buffer = IpPacketBuffer::new();

    let mut cursor = io::Cursor::new(raw);
    read_into(&mut packet_buffer, &mut cursor).unwrap();

    let packet = packet_buffer.as_ip_packet().unwrap();
    check_v4_packet_headers(&packet);
}

#[test]
fn parse_ipv6_packet_buffer() {
    let raw = {
        let mut raw = Vec::new();
        write_v6_packet_to(&mut raw);
        raw
    };
    let mut packet_buffer = IpPacketBuffer::new();

    let mut cursor = io::Cursor::new(raw);
    read_into(&mut packet_buffer, &mut cursor).unwrap();

    let packet = packet_buffer.as_ip_packet().unwrap();
    check_v6_packet_headers(&packet);
}

#[test]
fn parse_fragmented_ipv4_packet_buffer() {
    let raw = create_v4_packet();
    let mut packet_buffer = IpPacketBuffer::new();

    let mut cursor = io::Cursor::new(&raw[..14]);
    read_into(&mut packet_buffer, &mut cursor).unwrap();

    assert!(packet_buffer.as_ip_packet().is_none());

    let mut cursor = io::Cursor::new(&raw[14..]);
    read_into(&mut packet_buffer, &mut cursor).unwrap();

    let packet = packet_buffer.as_ip_packet().unwrap();
    check_v4_packet_headers(&packet);
}

fn create_multi_packets() -> Vec<u8> {
    let mut raw = Vec::new();
    write_v4_packet_to(&mut raw);
    write_v6_packet_to(&mut raw);
    write_v4_packet_to(&mut raw);
    raw
}

#[test]
fn parse_multi_packets() {
    let raw = create_multi_packets();
    let mut packet_buffer = IpPacketBuffer::new();

    let mut cursor = io::Cursor::new(raw);
    read_into(&mut packet_buffer, &mut cursor).unwrap();

    check_v4_packet_headers(&packet_buffer.as_ip_packet().unwrap());
    packet_buffer.next();
    check_v6_packet_headers(&packet_buffer.as_ip_packet().unwrap());
    packet_buffer.next();
    check_v4_packet_headers(&packet_buffer.as_ip_packet().unwrap());
    packet_buffer.next();

    assert!(packet_buffer.as_ip_packet().is_none());
}

#[test]
fn next_without_whole_packet_keeps_bytes() {
    let raw = create_v4_packet();
    let mut packet_buffer = IpPacketBuffer::new();
    assert!(packet_buffer.read_from(&raw[..10]));
    packet_buffer.next();
    assert!(packet_buffer.read_from(&raw[10..]));
    let packet = packet_buffer.as_ip_packet().unwrap();
    assert_eq!(32, packet.length());
    assert_eq!(&raw[..], packet.raw());
}

#[test]
fn unknown_version_is_no_packet() {
    let mut packet_buffer = IpPacketBuffer::new();
    assert!(packet_buffer.read_from(&[0x50, 0, 0, 8, 0, 0, 0, 0]));
    assert!(packet_buffer.is_front_parsable());
    assert!(packet_buffer.as_ip_packet().is_none());
}

#[test]
fn malformed_front_packet_is_reported() {
    let mut packet_buffer = IpPacketBuffer::new();
    // IPv4, total length 10: shorter than the header it announces.
    assert!(packet_buffer.read_from(&[0x45, 0, 0, 10, 0, 0, 0, 0, 0, 0]));
    assert!(!packet_buffer.is_front_parsable());
}

#[test]
fn empty_read_adds_nothing() {
    let mut packet_buffer = IpPacketBuffer::new();
    assert!(!packet_buffer.read_from(&[]));
    assert_eq!(65536, packet_buffer.remaining());
    assert!(packet_buffer.as_ip_packet().is_none());
}

#[test]
fn ip_header_data_addresses() {
    let mut raw = create_v4_packet();
    let packet = IpPacket::parse(&mut raw[..]).unwrap();
    let (ip_data, _) = packet.headers_data();
    match ip_data {
        IpHeaderData::V4(_) => {}
        _ => panic!("Expected V4 header"),
    }
    assert_eq!(gnirehtet::ip_header::IpAddress::V4([0x12, 0x34, 0x56, 0x78]), ip_data.source());
    assert_eq!(gnirehtet::ip_header::IpAddress::V4([0x42, 0x42, 0x42, 0x42]), ip_data.destination());
    assert_eq!(20, ip_data.header_length());
    assert_eq!(32, ip_data.total_length());
}

/// Sums big-endian words, an odd last byte as a high byte, carries folded.
fn folded_sum(parts: &[&[u8]]) -> u32 {
    let mut sum = 0u32;
    for part in parts {
        for pair in part.chunks(2) {
            let word = if pair.len() == 2 {
                (pair[0] as u32) << 8 | pair[1] as u32
            } else {
                (pair[0] as u32) << 8
            };
            sum += word;
        }
    }
    while sum > 0xffff {
        sum = (sum & 0xffff) + (sum >> 16);
    }
    sum
}

#[test]
fn ipv6_udp_checksum_verifies() {
    let mut raw = Vec::new();
    write_v6_packet_to(&mut raw);
    let mut packet = IpPacket::parse(&mut raw).unwrap();
    packet.compute_checksums();
    let bytes = packet.raw().to_vec();
    assert_ne!([0, 0], bytes[46..48]);
    // pseudo-header: addresses, upper-layer length, next header
    let pseudo: [u8; 8] = [0, 0, 0, 12, 0, 0, 0, 17];
    assert_eq!(0xffff, folded_sum(&[&bytes[8..40], &pseudo, &bytes[40..52]]));
}
