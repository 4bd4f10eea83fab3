use byteorder::{BigEndian, WriteBytesExt};
use gnirehtet::ip_header::IpHeader;
use gnirehtet::ip_packet::IpPacket;
use gnirehtet::ipv4_packet::Ipv4Packet as V4Packet;
use gnirehtet::packetizer::Packetizer;
use std::io::{self, Read};

fn create_v4_packet() -> Vec<u8> {
    let mut raw = Vec::new();
    raw.write_u8(4u8 << 4 | 5).unwrap();
    raw.write_u8(0).unwrap(); // ToS
    raw.write_u16::<BigEndian>(32).unwrap(); // total length 20 + 8 + 4
    raw.write_u32::<BigEndian>(0).unwrap(); // id_flags_fragment_offset
    raw.write_u8(0).unwrap(); // TTL
    raw.write_u8(17).unwrap(); // protocol (UDP)
    raw.write_u16::<BigEndian>(0).unwrap(); // checksum
    raw.write_u32::<BigEndian>(0x12345678).unwrap(); // source address
    raw.write_u32::<BigEndian>(0x42424242).unwrap(); // destination address

    raw.write_u16::<BigEndian>(1234).unwrap(); // source port
    raw.write_u16::<BigEndian>(5678).unwrap(); // destination port
    raw.write_u16::<BigEndian>(12).unwrap(); // length
    raw.write_u16::<BigEndian>(0).unwrap(); // checksum

    raw.write_u32::<BigEndian>(0x11223344).unwrap(); // payload
    raw
}

/// A datagram source that hands out its data once.
struct MockDatagramSocket {
    data: Vec<u8>,
}

impl MockDatagramSocket {
    fn from_data(data: &[u8]) -> Self {
        Self { data: data.to_vec() }
    }

    fn recv(&mut self) -> Vec<u8> {
        std::mem::take(&mut self.data)
    }
}

/// Reads at most `max_chunk_size` bytes from a stream.
fn read_chunk<R: Read>(source: &mut R, max_chunk_size: usize) -> io::Result<Vec<u8>> {
    let mut buf = vec![0u8; max_chunk_size];
    let n = source.read(&mut buf)?;
    buf.truncate(n);
    Ok(buf)
}

/// Sums the big-endian words of `bytes`, carries folded back.
fn ones_complement_sum(bytes: &[u8]) -> u32 {
    let mut sum = 0u32;
    for pair in bytes.chunks(2) {
        let word = if pair.len() == 2 { (pair[0] as u32) << 8 | pair[1] as u32 } else { (pair[0] as u32) << 8 };
        sum += word;
    }
    while sum > 0xffff {
        sum = (sum & 0xffff) + (sum >> 16);
    }
    sum
}

#[test]
fn merge_headers_and_payload() {
    let raw = &mut create_v4_packet()[..];
    let reference_packet = V4Packet::parse(raw);

    let data = [0x11u8, 0x22, 0x33, 0x44, 0x55, 0x66, 0x77, 0x88];
    let mut mock = MockDatagramSocket::from_data(&data);

    let ipv4_header = reference_packet.ipv4_header();
    let transport_header = reference_packet.transport_header().unwrap();
    let ip_header = IpHeader::V4(ipv4_header);
    let mut packetizer = Packetizer::new(&ip_header, &transport_header);

    let received = mock.recv();
    let packet = packetizer.packetize(&received);
    match &packet {
        IpPacket::V4(p) => {
            assert_eq!(36, p.ipv4_header_data().total_length());
            assert_eq!(data, &p.raw()[28..36]);
        }
        _ => panic!("Expected V4 packet"),
    }
}

#[test]
fn last_packet() {
    let raw = &mut create_v4_packet()[..];
    let reference_packet = V4Packet::parse(raw);

    let data = [0x11u8, 0x22, 0x33, 0x44, 0x55, 0x66, 0x77, 0x88];
    let mut mock = MockDatagramSocket::from_data(&data);

    let ipv4_header = reference_packet.ipv4_header();
    let transport_header = reference_packet.transport_header().unwrap();
    let ip_header = IpHeader::V4(ipv4_header);
    let mut packetizer = Packetizer::new(&ip_header, &transport_header);

    let received = mock.recv();
    let packet_length = match packetizer.packetize(&received) {
        IpPacket::V4(ref p) => p.length(),
        _ => panic!("Expected V4 packet"),
    };
    let packet = packetizer.inflate(packet_length);
    match &packet {
        IpPacket::V4(p) => {
            assert_eq!(36, p.ipv4_header_data().total_length());
            assert_eq!(data, &p.raw()[28..36]);
        }
        _ => panic!("Expected V4 packet"),
    }
}

#[test]
fn packetize_chunks() {
    let raw = &mut create_v4_packet()[..];
    let reference_packet = V4Packet::parse(raw);

    let data = [0x11u8, 0x22, 0x33, 0x44, 0x55, 0x66, 0x77, 0x88];
    let mut cursor = io::Cursor::new(&data);

    let ipv4_header = reference_packet.ipv4_header();
    let transport_header = reference_packet.transport_header().unwrap();
    let ip_header = IpHeader::V4(ipv4_header);
    let mut packetizer = Packetizer::new(&ip_header, &transport_header);

    {
        let chunk = read_chunk(&mut cursor, 2).unwrap();
        let packet = packetizer.packetize_read(&chunk).unwrap();
        match &packet {
            IpPacket::V4(p) => {
                assert_eq!(30, p.ipv4_header_data().total_length());
                assert_eq!([0x11, 0x22], p.payload().unwrap());
            }
            _ => panic!("Expected V4 packet"),
        }
    }

    {
        let chunk = read_chunk(&mut cursor, 3).unwrap();
        let packet = packetizer.packetize_read(&chunk).unwrap();
        match &packet {
            IpPacket::V4(p) => {
                assert_eq!(31, p.ipv4_header_data().total_length());
                assert_eq!([0x33, 0x44, 0x55], p.payload().unwrap());
            }
            _ => panic!("Expected V4 packet"),
        }
    }

    {
        let chunk = read_chunk(&mut cursor, 1024).unwrap();
        let packet = packetizer.packetize_read(&chunk).unwrap();
        match &packet {
            IpPacket::V4(p) => {
                assert_eq!(31, p.ipv4_header_data().total_length());
                assert_eq!([0x66, 0x77, 0x88], p.payload().unwrap());
            }
            _ => panic!("Expected V4 packet"),
        }
    }

    let chunk = read_chunk(&mut cursor, 1024).unwrap();
    assert!(packetizer.packetize_read(&chunk).is_none());
}

#[test]
fn packetized_headers_are_swapped_and_checksummed() {
    let raw = &mut create_v4_packet()[..];
    let reference_packet = V4Packet::parse(raw);
    let ipv4_header = reference_packet.ipv4_header();
    let transport_header = reference_packet.transport_header().unwrap();
    let ip_header = IpHeader::V4(ipv4_header);
    let mut packetizer = Packetizer::new(&ip_header, &transport_header);

    let packet = packetizer.packetize(&[1, 2, 3]);
    let bytes = packet.raw().to_vec();
    assert_eq!(31, bytes.len());
    // addresses swapped
    assert_eq!([0x42, 0x42, 0x42, 0x42], bytes[12..16]);
    assert_eq!([0x12, 0x34, 0x56, 0x78], bytes[16..20]);
    // ports swapped
    assert_eq!([0x16, 0x2e], bytes[20..22]);
    assert_eq!([0x04, 0xd2], bytes[22..24]);
    // UDP length: header and payload
    assert_eq!([0, 11], bytes[24..26]);
    // UDP checksum disabled under IPv4
    assert_eq!([0, 0], bytes[26..28]);
    // the header checksum checks out
    assert_eq!(0xffff, ones_complement_sum(&bytes[..20]));
    assert_eq!([1, 2, 3], bytes[28..31]);
}

#[test]
fn empty_payload_packet() {
    let raw = &mut create_v4_packet()[..];
    let reference_packet = V4Packet::parse(raw);
    let ip_header = IpHeader::V4(reference_packet.ipv4_header());
    let transport_header = reference_packet.transport_header().unwrap();
    let mut packetizer = Packetizer::new(&ip_header, &transport_header);
    let packet = packetizer.packetize_empty_payload();
    assert_eq!(28, packet.length());
    assert!(packet.is_valid());
    assert_eq!(0, packet.payload().unwrap().len());
}

#[test]
fn ipv4_header_checksum_known_value() {
    // A header whose checksum is known to be 0xb861.
    let mut raw = vec![
        0x45, 0x00, 0x00, 0x73, 0x00, 0x00, 0x40, 0x00, 0x40, 0x11, 0x00, 0x00, 0xc0, 0xa8, 0x00,
        0x01, 0xc0, 0xa8, 0x00, 0xc7,
    ];
    let mut data = gnirehtet::ipv4_header::Ipv4HeaderData::parse(&raw);
    {
        let mut header = data.bind_mut(&mut raw[..]);
        header.update_checksum();
    }
    assert_eq!([0xb8, 0x61], raw[10..12]);
}
