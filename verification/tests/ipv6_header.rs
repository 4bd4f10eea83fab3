use byteorder::{BigEndian, ByteOrder, WriteBytesExt};
use gnirehtet::ipv4_header::Protocol;
use gnirehtet::ipv6_header::Ipv6HeaderData;

/// The 16 bytes of the IPv6 address with these eight 16-bit groups.
fn address(groups: [u16; 8]) -> [u8; 16] {
    let mut octets = [0u8; 16];
    for (i, g) in groups.iter().enumerate() {
        octets[2 * i] = (g >> 8) as u8;
        octets[2 * i + 1] = (g & 0xff) as u8;
    }
    octets
}

fn create_header() -> Vec<u8> {
    let mut raw: Vec<u8> = Vec::new();
    raw.reserve(40);

    // Version (6), Traffic Class, Flow Label
    raw.write_u32::<BigEndian>(0x60000000).unwrap();
    // Payload Length (8 bytes of UDP + 4 bytes of payload = 12)
    raw.write_u16::<BigEndian>(12).unwrap();
    // Next Header (UDP)
    raw.write_u8(17).unwrap();
    // Hop Limit
    raw.write_u8(64).unwrap();
    // Source address: 2001:db8::1
    raw.extend_from_slice(&[
        0x20, 0x01, 0x0d, 0xb8, 0x00, 0x00, 0x00, 0x00, 0x00, 0x00, 0x00, 0x00, 0x00, 0x00, 0x00,
        0x01,
    ]);
    // Destination address: 2001:db8::2
    raw.extend_from_slice(&[
        0x20, 0x01, 0x0d, 0xb8, 0x00, 0x00, 0x00, 0x00, 0x00, 0x00, 0x00, 0x00, 0x00, 0x00, 0x00,
        0x02,
    ]);

    raw
}

#[test]
fn parse_header() {
    let raw = &create_header()[..];
    let data = Ipv6HeaderData::parse(raw);
    assert_eq!(12, data.payload_length);
    assert_eq!(52, data.total_length());
    assert_eq!(40, data.header_length());
    assert_eq!(Protocol::Udp, data.protocol());
    assert_eq!(address([0x2001, 0x0db8, 0, 0, 0, 0, 0, 1]), data.source());
    assert_eq!(address([0x2001, 0x0db8, 0, 0, 0, 0, 0, 2]), data.destination());
}

#[test]
fn edit_header() {
    let raw = &mut create_header()[..];
    let mut header_data = Ipv6HeaderData::parse(raw);
    let mut header = header_data.bind_mut(raw);

    let new_src = address([0x2001, 0x0db8, 0, 0, 0, 0, 0, 3]);
    let new_dst = address([0x2001, 0x0db8, 0, 0, 0, 0, 0, 4]);
    header.set_source(new_src);
    header.set_destination(new_dst);
    header.set_payload_length(42);

    assert_eq!(new_src, header.source());
    assert_eq!(new_dst, header.destination());
    assert_eq!(42, header.payload_length());

    // assert that the buffer has been modified
    let raw_src: [u8; 16] = header.raw[8..24].try_into().unwrap();
    let raw_dst: [u8; 16] = header.raw[24..40].try_into().unwrap();
    let raw_payload_length = BigEndian::read_u16(&header.raw[4..6]);
    assert_eq!(new_src, raw_src);
    assert_eq!(new_dst, raw_dst);
    assert_eq!(42, raw_payload_length);

    header.swap_source_and_destination();

    assert_eq!(new_dst, header.source());
    assert_eq!(new_src, header.destination());

    let raw_src: [u8; 16] = header.raw[8..24].try_into().unwrap();
    let raw_dst: [u8; 16] = header.raw[24..40].try_into().unwrap();
    assert_eq!(new_dst, raw_src);
    assert_eq!(new_src, raw_dst);
}

#[test]
fn swap_twice_restores_header() {
    let original = create_header();
    let mut raw = create_header();
    let mut header_data = Ipv6HeaderData::parse(&raw);
    {
        let mut header = header_data.bind_mut(&mut raw[..]);
        header.swap_source_and_destination();
        header.swap_source_and_destination();
    }
    assert_eq!(original, raw);
    assert_eq!(Ipv6HeaderData::parse(&original), header_data);
}

#[test]
fn header_data_stays_that_of_bytes() {
    let mut raw = create_header();
    let mut header_data = Ipv6HeaderData::parse(&raw);
    {
        let mut header = header_data.bind_mut(&mut raw[..]);
        header.set_payload_length(1000);
        header.swap_source_and_destination();
    }
    assert_eq!(Ipv6HeaderData::parse(&raw), header_data);
    assert_eq!(1040, header_data.total_length());
    assert_eq!(64, header_data.hop_limit());
}
