use byteorder::{BigEndian, WriteBytesExt};
use gnirehtet::ip_packet::IpPacket;
use gnirehtet::packet_source::PacketSource;
use gnirehtet::tcp_connection::{Reply, Tcb, TcpConnection, TcpState, MAX_PAYLOAD_LENGTH};
use gnirehtet::tcp_header::{FLAG_ACK, FLAG_FIN, FLAG_PSH, FLAG_RST, FLAG_SYN};

const DEVICE: u32 = 0x0a000002;
const SERVER: u32 = 0x5db8d822;

/// An IPv4 TCP packet from the device to the server.
fn tcp_packet(seq: u32, ack: u32, flags: u16, window: u16, payload: &[u8]) -> Vec<u8> {
    let mut raw = Vec::new();
    raw.write_u8(4u8 << 4 | 5).unwrap();
    raw.write_u8(0).unwrap();
    raw.write_u16::<BigEndian>((40 + payload.len()) as u16).unwrap();
    raw.write_u32::<BigEndian>(0).unwrap();
    raw.write_u8(64).unwrap();
    raw.write_u8(6).unwrap();
    raw.write_u16::<BigEndian>(0).unwrap();
    raw.write_u32::<BigEndian>(DEVICE).unwrap();
    raw.write_u32::<BigEndian>(SERVER).unwrap();
    raw.write_u16::<BigEndian>(40000).unwrap();
    raw.write_u16::<BigEndian>(80).unwrap();
    raw.write_u32::<BigEndian>(seq).unwrap();
    raw.write_u32::<BigEndian>(ack).unwrap();
    raw.write_u16::<BigEndian>(5 << 12 | flags).unwrap();
    raw.write_u16::<BigEndian>(window).unwrap();
    raw.write_u16::<BigEndian>(0).unwrap();
    raw.write_u16::<BigEndian>(0).unwrap();
    raw.extend_from_slice(payload);
    raw
}

/// A SYN with an option (data offset 6), to check that options are dropped.
fn syn_with_option(seq: u32) -> Vec<u8> {
    let mut raw = Vec::new();
    raw.write_u8(4u8 << 4 | 5).unwrap();
    raw.write_u8(0).unwrap();
    raw.write_u16::<BigEndian>(44).unwrap();
    raw.write_u32::<BigEndian>(0).unwrap();
    raw.write_u8(64).unwrap();
    raw.write_u8(6).unwrap();
    raw.write_u16::<BigEndian>(0).unwrap();
    raw.write_u32::<BigEndian>(DEVICE).unwrap();
    raw.write_u32::<BigEndian>(SERVER).unwrap();
    raw.write_u16::<BigEndian>(40000).unwrap();
    raw.write_u16::<BigEndian>(80).unwrap();
    raw.write_u32::<BigEndian>(seq).unwrap();
    raw.write_u32::<BigEndian>(0).unwrap();
    raw.write_u16::<BigEndian>(6 << 12 | FLAG_SYN).unwrap();
    raw.write_u16::<BigEndian>(65535).unwrap();
    raw.write_u16::<BigEndian>(0).unwrap();
    raw.write_u16::<BigEndian>(0).unwrap();
    // maximum segment size option
    raw.extend_from_slice(&[2, 4, 0x05, 0xb4]);
    raw
}

fn ones_complement_sum(bytes: &[u8], start: u32) -> u32 {
    let mut sum = start;
    for pair in bytes.chunks(2) {
        let word = if pair.len() == 2 { (pair[0] as u32) << 8 | pair[1] as u32 } else { (pair[0] as u32) << 8 };
        sum += word;
    }
    while sum > 0xffff {
        sum = (sum & 0xffff) + (sum >> 16);
    }
    sum
}

/// The TCP checksum of an IPv4 packet checks out.
fn tcp_checksum_ok(packet: &[u8]) -> bool {
    let segment = &packet[20..];
    let mut pseudo = 6u32 + segment.len() as u32;
    for w in [&packet[12..14], &packet[14..16], &packet[16..18], &packet[18..20]] {
        pseudo += (w[0] as u32) << 8 | w[1] as u32;
    }
    ones_complement_sum(segment, pseudo) == 0xffff
}

fn handle(conn: &mut TcpConnection, mut raw: Vec<u8>) -> Option<Reply> {
    let packet = IpPacket::parse(&mut raw[..]).unwrap();
    conn.handle_packet(&packet)
}

fn open_connection() -> (TcpConnection, u32) {
    let mut syn = tcp_packet(1000, 0, FLAG_SYN, 65535, &[]);
    let packet = IpPacket::parse(&mut syn[..]).unwrap();
    let (ip_header, transport_header) = packet.headers();
    let mut conn = TcpConnection::create(&ip_header, &transport_header.unwrap());
    assert_eq!(None, conn.handle_packet(&packet));
    assert_eq!(TcpState::SynSent, conn.tcb().state);
    assert_eq!(1001, conn.tcb().acknowledgement_number);
    assert_eq!(1000, conn.tcb().syn_sequence_number);
    assert_eq!(65535, conn.tcb().client_window);
    let reply = conn.on_connected();
    assert_eq!(FLAG_SYN | FLAG_ACK, reply.flags);
    assert_eq!(1001, reply.acknowledgement_number);
    let isn = reply.sequence_number;
    assert_eq!(TcpState::SynReceived, conn.tcb().state);
    assert_eq!(isn.wrapping_add(1), conn.tcb().sequence_number);
    (conn, isn)
}

#[test]
fn handshake_reaches_established() {
    let (mut conn, isn) = open_connection();
    let reply = handle(&mut conn, tcp_packet(1001, isn.wrapping_add(1), FLAG_ACK, 1000, &[]));
    assert_eq!(None, reply);
    assert_eq!(TcpState::Established, conn.tcb().state);
    assert_eq!(1000, conn.tcb().remaining_client_window());
    assert!(conn.may_read());
    assert!(!conn.may_write());
}

#[test]
fn syn_ack_packet_for_device() {
    let (mut conn, isn) = open_connection();
    let reply = Reply { flags: FLAG_SYN | FLAG_ACK, sequence_number: isn, acknowledgement_number: 1001 };
    let packet = conn.create_empty_response_packet(&reply);
    let bytes = packet.raw().to_vec();
    assert_eq!(40, bytes.len());
    // source and destination swapped
    assert_eq!(SERVER.to_be_bytes(), bytes[12..16]);
    assert_eq!(DEVICE.to_be_bytes(), bytes[16..20]);
    assert_eq!(80u16.to_be_bytes(), bytes[20..22]);
    assert_eq!(40000u16.to_be_bytes(), bytes[22..24]);
    assert_eq!(isn.to_be_bytes(), bytes[24..28]);
    assert_eq!(1001u32.to_be_bytes(), bytes[28..32]);
    assert_eq!(0x50, bytes[32]);
    assert_eq!(0x12, bytes[33]);
    assert_eq!(0xffff, ones_complement_sum(&bytes[..20], 0));
    assert!(tcp_checksum_ok(&bytes));
}

#[test]
fn options_of_first_packet_are_dropped() {
    let mut syn = syn_with_option(7);
    let packet = IpPacket::parse(&mut syn[..]).unwrap();
    let (ip_header, transport_header) = packet.headers();
    let mut conn = TcpConnection::create(&ip_header, &transport_header.unwrap());
    let reply = Reply { flags: FLAG_ACK, sequence_number: 1, acknowledgement_number: 8 };
    let out = conn.create_empty_response_packet(&reply);
    assert_eq!(40, out.length());
    assert_eq!(0x50, out.raw()[32]);
    assert!(tcp_checksum_ok(out.raw()));
}

#[test]
fn data_from_device_is_buffered_and_acknowledged() {
    let (mut conn, isn) = open_connection();
    handle(&mut conn, tcp_packet(1001, isn.wrapping_add(1), FLAG_ACK, 1000, &[]));
    let reply = handle(&mut conn, tcp_packet(1001, isn.wrapping_add(1), FLAG_ACK | FLAG_PSH, 1000, b"hello"));
    assert_eq!(None, reply);
    assert!(conn.may_write());
    assert_eq!(b"hello", conn.pending_chunk());
    let reply = conn.on_written(5).unwrap();
    assert_eq!(FLAG_ACK, reply.flags);
    assert_eq!(1006, reply.acknowledgement_number);
    assert_eq!(5, conn.bytes_sent);
    assert!(!conn.may_write());
}

#[test]
fn out_of_order_segment_is_ignored() {
    let (mut conn, isn) = open_connection();
    handle(&mut conn, tcp_packet(1001, isn.wrapping_add(1), FLAG_ACK, 1000, &[]));
    let before = *conn.tcb();
    let reply = handle(&mut conn, tcp_packet(5000, isn.wrapping_add(1), FLAG_ACK, 10, b"late"));
    assert_eq!(None, reply);
    let after = *conn.tcb();
    assert_eq!(before.acknowledgement_number, after.acknowledgement_number);
    assert_eq!(before.client_window, after.client_window);
    assert!(!conn.may_write());
}

#[test]
fn close_initiated_by_device() {
    let (mut conn, isn) = open_connection();
    handle(&mut conn, tcp_packet(1001, isn.wrapping_add(1), FLAG_ACK, 1000, &[]));
    let reply = handle(&mut conn, tcp_packet(1001, isn.wrapping_add(1), FLAG_FIN | FLAG_ACK, 1000, &[])).unwrap();
    assert_eq!(FLAG_FIN | FLAG_ACK, reply.flags);
    assert_eq!(1002, reply.acknowledgement_number);
    assert_eq!(isn.wrapping_add(1), reply.sequence_number);
    assert_eq!(TcpState::LastAck, conn.tcb().state);
    assert!(!conn.is_closed());
    let reply = handle(&mut conn, tcp_packet(1002, isn.wrapping_add(2), FLAG_ACK, 1000, &[]));
    assert_eq!(None, reply);
    assert!(conn.is_closed());
}

#[test]
fn close_initiated_by_network() {
    let (mut conn, isn) = open_connection();
    handle(&mut conn, tcp_packet(1001, isn.wrapping_add(1), FLAG_ACK, 1000, &[]));
    let reply = conn.on_eof();
    assert_eq!(FLAG_FIN | FLAG_ACK, reply.flags);
    assert_eq!(1002, reply.acknowledgement_number);
    assert_eq!(TcpState::FinWait1, conn.tcb().state);
    assert_eq!(Some(isn.wrapping_add(1)), conn.tcb().fin_sequence_number);
    // the device acknowledges the FIN
    handle(&mut conn, tcp_packet(1002, isn.wrapping_add(2), FLAG_ACK, 1000, &[]));
    assert_eq!(TcpState::FinWait2, conn.tcb().state);
    // then sends its own FIN
    let reply = handle(&mut conn, tcp_packet(1002, isn.wrapping_add(2), FLAG_FIN | FLAG_ACK, 1000, &[])).unwrap();
    assert_eq!(FLAG_ACK, reply.flags);
    assert_eq!(1003, reply.acknowledgement_number);
    assert!(conn.is_closed());
}

#[test]
fn first_packet_without_syn_is_reset() {
    let mut raw = tcp_packet(1000, 77, FLAG_ACK, 100, &[]);
    let packet = IpPacket::parse(&mut raw[..]).unwrap();
    let (ip_header, transport_header) = packet.headers();
    let mut conn = TcpConnection::create(&ip_header, &transport_header.unwrap());
    let reply = conn.handle_packet(&packet).unwrap();
    assert_eq!(FLAG_RST, reply.flags);
    assert_eq!(77, reply.sequence_number);
    assert!(conn.is_closed());
}

#[test]
fn duplicate_syn_with_other_number_is_reset() {
    let (mut conn, isn) = open_connection();
    handle(&mut conn, tcp_packet(1001, isn.wrapping_add(1), FLAG_ACK, 1000, &[]));
    assert_eq!(None, handle(&mut conn, tcp_packet(1000, 0, FLAG_SYN, 1000, &[])));
    assert!(!conn.is_closed());
    let reply = handle(&mut conn, tcp_packet(2000, 0, FLAG_SYN, 1000, &[])).unwrap();
    assert_eq!(FLAG_RST, reply.flags);
    assert!(conn.is_closed());
}

#[test]
fn rst_from_device_closes() {
    let (mut conn, isn) = open_connection();
    handle(&mut conn, tcp_packet(1001, isn.wrapping_add(1), FLAG_ACK, 1000, &[]));
    assert_eq!(None, handle(&mut conn, tcp_packet(1001, isn.wrapping_add(1), FLAG_RST, 1000, &[])));
    assert!(conn.is_closed());
}

#[test]
fn received_data_packet_for_device() {
    let (mut conn, isn) = open_connection();
    handle(&mut conn, tcp_packet(1001, isn.wrapping_add(1), FLAG_ACK, 1000, &[]));
    assert_eq!(1000, conn.receive_limit());
    let (length, payload_length) = {
        let packet = conn.packetize_received(b"world").unwrap();
        assert_eq!(45, packet.length());
        assert_eq!(b"world", packet.payload().unwrap());
        assert_eq!(0x18, packet.raw()[33]);
        assert!(tcp_checksum_ok(packet.raw()));
        (packet.length(), packet.payload().unwrap().len() as u16)
    };
    // the device could not take it: it waits
    conn.on_received(payload_length, length, false);
    assert!(!conn.may_read());
    assert_eq!(Some(45), conn.pending_packet_length());
    assert_eq!(45, conn.get().unwrap().length());
    conn.next();
    assert_eq!(None, conn.pending_packet_length());
    // the sequence number advances by the payload, as for a packet sent at once
    assert_eq!(isn.wrapping_add(1).wrapping_add(5), conn.tcb().sequence_number);
    // with no packet waiting, next changes nothing
    assert!(conn.get().is_none());
    conn.next();
    assert_eq!(isn.wrapping_add(1).wrapping_add(5), conn.tcb().sequence_number);
    assert_eq!(5, conn.bytes_received);
    assert!(conn.packetize_received(&[]).is_none());
}

#[test]
fn network_error_resets() {
    let (mut conn, _isn) = open_connection();
    let reply = conn.on_io_error();
    assert_eq!(FLAG_RST, reply.flags);
    assert!(conn.is_closed());
    assert!(!conn.is_expired());
}

#[test]
fn remaining_window_wraps() {
    let mut tcb = Tcb::new();
    tcb.their_acknowledgement_number = u32::MAX - 1;
    tcb.client_window = 10;
    tcb.sequence_number = 3;
    assert_eq!(5, tcb.remaining_client_window());
    tcb.sequence_number = 20;
    assert_eq!(0, tcb.remaining_client_window());
}

#[test]
fn window_shrinks_by_what_was_sent() {
    let mut tcb = Tcb::new();
    tcb.their_acknowledgement_number = u32::MAX - 30;
    tcb.client_window = 100;
    tcb.sequence_number = u32::MAX - 10;
    assert_eq!(80, tcb.remaining_client_window());
    tcb.sequence_number = tcb.sequence_number.wrapping_add(25);
    assert_eq!(55, tcb.remaining_client_window());
    tcb.sequence_number = tcb.sequence_number.wrapping_add(55);
    assert_eq!(0, tcb.remaining_client_window());
}

#[test]
fn tcb_numbers_text() {
    let mut tcb = Tcb::new();
    tcb.sequence_number = 42;
    tcb.acknowledgement_number = 7;
    assert_eq!("(seq=42, ack=7)", tcb.numbers());
}

#[test]
fn receive_limit_capped_by_payload_length() {
    let (mut conn, isn) = open_connection();
    handle(&mut conn, tcp_packet(1001, isn.wrapping_add(1), FLAG_ACK, 65535, &[]));
    assert_eq!(MAX_PAYLOAD_LENGTH as usize, conn.receive_limit());
}

#[test]
fn state_predicates() {
    assert!(!TcpState::SynReceived.is_connected());
    assert!(TcpState::Established.is_connected());
    assert!(TcpState::FinWait1.is_closed());
    assert!(!TcpState::Established.is_closed());
}
