//! The synthetic TCP state machine that stands between the device's TCP stack
//! and a real socket on the host. The socket I/O itself is performed by the
//! caller; this module decides, for each event, the next state and the packet
//! (if any) to answer the device with.
use vstd::prelude::*;
use crate::packet_source::PacketSource;
use crate::stream_buffer::StreamBuffer;
use crate::tcp_header::{
    TcpHeaderData, has_flag, FLAG_ACK, FLAG_FIN, FLAG_PSH, FLAG_RST, FLAG_SYN,
};
use crate::text::{push_char, push_decimal, decimal};
use crate::ip_header::{IpHeader, ip_header_data, ip_header_raw, ip_header_length, ip_consistent, ip_protocol};
use crate::ip_packet::{IpPacket, packet_shape, packet_wf, packet_raw, packet_ip_data, packet_transport_data};
use crate::packetizer::{
    Packetizer, PacketizerView, headers_shape, headers_consistent, swapped_ip_data, swapped_ip_raw,
    swapped_transport_data, swapped_transport_raw, with_tcp_numbers, built_packet_raw, with_total_length,
    with_payload,
};
use crate::transport_header::{TransportHeader, TransportHeaderData, transport_header_data, transport_header_raw};
use crate::tcp_header::{TcpHeader, tcp_consistent, put_byte12};

verus! {

/// The largest TCP segment sent to the device.
pub const MTU: u16 = 0x4000;

/// The largest payload in one packet sent to the device (MTU minus the IPv4
/// and TCP headers).
pub const MAX_PAYLOAD_LENGTH: u16 = 0x4000 - 20 - 20;

#[derive(Clone, Copy, Debug, PartialEq, Eq, Structural)]
pub enum TcpState {
    Init,
    SynSent,
    SynReceived,
    Established,
    LastAck,
    Closing,
    FinWait1,
    FinWait2,
}

pub open spec fn spec_is_connected(s: TcpState) -> bool {
    !(s is Init || s is SynSent || s is SynReceived)
}

pub open spec fn spec_is_closed(s: TcpState) -> bool {
    s is FinWait1 || s is FinWait2 || s is Closing || s is LastAck
}

/// The moves of the state machine: each operation keeps the state or takes
/// one of these edges.
pub open spec fn state_step(a: TcpState, b: TcpState) -> bool {
    ||| a == b
    ||| (a is Init && b is SynSent)
    ||| (a is SynSent && b is SynReceived)
    ||| (a is SynReceived && b is Established)
    ||| (a is Established && b is LastAck)
    ||| (a is Established && b is FinWait1)
    ||| (a is FinWait1 && b is Closing)
    ||| (a is FinWait1 && b is FinWait2)
}

/// `b` can be reached from `a` by zero or more moves of the state machine.
pub open spec fn state_reaches(a: TcpState, b: TcpState) -> bool {
    ||| a == b
    ||| (a is Init && !(b is Init))
    ||| (a is SynSent && !(b is Init || b is SynSent))
    ||| (a is SynReceived && !(b is Init || b is SynSent || b is SynReceived))
    ||| (a is Established && (b is LastAck || b is FinWait1 || b is Closing || b is FinWait2))
    ||| (a is FinWait1 && (b is Closing || b is FinWait2))
}

/// Following two moves of the reachability relation is one move of it.
pub proof fn lemma_state_reaches_transitive(a: TcpState, b: TcpState, c: TcpState)
    requires
        state_reaches(a, b),
        state_reaches(b, c),
    ensures
        state_reaches(a, c),
{
}

/// Every single move reaches its target.
pub proof fn lemma_step_reaches(a: TcpState, b: TcpState)
    requires
        state_step(a, b),
    ensures
        state_reaches(a, b),
{
}

impl TcpState {
    pub fn is_connected(&self) -> (b: bool)
        ensures
            b == spec_is_connected(*self),
    {
        match self {
            TcpState::Init | TcpState::SynSent | TcpState::SynReceived => false,
            _ => true,
        }
    }

    pub fn is_closed(&self) -> (b: bool)
        ensures
            b == spec_is_closed(*self),
    {
        match self {
            TcpState::FinWait1 | TcpState::FinWait2 | TcpState::Closing | TcpState::LastAck => true,
            _ => false,
        }
    }
}

/// The transmission control block: the sequence-number bookkeeping of one
/// connection.
#[derive(Clone, Copy, Debug)]
pub struct Tcb {
    pub state: TcpState,
    pub syn_sequence_number: u32,
    pub sequence_number: u32,
    pub acknowledgement_number: u32,
    pub their_acknowledgement_number: u32,
    pub fin_sequence_number: Option<u32>,
    pub fin_received: bool,
    pub client_window: u16,
}

/// Adds `n` to a sequence number, modulo 2^32.
pub open spec fn seq_add(a: u32, n: int) -> u32 {
    ((a + n) % 0x1_0000_0000) as u32
}

/// How many more bytes the device's window accepts: the end of the window
/// (their acknowledgement plus the window, modulo 2^32) minus our sequence
/// number, or 0 when our sequence number lies beyond the window.
pub open spec fn spec_remaining_window(t: Tcb) -> u16 {
    let remaining = ((t.their_acknowledgement_number + t.client_window - t.sequence_number)
        % 0x1_0000_0000) as u32;
    if remaining <= t.client_window {
        remaining as u16
    } else {
        0
    }
}

/// Sending `n` bytes that the device's window accepts shrinks what it
/// accepts by exactly `n`: the relay never sends beyond the window.
pub proof fn lemma_window_shrinks(t: Tcb, n: int)
    requires
        0 <= n <= spec_remaining_window(t),
    ensures
        spec_remaining_window(Tcb { sequence_number: seq_add(t.sequence_number, n), ..t })
            == spec_remaining_window(t) - n,
{
    let m = 0x1_0000_0000int;
    let a = t.their_acknowledgement_number as int;
    let w = t.client_window as int;
    let s = t.sequence_number as int;
    let r = spec_remaining_window(t) as int;
    let s2 = seq_add(t.sequence_number, n) as int;
    if n > 0 {
        assert(r == (a + w - s) % m);
        assert(s2 == (s + n) % m);
        assert((a + w - s2) % m == r - n) by (nonlinear_arith)
            requires
                r == (a + w - s) % m,
                s2 == (s + n) % m,
                0 < n <= r,
                m == 0x1_0000_0000int,
        {
            assert(a + w - s == m * ((a + w - s) / m) + r);
            assert(s + n == m * ((s + n) / m) + s2);
            assert(a + w - s2 == m * ((a + w - s) / m + (s + n) / m) + (r - n));
        }
    } else {
        assert(s2 == s);
    }
}

/// The numbers of a reply packet built now.
pub open spec fn reply_of(t: Tcb, flags: u16) -> Reply {
    Reply {
        flags,
        sequence_number: t.sequence_number,
        acknowledgement_number: t.acknowledgement_number,
    }
}

/// The control block of a connection that has seen no packet yet.
pub open spec fn initial_tcb() -> Tcb {
    Tcb {
        state: TcpState::Init,
        syn_sequence_number: 0,
        sequence_number: 0,
        acknowledgement_number: 0,
        their_acknowledgement_number: 0,
        fin_sequence_number: None,
        fin_received: false,
        client_window: 0,
    }
}

impl Tcb {
    pub fn new() -> (t: Self)
        ensures
            t == initial_tcb(),
    {
        Tcb {
            state: TcpState::Init,
            syn_sequence_number: 0,
            sequence_number: 0,
            acknowledgement_number: 0,
            their_acknowledgement_number: 0,
            fin_sequence_number: None,
            fin_received: false,
            client_window: 0,
        }
    }

    pub fn remaining_client_window(&self) -> (r: u16)
        ensures
            r == spec_remaining_window(*self),
            r <= self.client_window,
    {
        let wrapped_remaining = self.their_acknowledgement_number.wrapping_add(
            self.client_window as u32,
        ).wrapping_sub(self.sequence_number);
        proof {
            let a = self.their_acknowledgement_number as int;
            let w = self.client_window as int;
            let s = self.sequence_number as int;
            let m = 0x1_0000_0000int;
            let x = if a + w > u32::MAX { a + w - m } else { a + w };
            assert(x == (a + w) % m);
            let y = if x - s < 0 { x - s + m } else { x - s };
            assert(y == (a + w - s) % m);
        }
        if wrapped_remaining <= self.client_window as u32 {
            wrapped_remaining as u16
        } else {
            0
        }
    }

    /// `"(seq=S, ack=A)"`, the two numbers in decimal.
    pub fn numbers(&self) -> (s: String)
        ensures
            s@ == seq!['(', 's', 'e', 'q', '='] + decimal(self.sequence_number as nat) + seq![
                ',',
                ' ',
                'a',
                'c',
                'k',
                '=',
            ] + decimal(self.acknowledgement_number as nat) + seq![')'],
    {
        let mut s = String::new();
        push_char(&mut s, '(');
        push_char(&mut s, 's');
        push_char(&mut s, 'e');
        push_char(&mut s, 'q');
        push_char(&mut s, '=');
        push_decimal(&mut s, self.sequence_number as u64);
        push_char(&mut s, ',');
        push_char(&mut s, ' ');
        push_char(&mut s, 'a');
        push_char(&mut s, 'c');
        push_char(&mut s, 'k');
        push_char(&mut s, '=');
        push_decimal(&mut s, self.acknowledgement_number as u64);
        push_char(&mut s, ')');
        assert(s@ =~= seq!['(', 's', 'e', 'q', '='] + decimal(self.sequence_number as nat) + seq![
            ',',
            ' ',
            'a',
            'c',
            'k',
            '=',
        ] + decimal(self.acknowledgement_number as nat) + seq![')']);
        s
    }
}

/// An empty packet to send to the device: its flags and the sequence and
/// acknowledgement numbers it carries.
#[derive(Clone, Copy, Debug, PartialEq, Eq)]
pub struct Reply {
    pub flags: u16,
    pub sequence_number: u32,
    pub acknowledgement_number: u32,
}


/// What the state machine of one connection holds, as plain values.
pub struct TcpConnectionView {
    pub tcb: Tcb,
    /// Bytes received from the device and not yet written to the network.
    pub buffered: Seq<u8>,
    /// The most bytes `buffered` can hold.
    pub capacity: nat,
    /// The length of a packet built for the device that could not be sent yet.
    pub packet_for_client_length: Option<u16>,
    /// The length of the payload of that packet.
    pub payload_for_client_length: u16,
    pub closed: bool,
    pub bytes_sent: u64,
    pub bytes_received: u64,
    /// The builder of the packets sent to the device.
    pub packetizer: PacketizerView,
}

/// The size of the buffer of bytes from the device to the network.
pub const CLIENT_TO_NETWORK_CAPACITY: usize = 4 * 65536;

pub open spec fn spec_close(v: TcpConnectionView) -> TcpConnectionView {
    TcpConnectionView { closed: true, ..v }
}

pub open spec fn with_tcb(v: TcpConnectionView, t: Tcb) -> TcpConnectionView {
    TcpConnectionView { tcb: t, ..v }
}

/// The sequence number that the next in-order segment from the device carries.
pub open spec fn expected_sequence(v: TcpConnectionView) -> u32 {
    seq_add(v.tcb.acknowledgement_number, v.buffered.len() as int)
}

/// An acknowledgement from the device: it completes the handshake, or it
/// carries a payload, which is buffered for the network unless there is no
/// room for all of it (then it is dropped).
pub open spec fn spec_handle_ack(v: TcpConnectionView, payload: Seq<u8>) -> TcpConnectionView {
    if v.tcb.state is SynReceived {
        with_tcb(v, Tcb { state: TcpState::Established, ..v.tcb })
    } else if payload.len() == 0 || v.capacity - v.buffered.len() < payload.len() {
        v
    } else {
        TcpConnectionView { buffered: v.buffered + payload, ..v }
    }
}

/// A FIN from the device, once all the data before it has gone to the network.
pub open spec fn spec_do_handle_fin(v: TcpConnectionView) -> (TcpConnectionView, Option<Reply>) {
    let t = Tcb { acknowledgement_number: seq_add(v.tcb.acknowledgement_number, 1), ..v.tcb };
    match t.state {
        TcpState::Established => (
            with_tcb(
                v,
                Tcb {
                    fin_sequence_number: Some(t.sequence_number),
                    sequence_number: seq_add(t.sequence_number, 1),
                    state: TcpState::LastAck,
                    ..t
                },
            ),
            Some(reply_of(t, (FLAG_FIN | FLAG_ACK) as u16)),
        ),
        TcpState::FinWait1 => (
            with_tcb(v, Tcb { state: TcpState::Closing, ..t }),
            Some(reply_of(t, FLAG_ACK)),
        ),
        TcpState::FinWait2 => (spec_close(with_tcb(v, t)), Some(reply_of(t, FLAG_ACK))),
        _ => (with_tcb(v, t), None),
    }
}

/// A FIN from the device: recorded, and handled at once if nothing is pending.
pub open spec fn spec_handle_fin(v: TcpConnectionView) -> (TcpConnectionView, Option<Reply>) {
    let v1 = with_tcb(v, Tcb { fin_received: true, ..v.tcb });
    if v1.buffered.len() == 0 {
        spec_do_handle_fin(v1)
    } else {
        (v1, None)
    }
}

/// The device acknowledged our FIN.
pub open spec fn spec_handle_fin_ack(v: TcpConnectionView) -> TcpConnectionView {
    match v.tcb.state {
        TcpState::LastAck | TcpState::Closing => spec_close(v),
        TcpState::FinWait1 => with_tcb(v, Tcb { state: TcpState::FinWait2, ..v.tcb }),
        _ => v,
    }
}

/// A segment from the device that is neither the first one nor a SYN.
pub open spec fn spec_handle_segment(
    v: TcpConnectionView,
    seg: TcpHeaderData,
    payload: Seq<u8>,
) -> (TcpConnectionView, Option<Reply>) {
    if seg.sequence_number != expected_sequence(v) {
        (v, None)
    } else {
        let v1 = with_tcb(
            v,
            Tcb {
                client_window: seg.window,
                their_acknowledgement_number: seg.acknowledgement_number,
                ..v.tcb
            },
        );
        if has_flag(seg.flags, FLAG_RST) {
            (spec_close(v1), None)
        } else {
            let v2 = if has_flag(seg.flags, FLAG_ACK) {
                spec_handle_ack(v1, payload)
            } else {
                v1
            };
            let (v3, r) = if has_flag(seg.flags, FLAG_FIN) {
                spec_handle_fin(v2)
            } else {
                (v2, None)
            };
            let v4 = match v3.tcb.fin_sequence_number {
                Some(f) => if seg.acknowledgement_number == seq_add(f, 1) {
                    spec_handle_fin_ack(v3)
                } else {
                    v3
                },
                None => v3,
            };
            (v4, r)
        }
    }
}

/// A SYN received again after the first one.
pub open spec fn spec_handle_duplicate_syn(v: TcpConnectionView, seg: TcpHeaderData) -> (
    TcpConnectionView,
    Option<Reply>,
) {
    if v.tcb.state is SynSent {
        (
            with_tcb(
                v,
                Tcb {
                    syn_sequence_number: seg.sequence_number,
                    acknowledgement_number: seq_add(seg.sequence_number, 1),
                    ..v.tcb
                },
            ),
            None,
        )
    } else if seg.sequence_number != v.tcb.syn_sequence_number {
        (spec_close(v), Some(reply_of(v.tcb, FLAG_RST)))
    } else {
        (v, None)
    }
}

/// The first segment of a connection: a SYN opens it, with our initial
/// sequence number `isn`; anything else is answered by a reset.
pub open spec fn spec_handle_first_packet(v: TcpConnectionView, seg: TcpHeaderData, isn: u32) -> (
    TcpConnectionView,
    Option<Reply>,
) {
    if has_flag(seg.flags, FLAG_SYN) {
        (
            with_tcb(
                v,
                Tcb {
                    acknowledgement_number: seq_add(seg.sequence_number, 1),
                    syn_sequence_number: seg.sequence_number,
                    sequence_number: isn,
                    client_window: seg.window,
                    state: TcpState::SynSent,
                    ..v.tcb
                },
            ),
            None,
        )
    } else {
        let t = Tcb { sequence_number: seg.acknowledgement_number, ..v.tcb };
        (spec_close(with_tcb(v, t)), Some(reply_of(t, FLAG_RST)))
    }
}

/// Closing from both sides at once: when our FIN is out (FinWait1) and the
/// device answers with one in-order segment that carries its own FIN and
/// acknowledges ours, the connection ends closed, and the device's FIN is
/// acknowledged (one sequence number past what it had sent).
pub proof fn lemma_fin_acking_our_fin_closes(
    v: TcpConnectionView,
    seg: TcpHeaderData,
    payload: Seq<u8>,
    our_fin: u32,
)
    requires
        v.tcb.state is FinWait1,
        v.tcb.fin_sequence_number == Some(our_fin),
        v.buffered.len() == 0,
        payload.len() == 0,
        seg.sequence_number == expected_sequence(v),
        has_flag(seg.flags, FLAG_FIN),
        !has_flag(seg.flags, FLAG_RST),
        seg.acknowledgement_number as int == (our_fin as int + 1) % 0x1_0000_0000,
    ensures
        spec_handle_segment(v, seg, payload).0.closed,
        spec_handle_segment(v, seg, payload).1 matches Some(r) && has_flag(r.flags, FLAG_ACK)
            && r.acknowledgement_number as int == (v.tcb.acknowledgement_number as int + 1)
            % 0x1_0000_0000,
{
    assert(FLAG_ACK & FLAG_ACK != 0) by (bit_vector);
}

/// A FIN from the device while our FIN is still unacknowledged does not
/// close the connection yet; the acknowledgement of our FIN that follows,
/// in order, does.
pub proof fn lemma_fin_then_ack_of_our_fin_closes(
    v: TcpConnectionView,
    seg1: TcpHeaderData,
    payload1: Seq<u8>,
    seg2: TcpHeaderData,
    payload2: Seq<u8>,
    our_fin: u32,
)
    requires
        v.tcb.state is FinWait1,
        !v.closed,
        v.tcb.fin_sequence_number == Some(our_fin),
        v.buffered.len() == 0,
        payload1.len() == 0,
        payload2.len() == 0,
        seg1.sequence_number == expected_sequence(v),
        has_flag(seg1.flags, FLAG_FIN),
        !has_flag(seg1.flags, FLAG_RST),
        seg1.acknowledgement_number as int != (our_fin as int + 1) % 0x1_0000_0000,
        seg2.sequence_number == expected_sequence(spec_handle_segment(v, seg1, payload1).0),
        !has_flag(seg2.flags, FLAG_RST),
        !has_flag(seg2.flags, FLAG_FIN),
        seg2.acknowledgement_number as int == (our_fin as int + 1) % 0x1_0000_0000,
    ensures
        !spec_handle_segment(v, seg1, payload1).0.closed,
        spec_handle_segment(spec_handle_segment(v, seg1, payload1).0, seg2, payload2).0.closed,
{
}

/// Data from the device is relayed: an in-order acknowledging segment of an
/// established connection whose payload fits in the room left in the buffer
/// for the network is appended to what is already buffered, whatever that is.
pub proof fn lemma_in_order_data_is_buffered(v: TcpConnectionView, seg: TcpHeaderData, payload: Seq<u8>)
    requires
        spec_is_connected(v.tcb.state),
        v.buffered.len() <= v.capacity,
        seg.sequence_number == expected_sequence(v),
        has_flag(seg.flags, FLAG_ACK),
        !has_flag(seg.flags, FLAG_RST),
        !has_flag(seg.flags, FLAG_FIN),
        0 < payload.len() <= v.capacity - v.buffered.len(),
    ensures
        spec_handle_segment(v, seg, payload).0.buffered == v.buffered + payload,
{
}

/// A SYN counts for one sequence number: after the device's SYN with number
/// `x`, and after any retransmission of that same SYN while the network side
/// is still connecting, the number we acknowledge is `x + 1` (modulo 2^32),
/// and so is the acknowledgement that the SYN|ACK answering it carries.
pub proof fn lemma_syn_counts_for_one(v: TcpConnectionView, seg: TcpHeaderData, isn: u32, again: TcpHeaderData)
    requires
        v.tcb.state is Init,
        has_flag(seg.flags, FLAG_SYN),
        again.sequence_number == seg.sequence_number,
    ensures
        ({
            let v1 = spec_handle_first_packet(v, seg, isn).0;
            let v2 = spec_handle_duplicate_syn(v1, again).0;
            &&& v1.tcb.acknowledgement_number as int == (seg.sequence_number as int + 1) % 0x1_0000_0000
            &&& v2.tcb.acknowledgement_number == v1.tcb.acknowledgement_number
            &&& reply_of(v2.tcb, (FLAG_SYN | FLAG_ACK) as u16).acknowledgement_number as int
                == (seg.sequence_number as int + 1) % 0x1_0000_0000
        }),
{
}

/// A retransmitted SYN while the network side is connecting: the number we
/// acknowledge becomes its sequence number plus one (modulo 2^32).
pub proof fn lemma_duplicate_syn_acknowledged(v: TcpConnectionView, seg: TcpHeaderData)
    requires
        v.tcb.state is SynSent,
    ensures
        spec_handle_duplicate_syn(v, seg).0.tcb.acknowledgement_number as int == (seg.sequence_number as int
            + 1) % 0x1_0000_0000,
        !spec_handle_duplicate_syn(v, seg).0.closed || v.closed,
{
}

/// A view evolves into another along the state machine: the state moves
/// forward and a closed connection stays closed.
pub open spec fn evolves(a: TcpConnectionView, b: TcpConnectionView) -> bool {
    &&& state_reaches(a.tcb.state, b.tcb.state)
    &&& (a.closed ==> b.closed)
}

/// Handling any segment makes the connection evolve along the state machine.
pub proof fn lemma_segment_evolves(v: TcpConnectionView, seg: TcpHeaderData, payload: Seq<u8>)
    ensures
        evolves(v, spec_handle_segment(v, seg, payload).0),
        evolves(v, spec_handle_duplicate_syn(v, seg).0),
        v.tcb.state is Init ==> forall|isn: u32| evolves(v, #[trigger] spec_handle_first_packet(v, seg, isn).0),
{
}

/// Draws a random initial sequence number through `rand::random::<u32>()`;
/// nothing is stated of the value.
#[verifier::external_body]
fn random_u32() -> (r: u32) {
    rand::random::<u32>()
}

pub struct TcpConnection {
    client_to_network: StreamBuffer,
    network_to_client: Packetizer,
    packet_for_client_length: Option<u16>,
    payload_for_client_length: u16,
    closed: bool,
    tcb: Tcb,
    pub bytes_sent: u64,
    pub bytes_received: u64,
}

impl View for TcpConnection {
    type V = TcpConnectionView;

    closed spec fn view(&self) -> TcpConnectionView {
        TcpConnectionView {
            tcb: self.tcb,
            buffered: self.client_to_network@,
            capacity: self.client_to_network.spec_capacity(),
            packet_for_client_length: self.packet_for_client_length,
            payload_for_client_length: self.payload_for_client_length,
            closed: self.closed,
            bytes_sent: self.bytes_sent,
            bytes_received: self.bytes_received,
            packetizer: self.network_to_client@,
        }
    }
}

/// The TCP header data with its options dropped.
pub open spec fn shrunk_tcp(d: TcpHeaderData) -> TcpHeaderData {
    TcpHeaderData { header_length: 20, ..d }
}

/// The first 20 bytes of a TCP header, with the data offset set to 5 words.
pub open spec fn shrunk_tcp_raw(raw: Seq<u8>) -> Seq<u8> {
    put_byte12(raw.take(20), (raw[12] % 16 + 80) as u8)
}

impl TcpConnection {
    pub closed spec fn wf(&self) -> bool {
        &&& self.client_to_network.wf()
        &&& self.client_to_network.spec_capacity() == CLIENT_TO_NETWORK_CAPACITY
        &&& self.network_to_client.wf()
        &&& self.network_to_client@.transport_header_data is Tcp
    }

    /// The packets a connection builds for the device carry a TCP header.
    pub proof fn lemma_packetizer_is_tcp(&self)
        requires
            self.wf(),
        ensures
            self@.packetizer.transport_header_data is Tcp,
    {
    }

    /// The TCP header of a transport header that must be one.
    fn tcp_header_of_transport<'a>(transport_header: &'a TransportHeader<'a>) -> (h: &'a TcpHeader<'a>)
        requires
            transport_header is Tcp,
        ensures
            TransportHeader::Tcp(*h) == *transport_header,
    {
        match transport_header {
            TransportHeader::Tcp(h) => h,
            TransportHeader::Udp(_) => vstd::pervasive::unreached(),
        }
    }

    /// The state of a new connection, whose first packet from the device has
    /// these IP and TCP headers: the packets for the device will have the
    /// same headers with source and destination swapped, and the TCP options
    /// dropped.
    pub fn create(ip_header: &IpHeader, transport_header: &TransportHeader) -> (c: Self)
        requires
            transport_header is Tcp,
            transport_header_raw(*transport_header).len() >= 20,
            20 <= ip_header_length(ip_header_data(*ip_header)) <= 60,
            ip_header_data(*ip_header) is V6 ==> ip_header_length(ip_header_data(*ip_header)) == 40,
            ip_header_raw(*ip_header).len() == ip_header_length(ip_header_data(*ip_header)),
        ensures
            c.wf(),
            c@.tcb == initial_tcb(),
            c@.buffered == Seq::<u8>::empty(),
            c@.capacity == CLIENT_TO_NETWORK_CAPACITY,
            c@.packet_for_client_length is None,
            !c@.closed,
            c@.bytes_sent == 0,
            c@.bytes_received == 0,
            c@.packetizer.transport_header_data is Tcp,
            ({
                let t = TransportHeaderData::Tcp(shrunk_tcp(transport_header_data(*transport_header)->Tcp_0));
                let raw = shrunk_tcp_raw(transport_header_raw(*transport_header));
                &&& c@.packetizer.ip_header_data == swapped_ip_data(ip_header_data(*ip_header))
                &&& c@.packetizer.transport_header_data == swapped_transport_data(t)
                &&& c@.packetizer.buffer.take(c@.packetizer.payload_index) == swapped_ip_raw(
                    ip_header_data(*ip_header),
                    ip_header_raw(*ip_header),
                ) + swapped_transport_raw(t, raw)
            }),
            ({
                let ip = ip_header_data(*ip_header);
                &&& ip_consistent(ip, ip_header_raw(*ip_header))
                &&& tcp_consistent(
                    transport_header_data(*transport_header)->Tcp_0,
                    transport_header_raw(*transport_header),
                )
                &&& ip_protocol(ip) is Tcp
            }) ==> headers_consistent(c@.packetizer),
    {
        let tcp_header = Self::tcp_header_of_transport(transport_header);
        let mut shrinked_tcp_header_raw = [0u8; 20];
        let mut i: usize = 0;
        while i < 20
            invariant
                i <= 20,
                tcp_header.raw@.len() >= 20,
                forall|j: int| 0 <= j < i ==> shrinked_tcp_header_raw@[j] == tcp_header.raw@[j],
            decreases 20 - i,
        {
            shrinked_tcp_header_raw[i] = tcp_header.raw[i];
            i = i + 1;
        }
        assert(shrinked_tcp_header_raw@ =~= tcp_header.raw@.take(20));
        let mut shrinked_tcp_header_data = *tcp_header.data();
        {
            let raw_slice = vstd::array::ref_mut_array_unsizing_coercion(&mut shrinked_tcp_header_raw);
            let mut shrinked_tcp_header = shrinked_tcp_header_data.bind_mut(raw_slice);
            shrinked_tcp_header.shrink_options();
        }
        proof {
            if tcp_consistent(*tcp_header.data, tcp_header.raw@) {
                assert(tcp_consistent(*tcp_header.data, tcp_header.raw@.take(20)));
            }
        }
        let shrinked_transport_header = TransportHeader::Tcp(
            shrinked_tcp_header_data.bind(shrinked_tcp_header_raw.as_slice()),
        );
        let packetizer = Packetizer::new(ip_header, &shrinked_transport_header);
        TcpConnection {
            client_to_network: StreamBuffer::new(CLIENT_TO_NETWORK_CAPACITY),
            network_to_client: packetizer,
            packet_for_client_length: None,
            payload_for_client_length: 0,
            closed: false,
            tcb: Tcb::new(),
            bytes_sent: 0,
            bytes_received: 0,
        }
    }

    /// Writes the numbers and flags into the TCP header of the packets for
    /// the device.
    fn update_headers(packetizer: &mut Packetizer, sequence_number: u32, acknowledgement_number: u32, flags: u16)
        requires
            old(packetizer).wf(),
            old(packetizer)@.transport_header_data is Tcp,
        ensures
            final(packetizer).wf(),
            final(packetizer)@ == with_tcp_numbers(old(packetizer)@, sequence_number, acknowledgement_number, flags),
            final(packetizer)@.transport_header_data is Tcp,
            headers_consistent(old(packetizer)@) ==> headers_consistent(final(packetizer)@),
    {
        packetizer.set_tcp_numbers(sequence_number, acknowledgement_number, flags);
    }

    /// The empty packet of a reply, built for the device.
    pub fn create_empty_response_packet(&mut self, reply: &Reply) -> (p: IpPacket<'_>)
        requires
            old(self).wf(),
        ensures
            final(self).wf(),
            final(self)@.packetizer.transport_header_data is Tcp,
            final(self)@ == (TcpConnectionView { packetizer: final(self)@.packetizer, ..old(self)@ }),
            ({
                let v = with_tcp_numbers(
                    old(self)@.packetizer,
                    reply.sequence_number,
                    reply.acknowledgement_number,
                    reply.flags,
                );
                &&& packet_shape(p)
                &&& packet_raw(p) == built_packet_raw(v, 0)
                &&& packet_transport_data(p) == Some(v.transport_header_data)
                &&& packet_ip_data(p) == with_total_length(v.ip_header_data, v.payload_index as u16)
                &&& (headers_consistent(old(self)@.packetizer) ==> packet_wf(p))
            }),
            headers_consistent(old(self)@.packetizer) ==> match p {
                IpPacket::V4(q) => final(q.raw)@ == q.raw@ ==> headers_consistent(final(self)@.packetizer),
                IpPacket::V6(q) => final(q.raw)@ == q.raw@ ==> headers_consistent(final(self)@.packetizer),
            },
    {
        Self::update_headers(
            &mut self.network_to_client,
            reply.sequence_number,
            reply.acknowledgement_number,
            reply.flags,
        );
        self.network_to_client.packetize_empty_payload()
    }

    /// The packet carrying `data`, read from the network for the device, with
    /// the current numbers and the flags ACK and PSH: `None` when `data` is
    /// empty (end of stream).
    pub fn packetize_received(&mut self, data: &[u8]) -> (p: Option<IpPacket<'_>>)
        requires
            old(self).wf(),
            data@.len() <= MAX_PAYLOAD_LENGTH,
        ensures
            final(self).wf(),
            final(self)@.packetizer.transport_header_data is Tcp,
            final(self)@ == (TcpConnectionView { packetizer: final(self)@.packetizer, ..old(self)@ }),
            p is None <==> data@.len() == 0,
            ({
                let v = with_tcp_numbers(
                    old(self)@.packetizer,
                    old(self)@.tcb.sequence_number,
                    old(self)@.tcb.acknowledgement_number,
                    (FLAG_ACK | FLAG_PSH) as u16,
                );
                p matches Some(p) ==> {
                    &&& packet_shape(p)
                    &&& packet_raw(p) == built_packet_raw(with_payload(v, data@), data@.len() as int)
                    &&& packet_transport_data(p) == Some(v.transport_header_data)
                    &&& (headers_consistent(old(self)@.packetizer) ==> packet_wf(p))
                }
            }),
            headers_consistent(old(self)@.packetizer) ==> match p {
                Some(IpPacket::V4(q)) => final(q.raw)@ == q.raw@ ==> headers_consistent(final(self)@.packetizer),
                Some(IpPacket::V6(q)) => final(q.raw)@ == q.raw@ ==> headers_consistent(final(self)@.packetizer),
                None => headers_consistent(final(self)@.packetizer),
            },
    {
        proof { self.network_to_client.lemma_wf(); }
        Self::update_headers(
            &mut self.network_to_client,
            self.tcb.sequence_number,
            self.tcb.acknowledgement_number,
            FLAG_ACK | FLAG_PSH,
        );
        proof { self.network_to_client.lemma_wf(); }
        self.network_to_client.packetize_read(data)
    }

    pub fn close(&mut self)
        ensures
            final(self)@ == spec_close(old(self)@),
            final(self).wf() == old(self).wf(),
            final(self)@.packetizer == old(self)@.packetizer,
    {
        self.closed = true;
    }

    pub fn is_closed(&self) -> (b: bool)
        ensures
            b == self@.closed,
    {
        self.closed
    }

    pub fn is_expired(&self) -> (b: bool)
        ensures
            !b,
    {
        false
    }

    pub fn tcb(&self) -> (t: &Tcb)
        ensures
            *t == self@.tcb,
    {
        &self.tcb
    }

    fn handle_ack(&mut self, payload: &[u8])
        requires
            old(self).wf(),
        ensures
            final(self).wf(),
            final(self)@ == spec_handle_ack(old(self)@, payload@),
    {
        if self.tcb.state == TcpState::SynReceived {
            self.tcb.state = TcpState::Established;
            return;
        }
        if payload.len() == 0 {
            return;
        }
        if self.client_to_network.remaining() < payload.len() {
            return;
        }
        self.client_to_network.read_from(payload);
    }

    fn do_handle_fin(&mut self) -> (r: Option<Reply>)
        requires
            old(self).wf(),
        ensures
            final(self).wf(),
            (final(self)@, r) == spec_do_handle_fin(old(self)@),
    {
        self.tcb.acknowledgement_number = self.tcb.acknowledgement_number.wrapping_add(1);
        if self.tcb.state == TcpState::Established {
            let r = self.reply(FLAG_FIN | FLAG_ACK);
            self.tcb.fin_sequence_number = Some(self.tcb.sequence_number);
            self.tcb.sequence_number = self.tcb.sequence_number.wrapping_add(1);
            self.tcb.state = TcpState::LastAck;
            Some(r)
        } else if self.tcb.state == TcpState::FinWait1 {
            let r = self.reply(FLAG_ACK);
            self.tcb.state = TcpState::Closing;
            Some(r)
        } else if self.tcb.state == TcpState::FinWait2 {
            let r = self.reply(FLAG_ACK);
            self.close();
            Some(r)
        } else {
            None
        }
    }

    fn handle_fin(&mut self) -> (r: Option<Reply>)
        requires
            old(self).wf(),
        ensures
            final(self).wf(),
            (final(self)@, r) == spec_handle_fin(old(self)@),
    {
        self.tcb.fin_received = true;
        if self.client_to_network.is_empty() {
            self.do_handle_fin()
        } else {
            None
        }
    }

    fn handle_fin_ack(&mut self)
        requires
            old(self).wf(),
        ensures
            final(self).wf(),
            final(self)@ == spec_handle_fin_ack(old(self)@),
    {
        if self.tcb.state == TcpState::LastAck || self.tcb.state == TcpState::Closing {
            self.close();
        } else if self.tcb.state == TcpState::FinWait1 {
            self.tcb.state = TcpState::FinWait2;
        }
    }

    /// The reply with the given flags and the current numbers.
    fn reply(&self, flags: u16) -> (r: Reply)
        ensures
            r == reply_of(self@.tcb, flags),
    {
        Reply {
            flags,
            sequence_number: self.tcb.sequence_number,
            acknowledgement_number: self.tcb.acknowledgement_number,
        }
    }

    fn handle_first_packet(&mut self, seg: &TcpHeaderData) -> (r: Option<Reply>)
        requires
            old(self).wf(),
        ensures
            final(self).wf(),
            exists|isn: u32| (final(self)@, r) == spec_handle_first_packet(old(self)@, *seg, isn),
    {
        if seg.is_syn() {
            let their_sequence_number = seg.sequence_number;
            self.tcb.acknowledgement_number = their_sequence_number.wrapping_add(1);
            self.tcb.syn_sequence_number = their_sequence_number;
            let isn = random_u32();
            self.tcb.sequence_number = isn;
            self.tcb.client_window = seg.window;
            self.tcb.state = TcpState::SynSent;
            assert((self@, None::<Reply>) == spec_handle_first_packet(old(self)@, *seg, isn));
            None
        } else {
            self.tcb.sequence_number = seg.acknowledgement_number;
            let r = self.reply(FLAG_RST);
            self.close();
            assert((self@, Some(r)) == spec_handle_first_packet(old(self)@, *seg, 0));
            Some(r)
        }
    }

    fn handle_duplicate_syn(&mut self, seg: &TcpHeaderData) -> (r: Option<Reply>)
        requires
            old(self).wf(),
        ensures
            final(self).wf(),
            (final(self)@, r) == spec_handle_duplicate_syn(old(self)@, *seg),
    {
        let their_sequence_number = seg.sequence_number;
        if self.tcb.state == TcpState::SynSent {
            self.tcb.syn_sequence_number = their_sequence_number;
            self.tcb.acknowledgement_number = their_sequence_number.wrapping_add(1);
            None
        } else if their_sequence_number != self.tcb.syn_sequence_number {
            let r = self.reply(FLAG_RST);
            self.close();
            Some(r)
        } else {
            None
        }
    }

    /// Handles one segment from the device, given its TCP header and payload.
    /// Returns the empty packet to answer with, if any.
    fn handle_segment(&mut self, seg: &TcpHeaderData, payload: &[u8]) -> (r: Option<Reply>)
        requires
            old(self).wf(),
        ensures
            final(self).wf(),
            old(self)@.tcb.state is Init ==> exists|isn: u32|
                (final(self)@, r) == spec_handle_first_packet(old(self)@, *seg, isn),
            !(old(self)@.tcb.state is Init) && has_flag(seg.flags, FLAG_SYN) ==> (final(self)@, r)
                == spec_handle_duplicate_syn(old(self)@, *seg),
            !(old(self)@.tcb.state is Init) && !has_flag(seg.flags, FLAG_SYN) ==> (final(self)@, r)
                == spec_handle_segment(old(self)@, *seg, payload@),
            evolves(old(self)@, final(self)@),
    {
        proof { lemma_segment_evolves(self@, *seg, payload@); }
        if self.tcb.state == TcpState::Init {
            return self.handle_first_packet(seg);
        }
        if seg.is_syn() {
            return self.handle_duplicate_syn(seg);
        }
        proof { self.client_to_network.lemma_len_bound(); }
        let expected_packet = self.tcb.acknowledgement_number.wrapping_add(
            self.client_to_network.size() as u32,
        );
        proof {
            let n = self@.buffered.len() as int;
            assert(n <= CLIENT_TO_NETWORK_CAPACITY);
            assert(expected_packet == seq_add(self.tcb.acknowledgement_number, n));
        }
        if seg.sequence_number != expected_packet {
            return None;
        }
        self.tcb.client_window = seg.window;
        self.tcb.their_acknowledgement_number = seg.acknowledgement_number;
        if seg.is_rst() {
            self.close();
            return None;
        }
        if seg.is_ack() {
            self.handle_ack(payload);
        }
        let mut r = None;
        if seg.is_fin() {
            r = self.handle_fin();
        }
        if let Some(fin_sequence_number) = self.tcb.fin_sequence_number {
            if seg.acknowledgement_number == fin_sequence_number.wrapping_add(1) {
                self.handle_fin_ack();
            }
        }
        r
    }

    /// Handles a TCP packet from the device. Returns the empty packet to
    /// answer with, if any.
    pub fn handle_packet(&mut self, ip_packet: &IpPacket) -> (r: Option<Reply>)
        requires
            old(self).wf(),
            packet_shape(*ip_packet),
            packet_transport_data(*ip_packet) matches Some(TransportHeaderData::Tcp(_)),
        ensures
            final(self).wf(),
            ({
                let seg = packet_transport_data(*ip_packet).unwrap()->Tcp_0;
                let payload = crate::ip_packet::packet_payload(*ip_packet).unwrap();
                &&& old(self)@.tcb.state is Init ==> exists|isn: u32|
                    (final(self)@, r) == spec_handle_first_packet(old(self)@, seg, isn)
                &&& !(old(self)@.tcb.state is Init) && has_flag(seg.flags, FLAG_SYN) ==> (final(self)@, r)
                    == spec_handle_duplicate_syn(old(self)@, seg)
                &&& !(old(self)@.tcb.state is Init) && !has_flag(seg.flags, FLAG_SYN) ==> (final(self)@, r)
                    == spec_handle_segment(old(self)@, seg, payload)
            }),
            evolves(old(self)@, final(self)@),
            final(self)@.packetizer == old(self)@.packetizer,
    {
        let (_, transport) = ip_packet.headers_data();
        let seg = match transport {
            Some(TransportHeaderData::Tcp(t)) => *t,
            _ => vstd::pervasive::unreached(),
        };
        let payload = match ip_packet.payload() {
            Some(p) => p,
            None => vstd::pervasive::unreached(),
        };
        self.handle_segment(&seg, payload)
    }

    /// The network socket connected: answer the device's SYN.
    pub fn on_connected(&mut self) -> (r: Reply)
        requires
            old(self).wf(),
            old(self)@.tcb.state is SynSent,
        ensures
            final(self).wf(),
            r == reply_of(old(self)@.tcb, (FLAG_SYN | FLAG_ACK) as u16),
            final(self)@ == with_tcb(
                old(self)@,
                Tcb {
                    state: TcpState::SynReceived,
                    sequence_number: seq_add(old(self)@.tcb.sequence_number, 1),
                    ..old(self)@.tcb
                },
            ),
            evolves(old(self)@, final(self)@),
            final(self)@.packetizer == old(self)@.packetizer,
    {
        self.tcb.state = TcpState::SynReceived;
        let r = self.reply(FLAG_SYN | FLAG_ACK);
        self.tcb.sequence_number = self.tcb.sequence_number.wrapping_add(1);
        r
    }

    /// Some bytes from the device wait to be written to the network.
    pub fn may_write(&self) -> (b: bool)
        requires
            self.wf(),
        ensures
            b == (self@.buffered.len() > 0),
    {
        !self.client_to_network.is_empty()
    }

    /// The length of the bytes that `pending_chunk` returns.
    pub closed spec fn pending_chunk_len(&self) -> int {
        self.client_to_network.chunk_len()
    }

    /// The next bytes to write to the network: a prefix of the buffered bytes,
    /// empty only when none are buffered.
    pub fn pending_chunk(&self) -> (c: &[u8])
        requires
            self.wf(),
        ensures
            c@ == self@.buffered.take(c@.len() as int),
            c@.len() == self.pending_chunk_len(),
            (c@.len() == 0) == (self@.buffered.len() == 0),
    {
        self.client_to_network.chunk()
    }

    /// `w` bytes of the pending chunk were written to the network (0: the
    /// network side closed). Acknowledges them to the device, or answers a FIN
    /// of the device that waited for them.
    pub fn on_written(&mut self, w: usize) -> (r: Option<Reply>)
        requires
            old(self).wf(),
            w <= old(self).pending_chunk_len(),
        ensures
            final(self).wf(),
            w == 0 ==> final(self)@ == spec_close(old(self)@) && r is None,
            w > 0 ==> {
                let v1 = TcpConnectionView {
                    bytes_sent: old(self)@.bytes_sent.wrapping_add(w as u64),
                    buffered: old(self)@.buffered.skip(w as int),
                    tcb: Tcb {
                        acknowledgement_number: seq_add(old(self)@.tcb.acknowledgement_number, w as int),
                        ..old(self)@.tcb
                    },
                    ..old(self)@
                };
                if v1.tcb.fin_received && v1.buffered.len() == 0 {
                    (final(self)@, r) == spec_do_handle_fin(v1)
                } else {
                    final(self)@ == v1 && r == Some(reply_of(v1.tcb, FLAG_ACK))
                }
            },
            evolves(old(self)@, final(self)@),
            final(self)@.packetizer == old(self)@.packetizer,
    {
        if w == 0 {
            self.close();
            return None;
        }
        proof { self.client_to_network.lemma_chunk_len(); self.client_to_network.lemma_len_bound(); }
        self.bytes_sent = self.bytes_sent.wrapping_add(w as u64);
        self.client_to_network.consume(w);
        proof {
            assert(w <= CLIENT_TO_NETWORK_CAPACITY);
        }
        self.tcb.acknowledgement_number = self.tcb.acknowledgement_number.wrapping_add(w as u32);
        if self.tcb.fin_received && self.client_to_network.is_empty() {
            self.do_handle_fin()
        } else {
            Some(self.reply(FLAG_ACK))
        }
    }

    /// Reading from or writing to the network failed: reset the device's
    /// connection and close.
    pub fn on_io_error(&mut self) -> (r: Reply)
        requires
            old(self).wf(),
        ensures
            final(self).wf(),
            r == reply_of(old(self)@.tcb, FLAG_RST),
            final(self)@ == spec_close(old(self)@),
            evolves(old(self)@, final(self)@),
            final(self)@.packetizer == old(self)@.packetizer,
    {
        let r = self.reply(FLAG_RST);
        self.close();
        r
    }

    /// Data may be read from the network for the device: the connection is
    /// established and not closing, no packet waits, and the device's window
    /// is open.
    pub fn may_read(&self) -> (b: bool)
        ensures
            b == (spec_is_connected(self@.tcb.state) && !spec_is_closed(self@.tcb.state)
                && self@.packet_for_client_length is None && spec_remaining_window(self@.tcb) > 0),
    {
        if !self.tcb.state.is_connected() || self.tcb.state.is_closed() {
            return false;
        }
        if self.packet_for_client_length.is_some() {
            return false;
        }
        self.tcb.remaining_client_window() > 0
    }

    /// The most payload bytes to read from the network for the next packet.
    pub fn receive_limit(&self) -> (n: usize)
        ensures
            n == (if spec_remaining_window(self@.tcb) < MAX_PAYLOAD_LENGTH {
                spec_remaining_window(self@.tcb)
            } else {
                MAX_PAYLOAD_LENGTH
            }),
    {
        let w = self.tcb.remaining_client_window();
        if w < MAX_PAYLOAD_LENGTH {
            w as usize
        } else {
            MAX_PAYLOAD_LENGTH as usize
        }
    }

    /// A packet carrying `payload_length` bytes from the network was built
    /// for the device; `sent` tells whether it could be sent at once. If so,
    /// the sequence number advances by the payload length; if not, the
    /// packet's length `packet_length` and its payload length are kept until
    /// the device can take it.
    pub fn on_received(&mut self, payload_length: u16, packet_length: u16, sent: bool)
        requires
            old(self).wf(),
        ensures
            final(self).wf(),
            final(self)@ == (if sent {
                TcpConnectionView {
                    bytes_received: old(self)@.bytes_received.wrapping_add(payload_length as u64),
                    tcb: Tcb {
                        sequence_number: seq_add(old(self)@.tcb.sequence_number, payload_length as int),
                        ..old(self)@.tcb
                    },
                    ..old(self)@
                }
            } else {
                TcpConnectionView {
                    bytes_received: old(self)@.bytes_received.wrapping_add(payload_length as u64),
                    packet_for_client_length: Some(packet_length),
                    payload_for_client_length: payload_length,
                    ..old(self)@
                }
            }),
            final(self)@.packetizer == old(self)@.packetizer,
    {
        self.bytes_received = self.bytes_received.wrapping_add(payload_length as u64);
        if sent {
            self.tcb.sequence_number = self.tcb.sequence_number.wrapping_add(payload_length as u32);
        } else {
            self.packet_for_client_length = Some(packet_length);
            self.payload_for_client_length = payload_length;
        }
    }

    /// The network side reached end of stream: send a FIN to the device.
    pub fn on_eof(&mut self) -> (r: Reply)
        requires
            old(self).wf(),
        ensures
            final(self).wf(),
            ({
                let t = Tcb {
                    acknowledgement_number: seq_add(old(self)@.tcb.acknowledgement_number, 1),
                    ..old(self)@.tcb
                };
                &&& r == reply_of(t, (FLAG_FIN | FLAG_ACK) as u16)
                &&& final(self)@ == with_tcb(
                    old(self)@,
                    Tcb {
                        fin_sequence_number: Some(t.sequence_number),
                        sequence_number: seq_add(t.sequence_number, 1),
                        state: TcpState::FinWait1,
                        ..t
                    },
                )
            }),
            spec_is_connected(old(self)@.tcb.state) && !spec_is_closed(old(self)@.tcb.state) ==> evolves(
                old(self)@,
                final(self)@,
            ),
            final(self)@.packetizer == old(self)@.packetizer,
    {
        self.tcb.acknowledgement_number = self.tcb.acknowledgement_number.wrapping_add(1);
        let r = self.reply(FLAG_FIN | FLAG_ACK);
        self.tcb.fin_sequence_number = Some(self.tcb.sequence_number);
        self.tcb.sequence_number = self.tcb.sequence_number.wrapping_add(1);
        self.tcb.state = TcpState::FinWait1;
        r
    }

    /// The length of the packet that waits for the device, if any.
    pub fn pending_packet_length(&self) -> (r: Option<u16>)
        ensures
            r == self@.packet_for_client_length,
    {
        self.packet_for_client_length
    }
}

impl PacketSource for TcpConnection {
    open spec fn source_wf(&self) -> bool {
        self.wf()
    }

    /// The packet that waits for the device, built again.
    fn get(&mut self) -> (p: Option<IpPacket<'_>>)
        ensures
            final(self).wf(),
            final(self)@ == (TcpConnectionView { packetizer: final(self)@.packetizer, ..old(self)@ }),
            p is Some <==> old(self)@.packet_for_client_length is Some,
            p matches Some(p) ==> packet_raw(p) == old(self)@.packetizer.buffer.take(
                old(self)@.packet_for_client_length.unwrap() as int,
            ),
            match p {
                Some(IpPacket::V4(q)) => final(q.raw)@ == q.raw@ ==> final(self)@ == old(self)@,
                Some(IpPacket::V6(q)) => final(q.raw)@ == q.raw@ ==> final(self)@ == old(self)@,
                None => final(self)@ == old(self)@,
            },
    {
        if let Some(len) = self.packet_for_client_length {
            Some(self.network_to_client.inflate(len))
        } else {
            None
        }
    }

    /// The waiting packet was sent: advance the sequence number by the length
    /// of its payload, as for a packet sent at once.
    fn next(&mut self)
        ensures
            final(self).wf(),
            final(self)@ == (match old(self)@.packet_for_client_length {
                Some(_) => TcpConnectionView {
                    packet_for_client_length: None,
                    tcb: Tcb {
                        sequence_number: seq_add(
                            old(self)@.tcb.sequence_number,
                            old(self)@.payload_for_client_length as int,
                        ),
                        ..old(self)@.tcb
                    },
                    ..old(self)@
                },
                None => old(self)@,
            }),
            final(self)@.packetizer == old(self)@.packetizer,
    {
        if self.packet_for_client_length.is_some() {
            self.tcb.sequence_number = self.tcb.sequence_number.wrapping_add(
                self.payload_for_client_length as u32,
            );
            self.packet_for_client_length = None;
        }
    }
}

} // verus!
