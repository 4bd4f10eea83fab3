//! Hexadecimal dumps of packets and big-endian integer encoding.
use vstd::prelude::*;
use byteorder::{BigEndian, ByteOrder};
use crate::text::{push_char, hex_char, hex_digit, decimal, push_decimal};

verus! {

/// At most this many bytes of a packet are shown in its dump.
pub const MAX_STRING_PACKET_SIZE: usize = 20;

/// Writes `value` in big-endian order into the first four bytes of `raw`,
/// through `byteorder::BigEndian::write_u32`.
#[verifier::external_body]
fn write_u32_be(raw: &mut [u8; 4], value: u32)
    ensures
        final(raw)@ == seq![
            (value / 0x100_0000) as u8,
            ((value / 0x1_0000) % 256) as u8,
            ((value / 256) % 256) as u8,
            (value % 256) as u8,
        ],
{
    BigEndian::write_u32(raw, value);
}

/// The four big-endian bytes of `value`.
pub open spec fn be_bytes_u32(value: u32) -> Seq<u8> {
    seq![
        (value / 0x100_0000) as u8,
        ((value / 0x1_0000) % 256) as u8,
        ((value / 256) % 256) as u8,
        (value % 256) as u8,
    ]
}

pub fn to_byte_array(value: u32) -> (raw: [u8; 4])
    ensures
        raw@ == be_bytes_u32(value),
{
    let mut raw = [0u8; 4];
    write_u32_be(&mut raw, value);
    raw
}

/// The separator written before the byte at index `i` of a dump.
pub open spec fn dump_separator(i: int) -> Seq<char> {
    if i == 0 {
        Seq::empty()
    } else if i % 4 == 0 {
        seq![' ', ' ']
    } else {
        seq![' ']
    }
}

/// Two upper-case hexadecimal digits of a byte.
pub open spec fn hex_byte(b: u8) -> Seq<char> {
    seq![hex_digit((b / 16) as int), hex_digit((b % 16) as int)]
}

/// The dump of the first `n` bytes of `data`: bytes in hexadecimal, one space
/// between bytes and two spaces between groups of four.
pub open spec fn dump_bytes(data: Seq<u8>, n: int) -> Seq<char>
    decreases n,
{
    if n <= 0 {
        Seq::empty()
    } else {
        dump_bytes(data, n - 1) + dump_separator(n - 1) + hex_byte(data[n - 1])
    }
}

/// The dump of a packet: at most `MAX_STRING_PACKET_SIZE` bytes, followed by
/// the count of the bytes left out, if any.
pub open spec fn packet_string(data: Seq<u8>) -> Seq<char> {
    let limit = if data.len() < MAX_STRING_PACKET_SIZE { data.len() as int } else {
        MAX_STRING_PACKET_SIZE as int
    };
    if limit < data.len() {
        dump_bytes(data, limit) + seq![' ', ' ', '.', '.', '.', ' ', '+'] + decimal(
            (data.len() - limit) as nat,
        ) + seq![' ', 'b', 'y', 't', 'e', 's']
    } else {
        dump_bytes(data, limit)
    }
}

fn push_str_chars(s: &mut String, chars: &[char])
    ensures
        final(s)@ == old(s)@ + chars@,
{
    let mut i: usize = 0;
    while i < chars.len()
        invariant
            i <= chars@.len(),
            s@ == old(s)@ + chars@.take(i as int),
        decreases chars@.len() - i,
    {
        push_char(s, chars[i]);
        assert(chars@.take(i + 1) =~= chars@.take(i as int).push(chars@[i as int]));
        i = i + 1;
    }
    assert(chars@.take(chars@.len() as int) =~= chars@);
}

pub fn build_packet_string(data: &[u8]) -> (s: String)
    ensures
        s@ == packet_string(data@),
{
    let mut s = String::new();
    let limit = if data.len() < MAX_STRING_PACKET_SIZE { data.len() } else { MAX_STRING_PACKET_SIZE };
    let mut i: usize = 0;
    while i < limit
        invariant
            limit <= data@.len(),
            i <= limit,
            s@ == dump_bytes(data@, i as int),
        decreases limit - i,
    {
        let ghost before = s@;
        if i != 0 {
            if i % 4 == 0 {
                push_char(&mut s, ' ');
                push_char(&mut s, ' ');
            } else {
                push_char(&mut s, ' ');
            }
        }
        let byte = data[i];
        push_char(&mut s, hex_char(byte / 16));
        push_char(&mut s, hex_char(byte % 16));
        assert(s@ =~= before + dump_separator(i as int) + hex_byte(data@[i as int]));
        i = i + 1;
    }
    if limit < data.len() {
        let ghost before = s@;
        push_str_chars(&mut s, &[' ', ' ', '.', '.', '.', ' ', '+']);
        push_decimal(&mut s, (data.len() - limit) as u64);
        push_str_chars(&mut s, &[' ', 'b', 'y', 't', 'e', 's']);
        assert(s@ =~= packet_string(data@));
    }
    s
}

} // verus!
