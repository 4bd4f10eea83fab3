//! Big-endian reads and writes at an offset of a byte slice, through
//! `byteorder::BigEndian`.
use vstd::prelude::*;
use byteorder::{BigEndian, ByteOrder};

verus! {

/// The big-endian 16-bit value of the two bytes of `s` at `off`.
pub open spec fn be_u16(s: Seq<u8>, off: int) -> int {
    s[off] as int * 256 + s[off + 1] as int
}

/// The big-endian 32-bit value of the four bytes of `s` at `off`.
pub open spec fn be_u32(s: Seq<u8>, off: int) -> int {
    be_u16(s, off) * 0x1_0000 + be_u16(s, off + 2)
}

/// `s` with the two big-endian bytes of `n` written at `off`.
pub open spec fn put_u16(s: Seq<u8>, off: int, n: u16) -> Seq<u8> {
    s.update(off, (n / 256) as u8).update(off + 1, (n % 256) as u8)
}

/// `s` with the four big-endian bytes of `n` written at `off`.
pub open spec fn put_u32(s: Seq<u8>, off: int, n: u32) -> Seq<u8> {
    put_u16(put_u16(s, off, (n / 0x1_0000) as u16), off + 2, (n % 0x1_0000) as u16)
}

/// `BigEndian::read_u16` on the bytes of `buf` from `offset`.
#[verifier::external_body]
pub(crate) fn read_u16_at(buf: &[u8], offset: usize) -> (r: u16)
    requires
        offset + 2 <= buf@.len(),
    ensures
        r as int == be_u16(buf@, offset as int),
{
    BigEndian::read_u16(&buf[offset..])
}

/// `BigEndian::read_u32` on the bytes of `buf` from `offset`.
#[verifier::external_body]
pub(crate) fn read_u32_at(buf: &[u8], offset: usize) -> (r: u32)
    requires
        offset + 4 <= buf@.len(),
    ensures
        r as int == be_u32(buf@, offset as int),
{
    BigEndian::read_u32(&buf[offset..])
}

/// `BigEndian::write_u16` into the bytes of `buf` from `offset`.
#[verifier::external_body]
pub(crate) fn write_u16_at(buf: &mut [u8], offset: usize, n: u16)
    requires
        offset + 2 <= old(buf)@.len(),
    ensures
        final(buf)@ == put_u16(old(buf)@, offset as int, n),
{
    BigEndian::write_u16(&mut buf[offset..], n)
}

/// `BigEndian::write_u32` into the bytes of `buf` from `offset`.
#[verifier::external_body]
pub(crate) fn write_u32_at(buf: &mut [u8], offset: usize, n: u32)
    requires
        offset + 4 <= old(buf)@.len(),
    ensures
        final(buf)@ == put_u32(old(buf)@, offset as int, n),
{
    BigEndian::write_u32(&mut buf[offset..], n)
}

/// Reading back a 16-bit value just written gives the value.
pub proof fn lemma_put_u16_read(s: Seq<u8>, off: int, n: u16)
    requires
        0 <= off,
        off + 2 <= s.len(),
    ensures
        be_u16(put_u16(s, off, n), off) == n as int,
        put_u16(s, off, n).len() == s.len(),
        forall|i: int| 0 <= i < s.len() && (i < off || i >= off + 2) ==> #[trigger] put_u16(s, off, n)[i] == s[i],
{
}

/// Reading back a 32-bit value just written gives the value.
pub proof fn lemma_put_u32_read(s: Seq<u8>, off: int, n: u32)
    requires
        0 <= off,
        off + 4 <= s.len(),
    ensures
        be_u32(put_u32(s, off, n), off) == n as int,
        put_u32(s, off, n).len() == s.len(),
        forall|i: int| 0 <= i < s.len() && (i < off || i >= off + 4) ==> #[trigger] put_u32(s, off, n)[i] == s[i],
{
    let t = put_u16(s, off, (n / 0x1_0000) as u16);
    lemma_put_u16_read(s, off, (n / 0x1_0000) as u16);
    lemma_put_u16_read(t, off + 2, (n % 0x1_0000) as u16);
}


/// The two bytes of a 16-bit value are its high and low bytes.
pub proof fn lemma_be_u16_bytes(s: Seq<u8>, off: int)
    requires
        0 <= off,
        off + 2 <= s.len(),
    ensures
        (be_u16(s, off) / 256) as u8 == s[off],
        (be_u16(s, off) % 256) as u8 == s[off + 1],
{
}

/// The four bytes of a 32-bit value, as `put_u32` writes them.
pub proof fn lemma_be_u32_bytes(s: Seq<u8>, off: int)
    requires
        0 <= off,
        off + 4 <= s.len(),
    ensures
        ((be_u32(s, off) / 0x1_0000) as u16 / 256) as u8 == s[off],
        ((be_u32(s, off) / 0x1_0000) as u16 % 256) as u8 == s[off + 1],
        ((be_u32(s, off) % 0x1_0000) as u16 / 256) as u8 == s[off + 2],
        ((be_u32(s, off) % 0x1_0000) as u16 % 256) as u8 == s[off + 3],
{
    let hi = be_u16(s, off);
    let lo = be_u16(s, off + 2);
    assert((hi * 0x1_0000 + lo) / 0x1_0000 == hi) by (nonlinear_arith)
        requires
            0 <= lo < 0x1_0000,
            0 <= hi,
    {}
    assert((hi * 0x1_0000 + lo) % 0x1_0000 == lo) by (nonlinear_arith)
        requires
            0 <= lo < 0x1_0000,
            0 <= hi,
    {}
}

} // verus!
