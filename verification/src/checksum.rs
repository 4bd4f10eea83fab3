//! The Internet checksum (RFC 1071): the one's complement of the one's
//! complement sum of big-endian 16-bit words.
use vstd::prelude::*;
use crate::byte_order::{be_u16, put_u16, lemma_put_u16_read};

verus! {

/// The sum of the first `n` big-endian 16-bit words of `s`.
pub open spec fn word_sum(s: Seq<u8>, n: nat) -> nat
    decreases n,
{
    if n == 0 {
        0
    } else {
        word_sum(s, (n - 1) as nat) + be_u16(s, 2 * (n - 1)) as nat
    }
}

/// The sum of the words of `s`; an odd last byte counts as the high byte of a
/// word whose low byte is zero.
pub open spec fn byte_sum(s: Seq<u8>) -> nat {
    word_sum(s, s.len() / 2) + if s.len() % 2 == 1 {
        s[s.len() - 1] as nat * 256
    } else {
        0
    }
}

/// Adds the carries above 16 bits back into the low 16 bits until none is left.
pub open spec fn fold_carries(x: nat) -> nat
    decreases x,
{
    if x < 0x10000 {
        x
    } else {
        proof {
            lemma_fold_step_decreases(x);
        }
        fold_carries(x % 0x10000 + x / 0x10000)
    }
}

/// The checksum of words whose sum is `sum`.
pub open spec fn internet_checksum(sum: nat) -> u16 {
    (0xffff - fold_carries(sum)) as u16
}

pub proof fn lemma_fold_step_decreases(x: nat)
    requires
        x >= 0x10000,
    ensures
        x % 0x10000 + x / 0x10000 < x,
{
    assert(x % 0x10000 + x / 0x10000 < x) by (nonlinear_arith)
        requires
            x >= 0x10000,
    {
        assert(x == 0x10000 * (x / 0x10000) + x % 0x10000);
        assert(x / 0x10000 >= 1);
    }
}

pub proof fn lemma_fold_carries_bound(x: nat)
    ensures
        fold_carries(x) < 0x10000,
    decreases x,
{
    if x >= 0x10000 {
        lemma_fold_step_decreases(x);
        lemma_fold_carries_bound(x % 0x10000 + x / 0x10000);
    }
}

pub proof fn lemma_word_sum_bound(s: Seq<u8>, n: nat)
    requires
        2 * n <= s.len(),
    ensures
        word_sum(s, n) <= n * 0xffff,
    decreases n,
{
    if n > 0 {
        lemma_word_sum_bound(s, (n - 1) as nat);
    }
}

/// The words of a prefix are the first words of the whole.
pub proof fn lemma_word_sum_prefix(s: Seq<u8>, t: Seq<u8>, n: nat)
    requires
        2 * n <= s.len(),
        2 * n <= t.len(),
        forall|i: int| 0 <= i < 2 * n ==> s[i] == t[i],
    ensures
        word_sum(s, n) == word_sum(t, n),
    decreases n,
{
    if n > 0 {
        lemma_word_sum_prefix(s, t, (n - 1) as nat);
    }
}

/// Folding the carries keeps the value modulo `0xffff`, and keeps a nonzero
/// value nonzero.
pub proof fn lemma_fold_carries_mod(x: nat)
    ensures
        fold_carries(x) % 0xffff == x % 0xffff,
        x > 0 ==> fold_carries(x) > 0,
    decreases x,
{
    if x >= 0x10000 {
        let q = x / 0x10000;
        let r = x % 0x10000;
        lemma_fold_step_decreases(x);
        assert((r + q) % 0xffff == x % 0xffff && r + q > 0) by (nonlinear_arith)
            requires
                x == 0x10000 * q + r,
                q >= 1,
                0 <= r,
        {
            assert(x == 0xffff * q + (q + r));
        }
        assert(x == 0x10000 * q + r) by (nonlinear_arith)
            requires
                q == x / 0x10000,
                r == x % 0x10000,
        {}
        lemma_fold_carries_mod((r + q) as nat);
    }
}

/// Adding its checksum to a sum gives a sum whose carries fold to `0xffff`:
/// what a receiver computes over data that carries its checksum.
pub proof fn lemma_sum_with_checksum(t: nat)
    ensures
        fold_carries(t + internet_checksum(t) as nat) == 0xffff,
{
    let f = fold_carries(t);
    lemma_fold_carries_bound(t);
    lemma_fold_carries_mod(t);
    let c = internet_checksum(t) as nat;
    assert(c == 0xffff - f);
    let u = t + c;
    lemma_fold_carries_mod(u);
    lemma_fold_carries_bound(u);
    assert(u > 0) by {
        if f == 0xffff {
            assert(t > 0) by {
                if t == 0 {
                    assert(fold_carries(0) == 0);
                }
            }
        }
    }
    assert(u % 0xffff == 0) by (nonlinear_arith)
        requires
            u == t + c,
            c == 0xffff - f,
            f % 0xffff == t % 0xffff,
            0 <= f < 0x10000,
    {
        assert(t == 0xffff * (t / 0xffff) + t % 0xffff);
        assert(f == 0xffff * (f / 0xffff) + f % 0xffff);
    }
    let g = fold_carries(u);
    assert(g == 0xffff) by (nonlinear_arith)
        requires
            g % 0xffff == 0,
            0 < g < 0x10000,
    {
        assert(g == 0xffff * (g / 0xffff) + g % 0xffff);
    }
}

/// Writing `v` into the 16-bit field at an even offset adds `v` to the word sum
/// of the data with that field zero.
pub proof fn lemma_word_sum_put(s: Seq<u8>, off: int, v: u16, n: nat)
    requires
        0 <= off,
        off % 2 == 0,
        off + 2 <= 2 * n,
        2 * n <= s.len(),
    ensures
        word_sum(put_u16(s, off, v), n) == word_sum(put_u16(s, off, 0), n) + v as nat,
    decreases n,
{
    let a = put_u16(s, off, v);
    let b = put_u16(s, off, 0);
    lemma_put_u16_read(s, off, v);
    lemma_put_u16_read(s, off, 0);
    let m = (n - 1) as nat;
    let k: int = 2 * m as int;
    if k == off {
        assert forall|i: int| 0 <= i < k implies a[i] == b[i] by {
            assert(a[i] == s[i]);
            assert(b[i] == s[i]);
        }
        lemma_word_sum_prefix(a, b, m);
    } else {
        assert(k > off);
        assert(a[k] == s[k] && b[k] == s[k]);
        assert(a[k + 1] == s[k + 1] && b[k + 1] == s[k + 1]);
        lemma_word_sum_put(s, off, v, m);
    }
}

/// Writing `v` into the 16-bit field at an even offset adds `v` to the byte sum
/// of the data with that field zero.
pub proof fn lemma_byte_sum_put(s: Seq<u8>, off: int, v: u16)
    requires
        0 <= off,
        off % 2 == 0,
        off + 2 <= s.len(),
    ensures
        byte_sum(put_u16(s, off, v)) == byte_sum(put_u16(s, off, 0)) + v as nat,
{
    lemma_put_u16_read(s, off, v);
    lemma_put_u16_read(s, off, 0);
    lemma_word_sum_put(s, off, v, s.len() / 2);
    if s.len() % 2 == 1 {
        let k = s.len() - 1;
        assert(put_u16(s, off, v)[k] == s[k]);
        assert(put_u16(s, off, 0)[k] == s[k]);
    }
}

/// Data whose 16-bit field at an even offset holds the checksum of the rest,
/// together with words summing to `extra`, sums (carries folded) to `0xffff`.
pub proof fn lemma_checksum_verifies(s: Seq<u8>, off: int, extra: nat)
    requires
        0 <= off,
        off % 2 == 0,
        off + 2 <= s.len(),
    ensures
        fold_carries(
            extra + byte_sum(
                put_u16(s, off, internet_checksum(extra + byte_sum(put_u16(s, off, 0)))),
            ),
        ) == 0xffff,
{
    let t = extra + byte_sum(put_u16(s, off, 0));
    lemma_byte_sum_put(s, off, internet_checksum(t));
    lemma_sum_with_checksum(t);
}

/// The byte sum of `s`, added to `acc`.
pub fn add_byte_sum(s: &[u8], acc: u64) -> (r: u64)
    requires
        s@.len() <= 0x2_0000,
        acc <= 0x100_0000_0000,
    ensures
        r == acc + byte_sum(s@),
        r <= acc + 0x2_0000_0000,
{
    let n = s.len() / 2;
    let mut sum = acc;
    let mut i: usize = 0;
    while i < n
        invariant
            n == s@.len() / 2,
            i <= n,
            acc <= 0x100_0000_0000,
            sum == acc + word_sum(s@, i as nat),
            s@.len() <= 0x2_0000,
        decreases n - i,
    {
        proof { lemma_word_sum_bound(s@, i as nat); }
        let w = (s[2 * i] as u64) * 256 + (s[2 * i + 1] as u64);
        sum = sum + w;
        i = i + 1;
    }
    proof { lemma_word_sum_bound(s@, n as nat); }
    if s.len() % 2 == 1 {
        sum = sum + (s[s.len() - 1] as u64) * 256;
    }
    sum
}

/// The byte sum of `s` with the 16-bit field at `off` taken as zero, added to `acc`.
pub fn add_byte_sum_zeroed(s: &[u8], off: usize, acc: u64) -> (r: u64)
    requires
        s@.len() <= 0x2_0000,
        off + 2 <= s@.len(),
        acc <= 0x100_0000_0000,
    ensures
        r == acc + byte_sum(put_u16(s@, off as int, 0)),
        r <= acc + 0x2_0000_0000,
{
    let mut zeroed: Vec<u8> = Vec::new();
    let mut i: usize = 0;
    while i < s.len()
        invariant
            i <= s@.len(),
            off + 2 <= s@.len(),
            zeroed@ == put_u16(s@, off as int, 0).take(i as int),
        decreases s@.len() - i,
    {
        let b = if i == off || i == off + 1 { 0u8 } else { s[i] };
        zeroed.push(b);
        proof {
            lemma_put_u16_read(s@, off as int, 0);
            assert(zeroed@ =~= put_u16(s@, off as int, 0).take(i + 1));
        }
        i = i + 1;
    }
    proof {
        lemma_put_u16_read(s@, off as int, 0);
        assert(zeroed@ =~= put_u16(s@, off as int, 0));
    }
    add_byte_sum(zeroed.as_slice(), acc)
}

/// The checksum of words whose sum is `sum`: carries folded back, then
/// complemented.
pub fn checksum_of_sum(sum: u64) -> (r: u16)
    ensures
        r == internet_checksum(sum as nat),
{
    let mut x = sum;
    while x >= 0x10000
        invariant
            fold_carries(x as nat) == fold_carries(sum as nat),
        decreases x,
    {
        proof { lemma_fold_step_decreases(x as nat); }
        x = x % 0x10000 + x / 0x10000;
    }
    (0xffff - x) as u16
}

} // verus!
