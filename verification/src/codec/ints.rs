//! Fixed-width integers as byte strings, little- and big-endian.

use vstd::prelude::*;

verus! {

/// 256 to the power `n`.
pub open spec fn pow256(n: nat) -> nat
    decreases n,
{
    if n == 0 {
        1
    } else {
        256 * pow256((n - 1) as nat)
    }
}

/// The `n` low-order base-256 digits of `x`, least significant first.
pub open spec fn le_bytes(x: nat, n: nat) -> Seq<u8>
    decreases n,
{
    if n == 0 {
        Seq::empty()
    } else {
        seq![(x % 256) as u8] + le_bytes(x / 256, (n - 1) as nat)
    }
}

/// The number whose base-256 digits, least significant first, are `bytes`.
pub open spec fn le_value(bytes: Seq<u8>) -> nat
    decreases bytes.len(),
{
    if bytes.len() == 0 {
        0
    } else {
        bytes[0] as nat + 256 * le_value(bytes.drop_first())
    }
}

/// The `n` low-order base-256 digits of `x`, most significant first.
pub open spec fn be_bytes(x: nat, n: nat) -> Seq<u8>
    decreases n,
{
    if n == 0 {
        Seq::empty()
    } else {
        be_bytes(x / 256, (n - 1) as nat).push((x % 256) as u8)
    }
}

/// The number whose base-256 digits, most significant first, are `bytes`.
pub open spec fn be_value(bytes: Seq<u8>) -> nat
    decreases bytes.len(),
{
    if bytes.len() == 0 {
        0
    } else {
        256 * be_value(bytes.drop_last()) + bytes.last() as nat
    }
}

/// The powers of 256 at the widths in use.
pub proof fn lemma_pow256_values()
    ensures
        pow256(0) == 1,
        pow256(1) == 0x100,
        pow256(2) == 0x1_0000,
        pow256(4) == 0x1_0000_0000,
        pow256(8) == 0x1_0000_0000_0000_0000,
        pow256(16) == 0x1_0000_0000_0000_0000_0000_0000_0000_0000,
{
    reveal_with_fuel(pow256, 17);
}

/// The powers of 256 are positive and do not fall.
pub proof fn lemma_pow256_monotonic(a: nat, b: nat)
    requires
        a <= b,
    ensures
        0 < pow256(a) <= pow256(b),
    decreases b,
{
    if b > 0 {
        if a == b {
            lemma_pow256_monotonic((a - 1) as nat, (b - 1) as nat);
        } else {
            lemma_pow256_monotonic(a, (b - 1) as nat);
        }
    }
}

/// `n` bytes are written.
pub proof fn lemma_le_bytes_len(x: nat, n: nat)
    ensures
        le_bytes(x, n).len() == n,
    decreases n,
{
    if n > 0 {
        lemma_le_bytes_len(x / 256, (n - 1) as nat);
    }
}

/// `n` bytes are written.
pub proof fn lemma_be_bytes_len(x: nat, n: nat)
    ensures
        be_bytes(x, n).len() == n,
    decreases n,
{
    if n > 0 {
        lemma_be_bytes_len(x / 256, (n - 1) as nat);
    }
}

/// Reading back what was written gives the number, as long as it fits.
pub proof fn lemma_le_round_trip(x: nat, n: nat)
    requires
        x < pow256(n),
    ensures
        le_value(le_bytes(x, n)) == x,
    decreases n,
{
    if n > 0 {
        let rest = le_bytes(x / 256, (n - 1) as nat);
        lemma_le_round_trip(x / 256, (n - 1) as nat);
        assert(le_bytes(x, n).drop_first() =~= rest);
    }
}

/// Reading back what was written gives the number, as long as it fits.
pub proof fn lemma_be_round_trip(x: nat, n: nat)
    requires
        x < pow256(n),
    ensures
        be_value(be_bytes(x, n)) == x,
    decreases n,
{
    if n > 0 {
        let rest = be_bytes(x / 256, (n - 1) as nat);
        lemma_be_round_trip(x / 256, (n - 1) as nat);
        assert(be_bytes(x, n).drop_last() =~= rest);
    }
}

/// Appends the `n` low-order bytes of `x`, least significant first.
pub fn push_le(out: &mut Vec<u8>, x: u128, n: usize)
    ensures
        final(out)@ == old(out)@ + le_bytes(x as nat, n as nat),
    decreases n,
{
    if n > 0 {
        out.push((x % 256) as u8);
        push_le(out, x / 256, n - 1);
    }
}

/// Appends the `n` low-order bytes of `x`, most significant first.
pub fn push_be(out: &mut Vec<u8>, x: u128, n: usize)
    ensures
        final(out)@ == old(out)@ + be_bytes(x as nat, n as nat),
    decreases n,
{
    if n > 0 {
        push_be(out, x / 256, n - 1);
        out.push((x % 256) as u8);
    }
}

/// Reads `n` bytes at `at` as a little-endian number.
pub fn read_le(bytes: &[u8], at: usize, n: usize) -> (x: u128)
    requires
        at + n <= bytes@.len(),
        n <= 16,
    ensures
        x == le_value(bytes@.subrange(at as int, at + n)),
        x < pow256(n as nat),
    decreases n,
{
    if n == 0 {
        0
    } else {
        let low: u8 = bytes[at];
        let high: u128 = read_le(bytes, at + 1, n - 1);
        proof {
            assert(bytes@.subrange(at as int, at + n).drop_first() =~= bytes@.subrange(
                at + 1,
                at + n,
            ));
            lemma_pow256_monotonic((n - 1) as nat, 15);
            lemma_pow256_values();
        }
        low as u128 + 256 * high
    }
}

/// Reads `n` bytes at `at` as a big-endian number.
pub fn read_be(bytes: &[u8], at: usize, n: usize) -> (x: u128)
    requires
        at + n <= bytes@.len(),
        n <= 16,
    ensures
        x == be_value(bytes@.subrange(at as int, at + n)),
        x < pow256(n as nat),
    decreases n,
{
    if n == 0 {
        0
    } else {
        let high: u128 = read_be(bytes, at, n - 1);
        // The length is a `usize`, and so is every position up to it.
        let total: usize = bytes.len();
        let low: u8 = bytes[at + (n - 1)];
        proof {
            assert(bytes@.subrange(at as int, at + n).drop_last() =~= bytes@.subrange(
                at as int,
                at + n - 1,
            ));
            lemma_pow256_monotonic((n - 1) as nat, 15);
            lemma_pow256_values();
        }
        256 * high + low as u128
    }
}

/// The two's complement of `x` on `n` bytes, as a natural number.
pub open spec fn unsigned(x: int, n: nat) -> nat {
    if x < 0 {
        (x + pow256(n)) as nat
    } else {
        x as nat
    }
}

/// The number that `v` stands for in two's complement on `n` bytes.
pub open spec fn signed(v: nat, n: nat) -> int {
    if 2 * v >= pow256(n) {
        v - pow256(n)
    } else {
        v as int
    }
}

/// The 64 bits of `x` in two's complement.
pub fn bits_of_i64(x: i64) -> (v: u64)
    ensures
        v == unsigned(x as int, 8),
        signed(v as nat, 8) == x,
{
    proof {
        lemma_pow256_values();
    }
    if x >= 0 {
        x as u64
    } else {
        (x + i64::MAX + 1) as u64 + 0x8000_0000_0000_0000
    }
}

/// The number that the 64 bits `v` stand for in two's complement.
pub fn i64_of_bits(v: u64) -> (x: i64)
    ensures
        x == signed(v as nat, 8),
{
    proof {
        lemma_pow256_values();
    }
    if v >= 0x8000_0000_0000_0000 {
        (v - 0x8000_0000_0000_0000) as i64 - i64::MAX - 1
    } else {
        v as i64
    }
}

/// The 32 bits of `x` in two's complement.
pub fn bits_of_i32(x: i32) -> (v: u32)
    ensures
        v == unsigned(x as int, 4),
        signed(v as nat, 4) == x,
{
    proof {
        lemma_pow256_values();
    }
    if x >= 0 {
        x as u32
    } else {
        (x + i32::MAX + 1) as u32 + 0x8000_0000
    }
}

/// The number that the 32 bits `v` stand for in two's complement.
pub fn i32_of_bits(v: u32) -> (x: i32)
    ensures
        x == signed(v as nat, 4),
{
    proof {
        lemma_pow256_values();
    }
    if v >= 0x8000_0000 {
        (v - 0x8000_0000) as i32 - i32::MAX - 1
    } else {
        v as i32
    }
}

} // verus!
