//! Carry-less multiplication of 64-bit lanes, and the lane moves of a
//! 128-bit register.
use vstd::prelude::*;

verus! {

/// Which 64-bit lanes of the two operands a partial carry-less multiply takes.
#[derive(Clone, Copy, Debug, PartialEq, Eq, Structural)]
pub enum PseudoOp {
    /// Low lane of the first operand, low lane of the second.
    LowLow,
    /// High lane of the first operand, low lane of the second.
    HighLow,
    /// Low lane of the first operand, high lane of the second.
    LowHigh,
    /// High lane of the first operand, high lane of the second.
    HighHigh,
}

/// The low 64-bit lane of `x`.
pub open spec fn lo(x: u128) -> u64 {
    x as u64
}

/// The high 64-bit lane of `x`.
pub open spec fn hi(x: u128) -> u64 {
    (x >> 64) as u64
}

/// Whether bit `k` of `b` is set.
pub open spec fn bit(b: u64, k: u64) -> bool {
    (b >> k) & 1 == 1
}

/// The carry-less product of `a` with the low `n` bits of `b`: the exclusive-or
/// of `a << k` over every set bit `k < n` of `b`.
pub open spec fn clmul_bits(a: u64, b: u64, n: nat) -> u128
    decreases n,
{
    if n == 0 {
        0
    } else {
        let k = (n - 1) as u64;
        clmul_bits(a, b, (n - 1) as nat) ^ (if bit(b, k) {
            (a as u128) << k
        } else {
            0
        })
    }
}

/// The carry-less (polynomial over GF(2)) product of two 64-bit values.
pub open spec fn clmul64(a: u64, b: u64) -> u128 {
    clmul_bits(a, b, 64)
}

/// The partial carry-less product of `x` and `y` that `op` selects.
pub open spec fn clmul_op(x: u128, y: u128, op: PseudoOp) -> u128 {
    match op {
        PseudoOp::LowLow => clmul64(lo(x), lo(y)),
        PseudoOp::HighLow => clmul64(hi(x), lo(y)),
        PseudoOp::LowHigh => clmul64(lo(x), hi(y)),
        PseudoOp::HighHigh => clmul64(hi(x), hi(y)),
    }
}

/// `x` with its two 64-bit lanes exchanged.
pub open spec fn swap_halves(x: u128) -> u128 {
    (x << 64) | (x >> 64)
}

/// The low lane of `x` moved into the high lane, the low lane zero.
pub open spec fn low_to_high(x: u128) -> u128 {
    x << 64
}

/// The high lane of `x` moved into the low lane, the high lane zero.
pub open spec fn high_to_low(x: u128) -> u128 {
    x >> 64
}

/// The 128-bit value whose high lane is `h` and low lane is `l`.
pub open spec fn join(h: u64, l: u64) -> u128 {
    ((h as u128) << 64) | (l as u128)
}

pub proof fn lemma_join_lanes(x: u128)
    ensures
        join(hi(x), lo(x)) == x,
{
    assert(((((x >> 64) as u64) as u128) << 64) | ((x as u64) as u128) == x) by (bit_vector);
}

pub proof fn lemma_join_parts(h: u64, l: u64)
    ensures
        lo(join(h, l)) == l,
        hi(join(h, l)) == h,
        join(h, l) as nat == l as nat + 0x1_0000_0000_0000_0000 * (h as nat),
{
    assert((((((h as u128) << 64) | (l as u128)) as u64) == l)) by (bit_vector);
    assert(((((((h as u128) << 64) | (l as u128)) >> 64) as u64) == h)) by (bit_vector);
    assert(((h as u128) << 64) | (l as u128) == (l as u128) + (h as u128) * 0x1_0000_0000_0000_0000)
        by (bit_vector);
}

pub proof fn lemma_join_xor(h1: u64, l1: u64, h2: u64, l2: u64)
    ensures
        join(h1 ^ h2, l1 ^ l2) == join(h1, l1) ^ join(h2, l2),
{
    assert(((((h1 ^ h2) as u128) << 64) | ((l1 ^ l2) as u128)) == ((((h1 as u128) << 64) | (
    l1 as u128)) ^ (((h2 as u128) << 64) | (l2 as u128)))) by (bit_vector);
}

/// Adding `a` into the high lane adds `a << 64` to the whole.
pub proof fn lemma_join_xor_high(h: u64, l: u64, a: u64)
    ensures
        join(h ^ a, l) == join(h, l) ^ ((a as u128) << 64),
{
    assert(((((h ^ a) as u128) << 64) | (l as u128)) == ((((h as u128) << 64) | (l as u128)) ^ ((
    a as u128) << 64))) by (bit_vector);
}

/// Shifting both lanes right by one, the high lane's low bit feeding the low
/// lane's top bit, shifts the whole right by one.
pub proof fn lemma_join_shift(h: u64, l: u64)
    ensures
        join(h >> 1, if h & 1 != 0 {
            (l >> 1) ^ 0x8000_0000_0000_0000
        } else {
            l >> 1
        }) == join(h, l) >> 1,
{
    if h & 1 != 0 {
        assert(h & 1 != 0 ==> (((((h >> 1) as u128) << 64) | (((l >> 1) ^ 0x8000_0000_0000_0000u64) as u128))
            == ((((h as u128) << 64) | (l as u128)) >> 1))) by (bit_vector);
    } else {
        assert(h & 1 == 0 ==> (((((h >> 1) as u128) << 64) | ((l >> 1) as u128)) == ((((h as u128)
            << 64) | (l as u128)) >> 1))) by (bit_vector);
    }
}

/// The partial product over the low `n` bits has no bit at `64 + n` or above.
pub proof fn lemma_clmul_bits_bound(a: u64, b: u64, n: nat)
    requires
        n <= 64,
    ensures
        (clmul_bits(a, b, n) >> 64) >> (n as u128) == 0,
    decreases n,
{
    if n > 0 {
        let k = (n - 1) as u64;
        lemma_clmul_bits_bound(a, b, (n - 1) as nat);
        let x = clmul_bits(a, b, (n - 1) as nat);
        let kk = k as u128;
        assert(kk < 64 && (x >> 64) >> kk == 0 ==> (x >> 64) >> (kk + 1) == 0) by (bit_vector);
        assert(kk < 64 && (x >> 64) >> kk == 0 ==> ((x ^ ((a as u128) << kk)) >> 64) >> (kk + 1)
            == 0) by (bit_vector);
        assert(((n - 1) as nat) as u128 == kk);
        assert((n as u128) == kk + 1);
        if bit(b, k) {
            assert(clmul_bits(a, b, n) == x ^ ((a as u128) << kk));
        } else {
            assert(clmul_bits(a, b, n) == x ^ 0);
            assert(x ^ 0 == x) by (bit_vector);
        }
    } else {
        let z = clmul_bits(a, b, 0);
        assert(z == 0 ==> (z >> 64) >> 0u128 == 0) by (bit_vector);
    }
}

/// One step of the bit-serial product: with `x` held shifted left by
/// `64 - k`, adding `a` at the top and shifting right by one holds `x` with
/// `a << k` added, shifted left by `63 - k`.
pub proof fn lemma_serial_step(x: u128, a: u64, k: u64)
    requires
        k < 64,
        (x >> 64) >> (k as u128) == 0,
    ensures
        ((x << (64 - k) as u128) ^ ((a as u128) << 64)) >> 1 == (x ^ ((a as u128) << k)) << (63
            - k) as u128,
        (x << (64 - k) as u128) >> 1 == x << (63 - k) as u128,
{
    let kk = k as u128;
    let aa = a as u128;
    assert(kk < 64 && (x >> 64) >> kk == 0 && aa < 0x1_0000_0000_0000_0000 ==> ((x << ((64 - kk) as u128)) ^ (aa
        << 64)) >> 1 == (x ^ (aa << kk)) << ((63 - kk) as u128)) by (bit_vector);
    assert(kk < 64 && (x >> 64) >> kk == 0 ==> (x << ((64 - kk) as u128)) >> 1 == x << ((63 - kk) as u128))
        by (bit_vector);
}

/// How a lane's bit is tested in code.
pub proof fn lemma_bit_test(b: u64, k: u64)
    requires
        k < 64,
    ensures
        (b & (1u64 << k) != 0) == bit(b, k),
{
    assert(k < 64 ==> ((b & (1u64 << k) != 0) == ((b >> k) & 1 == 1))) by (bit_vector);
}

} // verus!
