//! A register emulated as two `u64` lanes, with a bit-serial carry-less
//! multiply.
//!
//! The multiply takes time that depends on the operands: it is not
//! constant-time.
use vstd::prelude::*;
use crate::backend::Xmm;
use crate::bytes::{Block, block_value, lemma_block_halves, read_u64_pair, write_u128_le};
use crate::clmul::{
    PseudoOp, bit, clmul64, clmul_bits, join, lemma_bit_test, lemma_clmul_bits_bound,
    lemma_join_lanes, lemma_join_parts, lemma_join_shift, lemma_join_xor, lemma_join_xor_high,
    lemma_serial_step,
};

verus! {

/// Two `u64` lanes emulating an XMM register.
#[derive(Clone, Copy, Debug, PartialEq, Eq, Structural)]
pub struct U64x2 {
    /// The low lane.
    pub low: u64,
    /// The high lane.
    pub high: u64,
}

/// Carry-less product of `a` and `b`, one bit of `b` at a time, into a 128-bit
/// accumulator held as two lanes.
fn clmul_serial(a: u64, b: u64) -> (r: U64x2)
    ensures
        join(r.high, r.low) == clmul64(a, b),
{
    let mut low: u64 = 0;
    let mut high: u64 = 0;
    let mut i: u64 = 0;
    proof {
        assert(join(0, 0) == 0u128 << 64u128) by (bit_vector);
    }
    while i < 64
        invariant
            i <= 64,
            join(high, low) == clmul_bits(a, b, i as nat) << (64 - i) as u128,
        decreases 64 - i,
    {
        let ghost x = clmul_bits(a, b, i as nat);
        proof {
            lemma_clmul_bits_bound(a, b, i as nat);
            lemma_serial_step(x, a, i);
            lemma_bit_test(b, i);
            lemma_join_xor_high(high, low, a);
        }
        if b & (1u64 << i) != 0 {
            high = high ^ a;
        }
        proof {
            lemma_join_shift(high, low);
        }
        low = low >> 1;
        if high & 1 != 0 {
            low = low ^ 0x8000_0000_0000_0000;
        }
        high = high >> 1;
        i = i + 1;
        proof {
            if bit(b, (i - 1) as u64) {
                assert(clmul_bits(a, b, i as nat) == x ^ ((a as u128) << (i - 1) as u64));
            } else {
                assert(clmul_bits(a, b, i as nat) == x ^ 0);
                assert(x ^ 0 == x) by (bit_vector);
            }
        }
    }
    proof {
        let z = clmul_bits(a, b, 64);
        assert(z << 0u128 == z) by (bit_vector);
    }
    U64x2 { low, high }
}

impl Xmm for U64x2 {
    open spec fn value(&self) -> u128 {
        join(self.high, self.low)
    }

    fn from_block(bytes: Block) -> (r: Self) {
        let (low, high) = read_u64_pair(&bytes);
        proof {
            lemma_block_halves(bytes);
            lemma_join_parts(high, low);
        }
        U64x2 { low, high }
    }

    fn to_block(self) -> (r: Block) {
        let x: u128 = ((self.high as u128) << 64) | (self.low as u128);
        write_u128_le(x)
    }

    fn from_u128(x: u128) -> (r: Self) {
        proof {
            lemma_join_lanes(x);
        }
        U64x2 { low: x as u64, high: (x >> 64) as u64 }
    }

    fn xor(self, rhs: Self) -> (r: Self) {
        proof {
            lemma_join_xor(self.high, self.low, rhs.high, rhs.low);
        }
        U64x2 { low: self.low ^ rhs.low, high: self.high ^ rhs.high }
    }

    fn clmul(self, rhs: Self, op: PseudoOp) -> (r: Self) {
        proof {
            lemma_join_parts(self.high, self.low);
            lemma_join_parts(rhs.high, rhs.low);
        }
        let (a, b) = match op {
            PseudoOp::LowLow => (self.low, rhs.low),
            PseudoOp::HighLow => (self.high, rhs.low),
            PseudoOp::LowHigh => (self.low, rhs.high),
            PseudoOp::HighHigh => (self.high, rhs.high),
        };
        clmul_serial(a, b)
    }

    fn rotate_left(self) -> (r: Self) {
        let (h, l) = (self.high, self.low);
        proof {
            assert(((((l as u128) << 64) | (h as u128))) == (((((h as u128) << 64) | (l as u128))
                << 64) | ((((h as u128) << 64) | (l as u128)) >> 64))) by (bit_vector);
        }
        U64x2 { low: self.high, high: self.low }
    }

    fn shift_right(self) -> (r: Self) {
        let (h, l) = (self.high, self.low);
        proof {
            assert(((((l as u128) << 64) | (0u64 as u128))) == ((((h as u128) << 64) | (l as u128))
                << 64)) by (bit_vector);
        }
        U64x2 { low: 0, high: self.low }
    }

    fn shift_left(self) -> (r: Self) {
        let (h, l) = (self.high, self.low);
        proof {
            assert(((((0u64 as u128) << 64) | (h as u128))) == ((((h as u128) << 64) | (l as u128))
                >> 64)) by (bit_vector);
        }
        U64x2 { low: self.high, high: 0 }
    }
}

} // verus!
