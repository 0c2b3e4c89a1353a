//! A register held whole, as one 128-bit integer, with a carry-less multiply
//! that adds shifted copies of one lane into a 128-bit accumulator.
use vstd::prelude::*;
use crate::backend::Xmm;
use crate::bytes::{Block, block_value, read_u128_le, write_u128_le};
use crate::clmul::{PseudoOp, bit, clmul64, clmul_bits};

verus! {

/// A 128-bit register held as one `u128`, lane by lane in native order.
#[derive(Clone, Copy, Debug, PartialEq, Eq, Structural)]
pub struct M128i(pub u128);

/// Carry-less product of `a` and `b`: `a << k` added in for every set bit `k` of `b`.
fn clmul_wide(a: u64, b: u64) -> (r: u128)
    ensures
        r == clmul64(a, b),
{
    let mut acc: u128 = 0;
    let mut i: u64 = 0;
    while i < 64
        invariant
            i <= 64,
            acc == clmul_bits(a, b, i as nat),
        decreases 64 - i,
    {
        let ghost x = acc;
        if (b >> i) & 1 == 1 {
            acc = acc ^ ((a as u128) << i);
        }
        i = i + 1;
        proof {
            if !bit(b, (i - 1) as u64) {
                assert(x ^ 0 == x) by (bit_vector);
            }
        }
    }
    acc
}

impl Xmm for M128i {
    open spec fn value(&self) -> u128 {
        self.0
    }

    fn from_block(bytes: Block) -> (r: Self) {
        M128i(read_u128_le(&bytes))
    }

    fn to_block(self) -> (r: Block) {
        write_u128_le(self.0)
    }

    fn from_u128(x: u128) -> (r: Self) {
        M128i(x)
    }

    fn xor(self, rhs: Self) -> (r: Self) {
        M128i(self.0 ^ rhs.0)
    }

    fn clmul(self, rhs: Self, op: PseudoOp) -> (r: Self) {
        let (a, b) = match op {
            PseudoOp::LowLow => (self.0 as u64, rhs.0 as u64),
            PseudoOp::HighLow => ((self.0 >> 64) as u64, rhs.0 as u64),
            PseudoOp::LowHigh => (self.0 as u64, (rhs.0 >> 64) as u64),
            PseudoOp::HighHigh => ((self.0 >> 64) as u64, (rhs.0 >> 64) as u64),
        };
        M128i(clmul_wide(a, b))
    }

    fn rotate_left(self) -> (r: Self) {
        M128i((self.0 << 64) | (self.0 >> 64))
    }

    fn shift_right(self) -> (r: Self) {
        M128i(self.0 << 64)
    }

    fn shift_left(self) -> (r: Self) {
        M128i(self.0 >> 64)
    }
}

} // verus!
