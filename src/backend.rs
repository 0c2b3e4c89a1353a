//! The operations that field arithmetic expects of a 128-bit register.
use vstd::prelude::*;
use crate::bytes::{Block, block_value};
use crate::clmul::{PseudoOp, clmul_op, swap_halves, low_to_high, high_to_low};

verus! {

/// A 128-bit register, seen as the integer `value()` whose low 64 bits are the
/// low lane. Every implementation meets the same contracts, so field
/// arithmetic over any of them gives the same results.
pub trait Xmm: Sized + Copy {
    /// The 128-bit integer the register holds.
    spec fn value(&self) -> u128;

    /// Load a block, read as a little-endian integer.
    fn from_block(bytes: Block) -> (r: Self)
        ensures
            r.value() == block_value(bytes),
    ;

    /// Store the register as a little-endian block.
    fn to_block(self) -> (r: Block)
        ensures
            block_value(r) == self.value(),
    ;

    /// Load a 128-bit integer.
    fn from_u128(x: u128) -> (r: Self)
        ensures
            r.value() == x,
    ;

    /// Exclusive-or of two registers.
    fn xor(self, rhs: Self) -> (r: Self)
        ensures
            r.value() == self.value() ^ rhs.value(),
    ;

    /// Carry-less product of the two 64-bit lanes that `op` selects.
    fn clmul(self, rhs: Self, op: PseudoOp) -> (r: Self)
        ensures
            r.value() == clmul_op(self.value(), rhs.value(), op),
    ;

    /// Rotate the contents of the register by 64 bits: the lanes trade places.
    fn rotate_left(self) -> (r: Self)
        ensures
            r.value() == swap_halves(self.value()),
    ;

    /// Move the low lane into the high lane; the low lane becomes zero.
    fn shift_right(self) -> (r: Self)
        ensures
            r.value() == low_to_high(self.value()),
    ;

    /// Move the high lane into the low lane; the high lane becomes zero.
    fn shift_left(self) -> (r: Self)
        ensures
            r.value() == high_to_low(self.value()),
    ;
}

} // verus!
