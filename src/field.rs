//! POLYVAL's finite field GF(2^128), defined by the irreducible polynomial
//! x^128 + x^127 + x^126 + x^121 + 1.
//!
//! A product is the 256-bit carry-less product of the two elements, whose low
//! half is folded down by Montgomery reduction and added into the high half.
use vstd::prelude::*;
use crate::backend::Xmm;
use crate::bytes::{Block, block_value};
use crate::clmul::{PseudoOp, clmul_op, high_to_low, low_to_high, swap_halves};

verus! {

/// The polynomial's terms below x^128: bits 127, 126, 121 and 0.
pub const MASK: u128 = 0xc200_0000_0000_0000_0000_0000_0000_0001;

/// The two cross terms of the 256-bit product, added together.
pub open spec fn middle(a: u128, b: u128) -> u128 {
    clmul_op(a, b, PseudoOp::HighLow) ^ clmul_op(a, b, PseudoOp::LowHigh)
}

/// The low 128 bits of the carry-less product of `a` and `b`.
pub open spec fn product_low(a: u128, b: u128) -> u128 {
    clmul_op(a, b, PseudoOp::LowLow) ^ low_to_high(middle(a, b))
}

/// The high 128 bits of the carry-less product of `a` and `b`.
pub open spec fn product_high(a: u128, b: u128) -> u128 {
    clmul_op(a, b, PseudoOp::HighHigh) ^ high_to_low(middle(a, b))
}

/// One folding step: the lanes of `v` exchanged, plus the mask's high lane
/// times the low lane of `v`.
pub open spec fn fold(v: u128) -> u128 {
    swap_halves(v) ^ clmul_op(MASK, v, PseudoOp::HighLow)
}

/// Montgomery reduction of `v`: two folding steps.
pub open spec fn montgomery_reduce(v: u128) -> u128 {
    fold(fold(v))
}

/// POLYVAL's field product of `a` and `b`.
pub open spec fn field_mul(a: u128, b: u128) -> u128 {
    product_high(a, b) ^ montgomery_reduce(product_low(a, b))
}

/// An element of the field, held in a register. Every 128-bit value is a
/// polynomial of degree below 128, so every register value is a reduced
/// element: products are reduced before they are wrapped.
#[derive(Clone, Copy)]
pub struct FieldElement<X: Xmm>(pub X);

impl<X: Xmm> FieldElement<X> {
    /// The 128-bit integer the element stands for.
    pub open spec fn value(self) -> u128 {
        self.0.value()
    }

    /// Wrap a register as a field element.
    pub fn from_register(x: X) -> (r: Self)
        ensures
            r.value() == x.value(),
    {
        FieldElement(x)
    }

    /// Load an element from its byte representation, a little-endian integer.
    pub fn from_bytes(bytes: Block) -> (r: Self)
        ensures
            r.value() == block_value(bytes),
    {
        FieldElement(X::from_block(bytes))
    }

    /// The byte representation of the element.
    pub fn to_bytes(self) -> (r: Block)
        ensures
            block_value(r) == self.value(),
    {
        self.0.to_block()
    }

    /// Fast Montgomery reduction modulo x^128 + x^127 + x^126 + x^121 + 1.
    pub fn reduce(self) -> (r: Self)
        ensures
            r.value() == montgomery_reduce(self.value()),
    {
        let mask = X::from_u128(MASK);
        let a = mask.clmul(self.0, PseudoOp::HighLow);
        let b = self.0.rotate_left().xor(a);
        let c = mask.clmul(b, PseudoOp::HighLow);
        FieldElement(b.rotate_left().xor(c))
    }

    /// Field product: the carry-less product of the two elements, reduced.
    pub fn mul(self, rhs: Self) -> (r: Self)
        ensures
            r.value() == field_mul(self.value(), rhs.value()),
    {
        let t1 = self.0.clmul(rhs.0, PseudoOp::LowLow);
        let t2 = self.0.clmul(rhs.0, PseudoOp::HighLow);
        let t3 = self.0.clmul(rhs.0, PseudoOp::LowHigh);
        let t4 = self.0.clmul(rhs.0, PseudoOp::HighHigh);

        let t2 = t2.xor(t3);
        let t3 = t2.shift_right();
        let t2 = t2.shift_left();
        let t1 = t1.xor(t3);
        let t4 = t4.xor(t2);

        FieldElement(t4).xor(FieldElement(t1).reduce())
    }

    /// Field sum: the exclusive-or of the two elements.
    pub fn xor(self, rhs: Self) -> (r: Self)
        ensures
            r.value() == self.value() ^ rhs.value(),
    {
        FieldElement(self.0.xor(rhs.0))
    }
}

} // verus!
