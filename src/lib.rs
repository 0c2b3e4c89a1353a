//! POLYVAL: a universal hash over GF(2^128), the authenticator of AES-GCM-SIV.
//!
//! Blocks are folded into a running state `S` by Horner's rule: for each
//! block `X`, `S := (S + X) * H`, where `H` is the key and the arithmetic is
//! that of POLYVAL's field.
use vstd::prelude::*;
use zeroize::Zeroize;

pub mod bytes;
pub mod clmul;
pub mod backend;
pub mod soft;
pub mod m128i;
pub mod field;
pub mod laws;
pub mod hmac;

pub use crate::bytes::{BLOCK_SIZE, Block};
use crate::bytes::block_value;
use crate::field::{FieldElement, field_mul};
use crate::soft::U64x2;
use crate::backend::Xmm;

verus! {

/// One Horner step: the block `x` added into the state `s`, times the key `h`.
pub open spec fn absorb(s: u128, h: u128, x: u128) -> u128 {
    field_mul(s ^ x, h)
}

/// The state reached from `s` by absorbing the blocks `xs` in order under key `h`.
pub open spec fn hash_from(h: u128, s: u128, xs: Seq<u128>) -> u128
    decreases xs.len(),
{
    if xs.len() == 0 {
        s
    } else {
        hash_from(h, absorb(s, h, xs[0]), xs.subrange(1, xs.len() as int))
    }
}

/// The POLYVAL hash of the blocks `xs` under key `h`.
pub open spec fn polyval(h: u128, xs: Seq<u128>) -> u128 {
    hash_from(h, 0, xs)
}

/// The POLYVAL universal hash: a key `H` and a running state `S`.
#[derive(Clone)]
pub struct Polyval {
    h: FieldElement<U64x2>,
    s: FieldElement<U64x2>,
}

/// Relies on zeroize's `Zeroize` for `u64`: a volatile write of zero.
#[verifier::external_body]
fn wipe(x: &mut u64)
    ensures
        *final(x) == 0,
    opens_invariants none
    no_unwind
{
    x.zeroize();
}

impl Polyval {
    /// The key `H`, as an integer.
    pub closed spec fn key(&self) -> u128 {
        self.h.value()
    }

    /// The running state `S`, as an integer.
    pub closed spec fn state(&self) -> u128 {
        self.s.value()
    }

    /// Whether `after` is `before` with the block `x` absorbed.
    pub open spec fn absorbed(before: Polyval, x: Block, after: Polyval) -> bool {
        &&& after.key() == before.key()
        &&& after.state() == absorb(before.state(), before.key(), block_value(x))
    }

    /// Start a hash with key `h`; the state is zero.
    pub fn new(h: Block) -> (r: Self)
        ensures
            r.key() == block_value(h),
            r.state() == 0,
    {
        Polyval {
            h: FieldElement::from_bytes(h),
            s: FieldElement::from_register(U64x2::from_u128(0)),
        }
    }

    /// Absorb one block: the block is added into the state, which is then
    /// multiplied by the key.
    pub fn input(&mut self, x: Block)
        ensures
            Polyval::absorbed(*old(self), x, *final(self)),
    {
        let sum = self.s.xor(FieldElement::from_bytes(x));
        self.s = sum.mul(self.h);
    }

    /// Absorb one block and hand the hash back, for chained calls.
    pub fn chain(self, x: Block) -> (r: Self)
        ensures
            Polyval::absorbed(self, x, r),
    {
        let mut p = self;
        p.input(x);
        p
    }

    /// The hash value: the state's byte representation.
    pub fn result(self) -> (r: Block)
        ensures
            block_value(r) == self.state(),
    {
        self.s.to_bytes()
    }
}

impl Drop for Polyval {
    fn drop(&mut self)
        opens_invariants none
        no_unwind
    {
        wipe(&mut self.h.0.low);
        wipe(&mut self.h.0.high);
        wipe(&mut self.s.0.low);
        wipe(&mut self.s.0.high);
    }
}

} // verus!
