//! Little-endian byte layout of blocks and lanes.
use vstd::prelude::*;
use byteorder::{ByteOrder, LittleEndian};

verus! {

/// Size of a block in bytes.
pub const BLOCK_SIZE: usize = 16;

/// A 16-byte block, the unit of input and output.
pub type Block = [u8; 16];

/// The unsigned integer that the bytes `b` encode, least significant byte first.
pub open spec fn le_value(b: Seq<u8>) -> nat
    decreases b.len(),
{
    if b.len() == 0 {
        0
    } else {
        b[0] as nat + 256 * le_value(b.subrange(1, b.len() as int))
    }
}

/// The 128-bit integer that a block encodes.
pub open spec fn block_value(b: Block) -> u128 {
    le_value(b@) as u128
}

pub proof fn lemma_le_value_bound(b: Seq<u8>)
    ensures
        le_value(b) < pow256(b.len()),
    decreases b.len(),
{
    if b.len() > 0 {
        let t = b.subrange(1, b.len() as int);
        lemma_le_value_bound(t);
        let v = le_value(t);
        let p = pow256(t.len());
        assert(b[0] as nat + 256 * v < 256 * p) by (nonlinear_arith)
            requires
                v < p,
                b[0] < 256,
        ;
    }
}

/// `256` raised to the power `n`.
pub open spec fn pow256(n: nat) -> nat
    decreases n,
{
    if n == 0 {
        1
    } else {
        256 * pow256((n - 1) as nat)
    }
}

pub proof fn lemma_le_value_split(b: Seq<u8>, k: nat)
    requires
        k <= b.len(),
    ensures
        le_value(b) == le_value(b.subrange(0, k as int)) + pow256(k) * le_value(
            b.subrange(k as int, b.len() as int),
        ),
    decreases k,
{
    if k > 0 {
        let t = b.subrange(1, b.len() as int);
        lemma_le_value_split(t, (k - 1) as nat);
        let pre = b.subrange(0, k as int);
        assert(pre.subrange(1, pre.len() as int) =~= t.subrange(0, k - 1));
        assert(t.subrange(k - 1, t.len() as int) =~= b.subrange(k as int, b.len() as int));
        let x = le_value(t.subrange(0, k - 1));
        let y = le_value(b.subrange(k as int, b.len() as int));
        let p = pow256((k - 1) as nat);
        assert(256 * (x + p * y) == 256 * x + (256 * p) * y) by (nonlinear_arith);
        assert(pre[0] == b[0]);
        assert(le_value(pre) == pre[0] as nat + 256 * x);
        assert(le_value(b) == b[0] as nat + 256 * le_value(t));
        assert(pow256(k) == 256 * p);
    } else {
        assert(b.subrange(0, 0) =~= Seq::<u8>::empty());
        assert(b.subrange(0, b.len() as int) =~= b);
        assert(le_value(Seq::<u8>::empty()) == 0);
        assert(pow256(0) == 1);
    }
}

/// A block's value is its low eight bytes plus `2^64` times its high eight bytes.
pub proof fn lemma_block_halves(b: Block)
    ensures
        le_value(b@.subrange(0, 8)) < 0x1_0000_0000_0000_0000,
        le_value(b@.subrange(8, 16)) < 0x1_0000_0000_0000_0000,
        le_value(b@) < 0x1_0000_0000_0000_0000_0000_0000_0000_0000,
        le_value(b@) == le_value(b@.subrange(0, 8)) + 0x1_0000_0000_0000_0000 * le_value(
            b@.subrange(8, 16),
        ),
{
    lemma_le_value_split(b@, 8);
    lemma_le_value_bound(b@.subrange(0, 8));
    lemma_le_value_bound(b@.subrange(8, 16));
    lemma_le_value_bound(b@);
    reveal_with_fuel(pow256, 17);
    assert(pow256(8) == 0x1_0000_0000_0000_0000);
    assert(pow256(16) == 0x1_0000_0000_0000_0000_0000_0000_0000_0000);
}

/// Relies on byteorder's `LittleEndian::read_u64_into`: sixteen bytes read as two
/// little-endian `u64`, the first eight bytes giving the first.
#[verifier::external_body]
pub(crate) fn read_u64_pair(bytes: &Block) -> (r: (u64, u64))
    ensures
        r.0 as nat == le_value(bytes@.subrange(0, 8)),
        r.1 as nat == le_value(bytes@.subrange(8, 16)),
{
    let mut lanes = [0u64; 2];
    LittleEndian::read_u64_into(bytes, &mut lanes);
    (lanes[0], lanes[1])
}

/// Relies on byteorder's `LittleEndian::read_u128`: sixteen bytes read as one
/// little-endian `u128`.
#[verifier::external_body]
pub(crate) fn read_u128_le(bytes: &Block) -> (r: u128)
    ensures
        r as nat == le_value(bytes@),
{
    LittleEndian::read_u128(bytes)
}

/// Relies on byteorder's `LittleEndian::write_u128`: `x` written as sixteen
/// little-endian bytes.
#[verifier::external_body]
pub(crate) fn write_u128_le(x: u128) -> (r: Block)
    ensures
        le_value(r@) == x as nat,
{
    let mut out = [0u8; 16];
    LittleEndian::write_u128(&mut out, x);
    out
}

/// Two blocks that encode the same integer are the same block.
pub proof fn lemma_block_value_injective(a: Block, b: Block)
    requires
        block_value(a) == block_value(b),
    ensures
        a == b,
{
    lemma_block_halves(a);
    lemma_block_halves(b);
    lemma_le_value_injective(a@, b@);
    assert(a@ == b@);
}

pub proof fn lemma_le_value_injective(a: Seq<u8>, b: Seq<u8>)
    requires
        a.len() == b.len(),
        le_value(a) == le_value(b),
    ensures
        a =~= b,
    decreases a.len(),
{
    if a.len() > 0 {
        let ta = a.subrange(1, a.len() as int);
        let tb = b.subrange(1, b.len() as int);
        let x = le_value(ta);
        let y = le_value(tb);
        let a0 = a[0] as nat;
        let b0 = b[0] as nat;
        assert(a0 == b0 && x == y) by (nonlinear_arith)
            requires
                a0 + 256 * x == b0 + 256 * y,
                a0 < 256,
                b0 < 256,
        ;
        lemma_le_value_injective(ta, tb);
        assert forall|i: int| 0 <= i < a.len() implies a[i] == b[i] by {
            if i > 0 {
                assert(a[i] == ta[i - 1]);
                assert(b[i] == tb[i - 1]);
            }
        }
    }
}

} // verus!
