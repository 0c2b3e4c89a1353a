//! Laws of the hash, proved from the contracts of the operations.
use vstd::prelude::*;
use crate::Polyval;
use crate::{absorb, hash_from, polyval};
use crate::backend::Xmm;
use crate::bytes::{Block, block_value, lemma_block_value_injective, le_value};
use crate::clmul::{PseudoOp, clmul_bits, clmul_op, bit, hi, lo};
use crate::field::{field_mul, fold, MASK};
use crate::m128i::M128i;
use crate::soft::U64x2;

verus! {

/// The two register backends agree: given registers that hold the same
/// integers, their partial carry-less products under any selector hold the
/// same integer.
pub proof fn lemma_backends_agree(
    ha: M128i,
    hb: M128i,
    sa: U64x2,
    sb: U64x2,
    op: PseudoOp,
    hr: M128i,
    sr: U64x2,
)
    requires
        ha.value() == sa.value(),
        hb.value() == sb.value(),
        hr.value() == clmul_op(ha.value(), hb.value(), op),
        sr.value() == clmul_op(sa.value(), sb.value(), op),
    ensures
        hr.value() == sr.value(),
{
}

/// Zero is the additive identity of the field, and every element is its own
/// additive inverse.
pub proof fn lemma_additive_identity(a: u128)
    ensures
        a ^ 0 == a,
        0 ^ a == a,
        a ^ a == 0,
{
    assert(a ^ 0 == a && 0 ^ a == a && a ^ a == 0) by (bit_vector);
}

proof fn lemma_clmul_bits_zero(a: u64, n: nat)
    ensures
        clmul_bits(a, 0, n) == 0,
        clmul_bits(0, a, n) == 0,
    decreases n,
{
    if n > 0 {
        let k = (n - 1) as u64;
        lemma_clmul_bits_zero(a, (n - 1) as nat);
        assert(!bit(0, k)) by (bit_vector);
        assert(0u128 ^ 0u128 == 0u128) by (bit_vector);
        assert(((0u64 as u128) << k) == 0u128) by (bit_vector);
    }
}

/// Multiplying by the zero element gives zero.
pub proof fn lemma_mul_zero(a: u128)
    ensures
        field_mul(a, 0) == 0,
        field_mul(0, a) == 0,
{
    lemma_clmul_bits_zero(lo(a), 64);
    lemma_clmul_bits_zero(hi(a), 64);
    lemma_clmul_bits_zero(hi(MASK), 64);
    assert(lo(0) == 0 && hi(0) == 0) by (bit_vector);
    assert(0u128 ^ 0u128 == 0u128 && (0u128 << 64u128) == 0u128 && (0u128 >> 64u128) == 0u128
        && ((0u128 << 64u128) | (0u128 >> 64u128)) == 0u128) by (bit_vector);
    assert(fold(0) == 0);
}

/// The element one, times `x`, is `x` where `x` is zero. The product carries
/// the Montgomery factor x^-128, so one times `x` is `x * x^-128` in the
/// field, which is `x` itself only at zero.
pub proof fn lemma_one_times_zero(x: u128)
    requires
        x == 0,
    ensures
        field_mul(1, x) == x,
{
    lemma_mul_zero(1);
}

/// The hash is deterministic: two hashes with the same key and state that
/// absorb the same block reach the same key and state, and give the same
/// result.
pub proof fn lemma_input_deterministic(
    p: Polyval,
    q: Polyval,
    x: Block,
    p2: Polyval,
    q2: Polyval,
    rp: Block,
    rq: Block,
)
    requires
        p.key() == q.key(),
        p.state() == q.state(),
        Polyval::absorbed(p, x, p2),
        Polyval::absorbed(q, x, q2),
        block_value(rp) == p2.state(),
        block_value(rq) == q2.state(),
    ensures
        p2.key() == q2.key(),
        p2.state() == q2.state(),
        rp == rq,
{
    lemma_block_value_injective(rp, rq);
}

proof fn lemma_le_value_zero(b: Seq<u8>)
    requires
        le_value(b) == 0,
    ensures
        forall|i: int| 0 <= i < b.len() ==> b[i] == 0,
    decreases b.len(),
{
    if b.len() > 0 {
        let t = b.subrange(1, b.len() as int);
        lemma_le_value_zero(t);
        assert forall|i: int| 0 <= i < b.len() implies b[i] == 0 by {
            if i > 0 {
                assert(b[i] == t[i - 1]);
            }
        }
    }
}

/// With the zero key, absorbing any block from the zero state gives the
/// zero state, whose result is the zero block.
pub proof fn lemma_zero_key_collapses(p: Polyval, x: Block, q: Polyval, r: Block)
    requires
        p.key() == 0,
        p.state() == 0,
        Polyval::absorbed(p, x, q),
        block_value(r) == q.state(),
    ensures
        q.state() == 0,
        forall|i: int| 0 <= i < 16 ==> r[i] == 0,
{
    lemma_mul_zero(0 ^ block_value(x));
    crate::bytes::lemma_block_halves(r);
    lemma_le_value_zero(r@);
}

/// Chained absorption and absorption in place give the same hash.
pub proof fn lemma_chain_matches_input(
    p: Polyval,
    b1: Block,
    b2: Block,
    c1: Polyval,
    c2: Polyval,
    i1: Polyval,
    i2: Polyval,
    rc: Block,
    ri: Block,
)
    requires
        Polyval::absorbed(p, b1, c1),
        Polyval::absorbed(c1, b2, c2),
        Polyval::absorbed(p, b1, i1),
        Polyval::absorbed(i1, b2, i2),
        block_value(rc) == c2.state(),
        block_value(ri) == i2.state(),
    ensures
        c2.key() == i2.key(),
        c2.state() == i2.state(),
        c2.state() == absorb(absorb(p.state(), p.key(), block_value(b1)), p.key(), block_value(b2)),
        rc == ri,
{
    lemma_block_value_injective(rc, ri);
}

/// Absorbing one more block after a sequence is hashing the longer
/// sequence: the hash is the blocks folded in, in the order given.
pub proof fn lemma_hash_one_more(h: u128, s: u128, xs: Seq<u128>, x: u128)
    ensures
        hash_from(h, s, xs.push(x)) == absorb(hash_from(h, s, xs), h, x),
    decreases xs.len(),
{
    if xs.len() > 0 {
        let t = xs.subrange(1, xs.len() as int);
        lemma_hash_one_more(h, absorb(s, h, xs[0]), t, x);
        assert(xs.push(x).subrange(1, xs.len() as int + 1) =~= t.push(x));
        assert(xs.push(x)[0] == xs[0]);
    } else {
        assert(xs.push(x).subrange(1, 1) =~= Seq::<u128>::empty());
        assert(xs.push(x)[0] == x);
        assert(hash_from(h, absorb(s, h, x), Seq::<u128>::empty()) == absorb(s, h, x));
    }
}

/// Two blocks hashed in one order and in the other: each result is the
/// Horner evaluation in that order.
pub proof fn lemma_two_blocks(h: u128, b1: u128, b2: u128)
    ensures
        polyval(h, seq![b1, b2]) == absorb(absorb(0, h, b1), h, b2),
        polyval(h, seq![b2, b1]) == absorb(absorb(0, h, b2), h, b1),
        b1 == b2 ==> polyval(h, seq![b1, b2]) == polyval(h, seq![b2, b1]),
{
    lemma_hash_one_more(h, 0, seq![b1], b2);
    lemma_hash_one_more(h, 0, seq![b2], b1);
    lemma_hash_one_more(h, 0, Seq::<u128>::empty(), b1);
    lemma_hash_one_more(h, 0, Seq::<u128>::empty(), b2);
    assert(Seq::<u128>::empty().push(b1) =~= seq![b1]);
    assert(Seq::<u128>::empty().push(b2) =~= seq![b2]);
    assert(seq![b1].push(b2) =~= seq![b1, b2]);
    assert(seq![b2].push(b1) =~= seq![b2, b1]);
}

} // verus!
