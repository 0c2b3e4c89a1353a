use polyval::backend::Xmm;
use polyval::clmul::PseudoOp;
use polyval::field::{FieldElement, MASK};
use polyval::m128i::M128i;
use polyval::soft::U64x2;
use polyval::{Block, Polyval};

const OPS: [PseudoOp; 4] = [
    PseudoOp::LowLow,
    PseudoOp::HighLow,
    PseudoOp::LowHigh,
    PseudoOp::HighHigh,
];

fn hex_block(s: &str) -> Block {
    let mut out = [0u8; 16];
    for i in 0..16 {
        out[i] = u8::from_str_radix(&s[2 * i..2 * i + 2], 16).unwrap();
    }
    out
}

fn hash(h: Block, blocks: &[Block]) -> Block {
    let mut p = Polyval::new(h);
    for b in blocks {
        p.input(*b);
    }
    p.result()
}

const H: &str = "25629347589242761d31f826ba4b757b";
const X1: &str = "4f4f95668c83dfb6401762bb2d01a262";
const X2: &str = "d1a24ddd2721d006bbe45f20d3c9f362";

#[test]
fn vclmul_emulation() {
    let a: u128 = 0xada5f29b;
    let b: u128 = 0x2d978a49;
    let op = PseudoOp::LowLow;

    let hard_result: Block = M128i::from_u128(a).clmul(M128i::from_u128(b), op).to_block();
    let soft_result: Block = U64x2::from_u128(a).clmul(U64x2::from_u128(b), op).to_block();

    assert_eq!(&hard_result, &soft_result);
}

#[test]
fn clmul_exact_value() {
    let r = U64x2::from_u128(0xada5f29b).clmul(U64x2::from_u128(0x2d978a49), PseudoOp::LowLow);
    assert_eq!(r, U64x2 { low: 0x129db9eac23bae83, high: 0 });
    let w = M128i::from_u128(0xada5f29b).clmul(M128i::from_u128(0x2d978a49), PseudoOp::LowLow);
    assert_eq!(w, M128i(0x129db9eac23bae83));
}

#[test]
fn clmul_top_bits() {
    let all = u64::MAX as u128;
    let r = U64x2::from_u128(all).clmul(U64x2::from_u128(1u128 << 64), PseudoOp::LowHigh);
    assert_eq!(r, U64x2 { low: u64::MAX, high: 0 });
    let top = 1u128 << 63;
    let r = U64x2::from_u128(top << 64).clmul(U64x2::from_u128(top << 64), PseudoOp::HighHigh);
    assert_eq!(r, U64x2 { low: 0, high: 1u64 << 62 });
}

#[test]
fn backends_agree_on_every_selector() {
    let values: [u128; 5] = [
        0,
        1,
        u128::MAX,
        0x0123_4567_89ab_cdef_fedc_ba98_7654_3210,
        0xdead_beef_0000_0001_8000_0000_0000_0000,
    ];
    for &a in values.iter() {
        for &b in values.iter() {
            for op in OPS.iter() {
                let hard = M128i::from_u128(a).clmul(M128i::from_u128(b), *op).to_block();
                let soft = U64x2::from_u128(a).clmul(U64x2::from_u128(b), *op).to_block();
                assert_eq!(hard, soft);
            }
        }
    }
}

#[test]
fn backends_agree_on_field_product() {
    let a = hex_block(X1);
    let b = hex_block(H);
    let hard = FieldElement::<M128i>::from_bytes(a).mul(FieldElement::from_bytes(b)).to_bytes();
    let soft = FieldElement::<U64x2>::from_bytes(a).mul(FieldElement::from_bytes(b)).to_bytes();
    assert_eq!(hard, soft);
}

#[test]
fn block_loads_little_endian_lanes() {
    let mut b = [0u8; 16];
    for i in 0..16 {
        b[i] = i as u8 + 1;
    }
    let r = U64x2::from_block(b);
    assert_eq!(r.low, 0x0807_0605_0403_0201);
    assert_eq!(r.high, 0x100f_0e0d_0c0b_0a09);
    assert_eq!(M128i::from_block(b), M128i(0x100f_0e0d_0c0b_0a09_0807_0605_0403_0201));
    assert_eq!(r.to_block(), b);
    assert_eq!(M128i::from_block(b).to_block(), b);
}

#[test]
fn lane_moves() {
    let x = U64x2 { low: 1, high: 2 };
    assert_eq!(x.rotate_left(), U64x2 { low: 2, high: 1 });
    assert_eq!(x.shift_right(), U64x2 { low: 0, high: 1 });
    assert_eq!(x.shift_left(), U64x2 { low: 2, high: 0 });
    let y = M128i((2u128 << 64) | 1);
    assert_eq!(y.rotate_left(), M128i((1u128 << 64) | 2));
    assert_eq!(y.shift_right(), M128i(1u128 << 64));
    assert_eq!(y.shift_left(), M128i(2));
}

#[test]
fn field_additive_identity() {
    let a = FieldElement::<U64x2>::from_bytes(hex_block(X1));
    let zero = FieldElement::<U64x2>::from_bytes([0u8; 16]);
    assert_eq!(a.xor(zero).to_bytes(), hex_block(X1));
    assert_eq!(zero.xor(a).to_bytes(), hex_block(X1));
    assert_eq!(a.xor(a).to_bytes(), [0u8; 16]);
}

#[test]
fn one_times_zero_is_zero() {
    let mut one = [0u8; 16];
    one[0] = 1;
    let r = FieldElement::<U64x2>::from_bytes(one).mul(FieldElement::from_bytes([0u8; 16]));
    assert_eq!(r.to_bytes(), [0u8; 16]);
}

#[test]
fn one_times_x_carries_montgomery_factor() {
    let mut one = [0u8; 16];
    one[0] = 1;
    let mut five = [0u8; 16];
    five[0] = 5;
    let r = FieldElement::<U64x2>::from_bytes(one).mul(FieldElement::from_bytes(five));
    assert_ne!(r.to_bytes(), five);
    let unit = FieldElement::<U64x2>::from_register(U64x2::from_u128(MASK));
    let x = FieldElement::<U64x2>::from_bytes(hex_block(X2));
    assert_eq!(unit.mul(x).to_bytes(), hex_block(X2));
}

#[test]
fn reduce_agrees_across_backends() {
    let v = hex_block(X2);
    let hard = FieldElement::<M128i>::from_bytes(v).reduce().to_bytes();
    let soft = FieldElement::<U64x2>::from_bytes(v).reduce().to_bytes();
    assert_eq!(hard, soft);
    assert_ne!(soft, v);
    assert_eq!(FieldElement::<U64x2>::from_bytes([0u8; 16]).reduce().to_bytes(), [0u8; 16]);
}

#[test]
fn rfc_known_answer() {
    let r = hash(hex_block(H), &[hex_block(X1), hex_block(X2)]);
    assert_eq!(r, hex_block("f7a3b47b846119fae5b7866cf5e5b77e"));
}

#[test]
fn order_matters() {
    let ab = hash(hex_block(H), &[hex_block(X1), hex_block(X2)]);
    let ba = hash(hex_block(H), &[hex_block(X2), hex_block(X1)]);
    assert_ne!(ab, ba);
    assert_eq!(ba, hex_block("5e05944dd4bf1e5dc33b4329db97fd88"));
    let aa1 = hash(hex_block(H), &[hex_block(X1), hex_block(X1)]);
    let aa2 = hash(hex_block(H), &[hex_block(X1), hex_block(X1)]);
    assert_eq!(aa1, aa2);
}

#[test]
fn hashing_is_deterministic() {
    let blocks = [hex_block(X1), hex_block(X2), hex_block(H)];
    assert_eq!(hash(hex_block(H), &blocks), hash(hex_block(H), &blocks));
}

#[test]
fn zero_key_gives_zero_block() {
    let r = Polyval::new([0u8; 16]).chain(hex_block(X1)).result();
    assert_eq!(r, [0u8; 16]);
    let mut p = Polyval::new([0u8; 16]);
    p.input([0xffu8; 16]);
    assert_eq!(p.result(), [0u8; 16]);
}

#[test]
fn no_input_gives_zero_block() {
    assert_eq!(Polyval::new(hex_block(H)).result(), [0u8; 16]);
}

#[test]
fn chain_matches_input() {
    let chained = Polyval::new(hex_block(H)).chain(hex_block(X1)).chain(hex_block(X2)).result();
    let mut p = Polyval::new(hex_block(H));
    p.input(hex_block(X1));
    p.input(hex_block(X2));
    assert_eq!(chained, p.result());
}
