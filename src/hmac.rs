//! The key schedule of HMAC: the inner and outer key pads.
//!
//! A key no longer than the hash's block size is used as it is; a longer key
//! is hashed first. Either way the key material is zero-padded to the block
//! size and added into the two fixed pad patterns.
use vstd::prelude::*;

verus! {

/// The inner pad pattern.
pub const IPAD: u8 = 0x36;

/// The outer pad pattern.
pub const OPAD: u8 = 0x5C;

/// Byte `i` of a pad: the pattern byte, plus byte `i` of the key where the key
/// reaches that far.
pub open spec fn pad_byte(key: Seq<u8>, i: int, pattern: u8) -> u8 {
    if i < key.len() {
        pattern ^ key[i]
    } else {
        pattern
    }
}

/// The pad of `block_size` bytes made from `key` and `pattern`.
pub open spec fn pad_of(key: Seq<u8>, block_size: nat, pattern: u8) -> Seq<u8> {
    Seq::new(block_size, |i: int| pad_byte(key, i, pattern))
}

/// Whether a key of `key_len` bytes is used directly, rather than hashed first.
pub fn key_fits(key_len: usize, block_size: usize) -> (r: bool)
    ensures
        r == (key_len <= block_size),
{
    key_len <= block_size
}

/// The inner and outer pads for the key material `key`: `block_size` bytes
/// each, the key added into the pattern bytes and bytes past the key's end
/// left as the pattern. Key bytes past the block size are not used.
pub fn key_pads(key: &[u8], block_size: usize) -> (r: (Vec<u8>, Vec<u8>))
    ensures
        r.0@ == pad_of(key@, block_size as nat, IPAD),
        r.1@ == pad_of(key@, block_size as nat, OPAD),
{
    let mut ipad: Vec<u8> = Vec::new();
    let mut opad: Vec<u8> = Vec::new();
    let mut i: usize = 0;
    while i < block_size
        invariant
            i <= block_size,
            ipad@ =~= pad_of(key@, i as nat, IPAD),
            opad@ =~= pad_of(key@, i as nat, OPAD),
        decreases block_size - i,
    {
        if i < key.len() {
            ipad.push(IPAD ^ key[i]);
            opad.push(OPAD ^ key[i]);
        } else {
            ipad.push(IPAD);
            opad.push(OPAD);
        }
        i = i + 1;
    }
    (ipad, opad)
}

} // verus!
