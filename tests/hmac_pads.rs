use polyval::hmac::{key_fits, key_pads, IPAD, OPAD};

#[test]
fn short_key_is_zero_padded() {
    let (ipad, opad) = key_pads(&[0x01, 0x02], 4);
    assert_eq!(ipad, vec![0x37, 0x34, 0x36, 0x36]);
    assert_eq!(opad, vec![0x5d, 0x5e, 0x5c, 0x5c]);
}

#[test]
fn empty_key_gives_bare_patterns() {
    let (ipad, opad) = key_pads(&[], 3);
    assert_eq!(ipad, vec![IPAD; 3]);
    assert_eq!(opad, vec![OPAD; 3]);
}

#[test]
fn key_material_past_block_is_unused() {
    let (ipad, opad) = key_pads(&[0xff, 0xff, 0xff], 2);
    assert_eq!(ipad, vec![0xc9, 0xc9]);
    assert_eq!(opad, vec![0xa3, 0xa3]);
}

#[test]
fn long_keys_are_hashed_first() {
    assert!(key_fits(64, 64));
    assert!(key_fits(0, 64));
    assert!(!key_fits(65, 64));
}
