use ioscpy::nonce::{hex_string, nonce_hex, random_hex, seeded_bytes};

#[test]
fn hex_is_lowercase_two_digits_per_byte() {
    assert_eq!(hex_string(&[0x00, 0x0f, 0xa0, 0xff]), "000fa0ff");
    assert_eq!(hex_string(&[]), "");
}

#[test]
fn seeded_bytes_follow_the_seed() {
    let seed: u128 = 0x0f0e0d0c0b0a09080706050403020100;
    let b = seeded_bytes(seed, 18);
    for (i, v) in b.iter().enumerate() {
        let expected = (seed >> ((i % 16) * 8)) as u8 ^ (i as u8);
        assert_eq!(*v, expected);
    }
    assert_eq!(b[0], 0);
    assert_eq!(b[16], 16);
}

#[test]
fn nonce_uses_the_random_bytes_when_filled() {
    assert_eq!(nonce_hex(true, &[0xde, 0xad], 7), "dead");
    assert_eq!(nonce_hex(false, &[0xde, 0xad], 0x0102), hex_string(&seeded_bytes(0x0102, 2)));
}

#[test]
fn random_hex_shape() {
    let a = random_hex(16, 1);
    assert_eq!(a.len(), 32);
    assert!(a.chars().all(|c| c.is_ascii_hexdigit() && !c.is_ascii_uppercase()));
    let b = random_hex(16, 1);
    assert_ne!(a, b);
    assert_ne!(a, "0".repeat(32));
    assert_eq!(random_hex(0, 5), "");
}
