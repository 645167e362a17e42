use withdrawal_gateway::nonce::{mk_nonce, NONCE_BYTES};
use withdrawal_gateway::text::decimal;

#[test]
fn nonce_is_lowercase_hex_high_half_first() {
    assert_eq!(mk_nonce(&[]), "");
    assert_eq!(mk_nonce(&[0x00]), "00");
    assert_eq!(mk_nonce(&[0x0f, 0xa5, 0xff, 0x10]), "0fa5ff10");
    assert_eq!(mk_nonce(&[0x01, 0x23, 0x45, 0x67, 0x89, 0xab, 0xcd, 0xef]), "0123456789abcdef");
}

#[test]
fn nonce_of_thirty_two_bytes_has_sixty_four_digits() {
    assert_eq!(NONCE_BYTES, 32);
    let id = mk_nonce(&[0xc3; NONCE_BYTES]);
    assert_eq!(id.len(), 64);
    assert_eq!(id, "c3".repeat(32));
}

#[test]
fn nonces_of_every_byte_differ() {
    let mut seen = std::collections::HashSet::new();
    for byte in 0u8..=255 {
        assert!(seen.insert(mk_nonce(&[byte])));
        assert_eq!(mk_nonce(&[byte]), format!("{:02x}", byte));
    }
    assert_ne!(mk_nonce(&[0x01, 0x10]), mk_nonce(&[0x10, 0x01]));
    assert_ne!(mk_nonce(&[0x00]), mk_nonce(&[0x00, 0x00]));
}

#[test]
fn decimal_has_no_leading_zeros() {
    assert_eq!(decimal(0), "0");
    assert_eq!(decimal(9), "9");
    assert_eq!(decimal(10), "10");
    assert_eq!(decimal(404), "404");
    assert_eq!(decimal(1000), "1000");
    assert_eq!(decimal(65535), "65535");
    for n in [7u16, 42, 100, 299, 300, 5000, 60301] {
        assert_eq!(decimal(n), n.to_string());
    }
}
