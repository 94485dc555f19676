use ed_signature_test::contract::embedded_message_bytes;
use ed_signature_test::contract::embedded_public_key_bytes;
use ed_signature_test::contract::embedded_signature_bytes;
use ed_signature_test::ed25519::is_valid;
use ed_signature_test::ed25519::parse_public_key;
use ed_signature_test::ed25519::parse_signature;
use ed_signature_test::ed25519::scalar_canonical_check;
use ed_signature_test::ed25519::verify;
use ed_signature_test::ed25519::verify_parsed;
use ed_signature_test::ed25519::ParseError;

/// The little-endian bytes of the Ed25519 group order.
const ORDER: [u8; 32] = [
    0xed, 0xd3, 0xf5, 0x5c, 0x1a, 0x63, 0x12, 0x58, 0xd6, 0x9c, 0xf7, 0xa2, 0xde, 0xf9, 0xde,
    0x14, 0x00, 0x00, 0x00, 0x00, 0x00, 0x00, 0x00, 0x00, 0x00, 0x00, 0x00, 0x00, 0x00, 0x00,
    0x00, 0x10,
];

#[test]
fn public_key_parsing_rejects_wrong_lengths() {
    let pk = embedded_public_key_bytes();
    for len in [0usize, 1, 31, 33, 64] {
        let mut bytes = vec![0u8; len];
        for (i, b) in bytes.iter_mut().enumerate() {
            *b = pk[i % 32];
        }
        assert_eq!(
            parse_public_key(&bytes).err(),
            Some(ParseError::InvalidPublicKey)
        );
    }
}

#[test]
fn public_key_parsing_rejects_a_degenerate_point() {
    // The all-zero encoding is a small-order point, never a usable key.
    assert_eq!(
        parse_public_key(&[0u8; 32]).err(),
        Some(ParseError::InvalidPublicKey)
    );
}

#[test]
fn public_key_parsing_accepts_the_embedded_key() {
    let pk = embedded_public_key_bytes();
    let parsed = parse_public_key(&pk).unwrap();
    assert_eq!(parsed.as_bytes(), &pk[..]);
}

#[test]
fn signature_parsing_rejects_wrong_lengths() {
    let sig = embedded_signature_bytes();
    for len in [0usize, 1, 32, 63, 65, 128] {
        let mut bytes = vec![0u8; len];
        for (i, b) in bytes.iter_mut().enumerate() {
            *b = sig[i % 64];
        }
        assert_eq!(
            parse_signature(&bytes).err(),
            Some(ParseError::InvalidSignature)
        );
    }
}

#[test]
fn signature_parsing_rejects_a_non_canonical_scalar() {
    let good = embedded_signature_bytes();
    // Keep the valid R half, replace S by the group order itself and by the
    // largest possible scalar: both lie outside the canonical range.
    for s_half in [ORDER, [0xffu8; 32]] {
        let mut bytes = [0u8; 64];
        bytes[..32].copy_from_slice(&good[..32]);
        bytes[32..].copy_from_slice(&s_half);
        assert!(!scalar_canonical_check(&s_half));
        assert_eq!(
            parse_signature(&bytes).err(),
            Some(ParseError::InvalidSignature)
        );
    }
}

#[test]
fn signature_parsing_accepts_a_scalar_just_below_the_order() {
    let good = embedded_signature_bytes();
    let mut order_minus_one = ORDER;
    order_minus_one[0] -= 1;
    assert!(scalar_canonical_check(&order_minus_one));
    let mut bytes = [0u8; 64];
    bytes[..32].copy_from_slice(&good[..32]);
    bytes[32..].copy_from_slice(&order_minus_one);
    let parsed = parse_signature(&bytes).unwrap();
    assert_eq!(parsed.as_bytes(), &bytes[..]);
    // A signature with a swapped-in scalar parses, but no longer verifies.
    let pk = parse_public_key(&embedded_public_key_bytes()).unwrap();
    assert!(!verify_parsed(&pk, &embedded_message_bytes(), &parsed));
}

#[test]
fn the_embedded_scenario_verifies() {
    let pk = embedded_public_key_bytes();
    let msg = embedded_message_bytes();
    let sig = embedded_signature_bytes();
    assert_eq!(verify(&pk, &msg, &sig), Ok(true));
    assert!(is_valid(&pk, &msg, &sig));
}

#[test]
fn verification_is_deterministic() {
    let pk = embedded_public_key_bytes();
    let msg = embedded_message_bytes();
    let sig = embedded_signature_bytes();
    let first = verify(&pk, &msg, &sig);
    let second = verify(&pk, &msg, &sig);
    assert_eq!(first, second);
    let bad_msg = [7u8; 64];
    assert_eq!(verify(&pk, &bad_msg, &sig), verify(&pk, &bad_msg, &sig));
}

#[test]
fn tampering_with_the_message_invalidates_the_signature() {
    let pk = embedded_public_key_bytes();
    let sig = embedded_signature_bytes();
    for i in 0..64 {
        let mut msg = embedded_message_bytes();
        msg[i] ^= 0x01;
        assert!(!is_valid(&pk, &msg, &sig));
    }
}

#[test]
fn tampering_with_the_signature_invalidates_it() {
    let pk = embedded_public_key_bytes();
    let msg = embedded_message_bytes();
    for i in 0..64 {
        let mut sig = embedded_signature_bytes();
        sig[i] = sig[i].wrapping_add(1);
        assert!(!is_valid(&pk, &msg, &sig));
    }
}
