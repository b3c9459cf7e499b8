use mkcert_rs::thumbprint::{compute, to_hex_upper, DIGEST_LEN, THUMBPRINT_LEN};
use sha1::{Digest, Sha1};

#[test]
fn thumbprint_of_nothing() {
    assert_eq!(compute(b""), "DA39A3EE5E6B4B0D3255BFEF95601890AFD80709");
}

#[test]
fn thumbprint_of_abc() {
    assert_eq!(compute(b"abc"), "A9993E364706816ABA3E25717850C26C9CD0D89D");
}

#[test]
fn thumbprint_of_a_longer_message() {
    assert_eq!(
        compute(b"The quick brown fox jumps over the lazy dog"),
        "2FD4E1C67A2D28FCED849EE1BB76E7391B93EB12"
    );
}

#[test]
fn thumbprint_is_not_its_input() {
    let der = b"0123456789ABCDEF0123456789ABCDEF01234567".to_vec();
    assert_ne!(compute(&der).as_bytes(), &der[..]);
}

#[test]
fn thumbprint_is_deterministic() {
    let der: Vec<u8> = (0u8..=255).collect();
    assert_eq!(compute(&der), compute(&der));
    assert_eq!(compute(&der), compute(&der.clone()));
}

#[test]
fn thumbprint_changes_with_any_byte() {
    let der: Vec<u8> = (0u8..64).collect();
    let original = compute(&der);
    for i in 0..der.len() {
        let mut changed = der.clone();
        changed[i] ^= 0x01;
        assert_ne!(compute(&changed), original);
    }
}

#[test]
fn thumbprint_has_forty_upper_case_hex_digits() {
    let thumbprint = compute(b"some certificate");
    assert_eq!(DIGEST_LEN, 20);
    assert_eq!(THUMBPRINT_LEN, 40);
    assert_eq!(thumbprint.len(), THUMBPRINT_LEN);
    assert!(thumbprint
        .chars()
        .all(|c| c.is_ascii_digit() || ('A'..='F').contains(&c)));
}

#[test]
fn hex_is_upper_case_and_high_half_first() {
    assert_eq!(to_hex_upper(&[0x00, 0x0f, 0xa0, 0xff, 0x1b]), "000FA0FF1B");
    assert_eq!(to_hex_upper(&[0x09, 0x0a, 0x90, 0xa9]), "090A90A9");
}

#[test]
fn hex_of_nothing_is_empty() {
    assert_eq!(to_hex_upper(&[]), "");
}

#[test]
fn hex_of_every_byte() {
    for byte in 0u8..=255 {
        assert_eq!(to_hex_upper(&[byte]), format!("{:02X}", byte));
    }
}

#[test]
fn thumbprint_is_the_digest_in_upper_hex() {
    let der: Vec<u8> = (0u8..200).rev().collect();
    let mut hasher = Sha1::new();
    hasher.update(&der);
    let digest = hasher.finalize();
    assert_eq!(compute(&der), format!("{:X}", digest));
    assert_eq!(compute(&der), to_hex_upper(&digest));
}
