use fusion_escrow::hashing::hex_encode;
use fusion_escrow::hashing::keccak256_digest;
use fusion_escrow::hashing::verify_secret;
use sha3::Digest;

#[test]
fn keccak256_matches_known_vector() {
    // The Keccak-256 digest of the empty input is a published constant;
    // this pins both the digest wrapper and the hex wrapper.
    let digest = keccak256_digest(&[]);
    assert_eq!(
        hex_encode(&digest),
        "c5d2460186f7233c927e7db2dcc703c0e500b653ca82273b7bfad8045d85a470"
    );
}

#[test]
fn hex_encode_matches_known_bytes() {
    assert_eq!(hex_encode(&[0xbe, 0xef, 0x00, 0x1a]), "beef001a");
    assert_eq!(hex_encode(&[]), "");
}

#[test]
fn test_secret_verification() {
    let secret = "test_secret";
    let mut hasher = sha3::Keccak256::new();
    hasher.update(secret.as_bytes());
    let expected_hash: [u8; 32] = hasher.finalize().into();

    assert!(verify_secret(secret, &expected_hash));
}

#[test]
fn wrong_hash_is_rejected() {
    let wrong_hash = [0; 32];
    assert!(!verify_secret("test_secret", &wrong_hash));
}

#[test]
fn wrong_secret_is_rejected() {
    let mut hasher = sha3::Keccak256::new();
    hasher.update("test_secret".as_bytes());
    let expected_hash: [u8; 32] = hasher.finalize().into();

    assert!(!verify_secret("test_secre", &expected_hash));
    assert!(!verify_secret("test_secret ", &expected_hash));
    assert!(!verify_secret("", &expected_hash));
}

#[test]
fn digest_wrapper_depends_on_input() {
    assert_ne!(keccak256_digest(b"a"), keccak256_digest(b"b"));
    assert_eq!(keccak256_digest(b"a"), keccak256_digest(b"a"));
}
