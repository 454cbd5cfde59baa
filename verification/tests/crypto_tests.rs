use decentpaste::crypto::{
    bytes_eq, decrypt_content, derive_key_from_pin, derive_shared_secret, encrypt_content,
    encrypt_then_decrypt, generate_pin, hash_content, x25519_public_key,
};
use decentpaste::identity::generate_device_identity;

#[test]
fn test_hash_content() {
    let hash1 = hash_content("test");
    let hash2 = hash_content("test");
    let hash3 = hash_content("different");

    assert_eq!(hash1, hash2);
    assert_ne!(hash1, hash3);
}

#[test]
fn test_hash_matches_reference_sha256() {
    // Cross-check the trusted hash wrapper against the crates it relies on.
    let ours = hash_content("hello");
    let digest = <sha2::Sha256 as sha2::Digest>::digest(b"hello");
    let reference = hex::encode(digest);
    assert_eq!(ours, reference);
    assert_eq!(ours.len(), 64);
}

#[test]
fn test_generate_identity_creates_valid_keys() {
    let identity = generate_device_identity("Test Device", 0);

    assert_eq!(identity.public_key.len(), 32);
    assert!(identity.private_key.is_some());
    assert_eq!(identity.private_key.as_ref().unwrap().len(), 32);
    assert!(!identity.device_id.is_empty());
    assert_eq!(identity.device_name, "Test Device");
}

#[test]
fn test_ecdh_key_exchange() {
    // Simulate two devices
    let alice = generate_device_identity("Alice", 0);
    let bob = generate_device_identity("Bob", 0);

    // Alice derives shared secret using her private key + Bob's public key
    let alice_shared =
        derive_shared_secret(alice.private_key.as_ref().unwrap(), &bob.public_key).unwrap();

    // Bob derives shared secret using his private key + Alice's public key
    let bob_shared =
        derive_shared_secret(bob.private_key.as_ref().unwrap(), &alice.public_key).unwrap();

    // Both should derive the same shared secret!
    assert_eq!(alice_shared, bob_shared);
    assert_eq!(alice_shared.len(), 32);
}

#[test]
fn test_different_keypairs_produce_different_secrets() {
    let alice = generate_device_identity("Alice", 0);
    let bob = generate_device_identity("Bob", 0);
    let charlie = generate_device_identity("Charlie", 0);

    let alice_bob =
        derive_shared_secret(alice.private_key.as_ref().unwrap(), &bob.public_key).unwrap();

    let alice_charlie =
        derive_shared_secret(alice.private_key.as_ref().unwrap(), &charlie.public_key).unwrap();

    // Different peer pairs should have different shared secrets
    assert_ne!(alice_bob, alice_charlie);
}

#[test]
fn test_ecdh_with_fixed_keys_commutes() {
    let priv_a = vec![0x01u8; 32];
    let priv_b = vec![0x02u8; 32];
    let pub_a = x25519_public_key(&priv_a);
    let pub_b = x25519_public_key(&priv_b);

    let secret_ab = derive_shared_secret(&priv_a, &pub_b).unwrap();
    let secret_ba = derive_shared_secret(&priv_b, &pub_a).unwrap();
    assert_eq!(secret_ab, secret_ba);
    assert_eq!(secret_ab.len(), 32);
}

#[test]
fn test_derive_shared_secret_rejects_bad_lengths() {
    let short = vec![0u8; 16];
    let good = vec![1u8; 32];
    assert!(matches!(
        derive_shared_secret(&short, &good),
        Err(decentpaste::errors::DecentPasteError::Encryption(_))
    ));
    assert!(matches!(
        derive_shared_secret(&good, &short),
        Err(decentpaste::errors::DecentPasteError::Encryption(_))
    ));
}

#[test]
fn test_generate_pin_format() {
    let pin = generate_pin();
    assert_eq!(pin.len(), 6);
    assert!(pin.chars().all(|c| c.is_ascii_digit()));
}

#[test]
fn test_encrypt_decrypt_round_trip() {
    let key = vec![7u8; 32];
    let content = b"attack at dawn".to_vec();

    let blob = encrypt_content(&content, &key).unwrap();
    assert_eq!(blob.len(), content.len() + 28);
    assert_ne!(&blob[12..12 + content.len()], content.as_slice());

    let plain = decrypt_content(&blob, &key).unwrap();
    assert_eq!(plain, content);

    let round = encrypt_then_decrypt(&content, &key).unwrap();
    assert_eq!(round, content);
}

#[test]
fn test_decrypt_rejects_wrong_key_and_tampering() {
    let key = vec![7u8; 32];
    let other = vec![8u8; 32];
    let content = b"secret".to_vec();

    let blob = encrypt_content(&content, &key).unwrap();
    assert!(decrypt_content(&blob, &other).is_err());

    let mut tampered = blob.clone();
    let last = tampered.len() - 1;
    tampered[last] ^= 1;
    assert!(decrypt_content(&tampered, &key).is_err());

    // Short input and bad key length are rejected outright.
    assert!(decrypt_content(&blob[..8], &key).is_err());
    assert!(encrypt_content(&content, &key[..16]).is_err());
}

#[test]
fn test_derive_key_deterministic() {
    let salt = [1u8; 16];
    let key1 = derive_key_from_pin("1234", &salt).unwrap();
    let key2 = derive_key_from_pin("1234", &salt).unwrap();

    assert_eq!(key1, key2, "Same PIN and salt should produce same key");
    assert_eq!(key1.len(), 32, "Key should be 32 bytes");
}

#[test]
fn test_derive_key_different_pins() {
    let salt = [1u8; 16];
    let key1 = derive_key_from_pin("1234", &salt).unwrap();
    let key2 = derive_key_from_pin("5678", &salt).unwrap();

    assert_ne!(key1, key2, "Different PINs should produce different keys");
}

#[test]
fn test_derive_key_different_salts() {
    let salt1 = [1u8; 16];
    let salt2 = [2u8; 16];
    let key1 = derive_key_from_pin("1234", &salt1).unwrap();
    let key2 = derive_key_from_pin("1234", &salt2).unwrap();

    assert_ne!(key1, key2, "Different salts should produce different keys");
}

#[test]
fn test_bytes_eq_is_exact() {
    let a = vec![1u8, 2, 3];
    let b = vec![1u8, 2, 3];
    let c = vec![1u8, 2, 4];
    let d = vec![1u8, 2];
    assert!(bytes_eq(&a, &b));
    assert!(!bytes_eq(&a, &c));
    assert!(!bytes_eq(&a, &d));
}
