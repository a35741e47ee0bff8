use ada_remote::channel::EncryptionContext;
use ada_remote::keys::{derive_mutual_secrets, KeyPair};
use ada_remote::password::{generate_session_password, hash_password, verify_fresh_hash, verify_password};
use ada_remote::Error;

#[test]
fn test_key_exchange() {
    let alice = KeyPair::generate();
    let bob = KeyPair::generate();

    let alice_public = alice.public_key();
    let bob_public = bob.public_key();

    let alice_shared = alice.compute_shared_secret(&bob_public);
    let bob_shared = bob.compute_shared_secret(&alice_public);

    assert_eq!(alice_shared.as_bytes(), bob_shared.as_bytes());
}

#[test]
fn test_encryption_decryption() {
    let pair = KeyPair::generate();
    let own_public = pair.public_key();
    let shared_secret = pair.compute_shared_secret(&own_public);

    let ctx = EncryptionContext::from_shared_secret(&shared_secret).unwrap();

    let plaintext = b"Hello, Ada Remote!";
    let aad = b"session-123";

    let encrypted = ctx.encrypt(plaintext, aad).unwrap();
    let decrypted = ctx.decrypt(&encrypted, aad).unwrap();

    assert_eq!(plaintext.as_slice(), decrypted.as_slice());
}

#[test]
fn test_decrypt_wrong_associated_data_fails() {
    let pair = KeyPair::generate();
    let own_public = pair.public_key();
    let shared_secret = pair.compute_shared_secret(&own_public);
    let ctx = EncryptionContext::from_shared_secret(&shared_secret).unwrap();

    let encrypted = ctx.encrypt(b"payload", b"context-a").unwrap();
    let result = ctx.decrypt(&encrypted, b"context-b");
    assert!(result.is_err());
    assert!(matches!(result, Err(Error::Decoding(_))));
}

#[test]
fn test_decrypt_tampered_ciphertext_fails() {
    let pair = KeyPair::generate();
    let own_public = pair.public_key();
    let shared_secret = pair.compute_shared_secret(&own_public);
    let ctx = EncryptionContext::from_shared_secret(&shared_secret).unwrap();

    let mut encrypted = ctx.encrypt(b"payload", b"context").unwrap();
    encrypted.ciphertext[0] ^= 0x01;
    let result = ctx.decrypt(&encrypted, b"context");
    assert!(result.is_err());
}

#[test]
fn test_password_hashing() {
    let password = "secure-password-123";
    let hash = hash_password(password).unwrap();

    assert!(verify_password(password, &hash).unwrap());
    assert!(!verify_password("wrong-password", &hash).unwrap());
}

#[test]
fn test_verify_fresh_hash_accepts() {
    assert!(verify_fresh_hash("any-password").unwrap());
}

#[test]
fn test_verify_password_malformed_hash_errors() {
    let result = verify_password("password", "not-a-hash-string");
    assert!(matches!(result, Err(Error::Authentication(_))));
}

#[test]
fn test_session_password_generation() {
    let password = generate_session_password();
    assert_eq!(password.len(), 9);
    assert!(password.chars().all(|c| c.is_ascii_digit()));
}

#[test]
fn test_derive_mutual_secrets_agree() {
    let alice = KeyPair::generate();
    let bob = KeyPair::generate();
    let (sa, sb) = derive_mutual_secrets(alice, bob);
    assert_eq!(sa.as_bytes(), sb.as_bytes());
}

#[test]
fn test_ciphertext_length_is_plaintext_plus_tag() {
    let pair = KeyPair::generate();
    let own_public = pair.public_key();
    let shared_secret = pair.compute_shared_secret(&own_public);
    let ctx = EncryptionContext::from_shared_secret(&shared_secret).unwrap();

    let encrypted = ctx.encrypt(b"sixteen-byte-msg", b"ad").unwrap();
    assert_eq!(encrypted.ciphertext.len(), 16 + 16);
    let empty = ctx.encrypt(b"", b"ad").unwrap();
    assert_eq!(empty.ciphertext.len(), 16);
}
