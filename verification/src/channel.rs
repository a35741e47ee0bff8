//! The authenticated-encryption channel: a ChaCha20-Poly1305 context keyed
//! directly with the 32-byte shared secret. Every encryption draws a fresh
//! random 12-byte nonce; decryption is all-or-nothing — a tampered
//! ciphertext or mismatched associated data yields an error, never a
//! partial result.

use vstd::prelude::*;

verus! {

use crate::Error;
use crate::keys::SharedSecret;
use chacha20poly1305::aead::Aead;
use chacha20poly1305::aead::KeyInit;
use rand::RngCore;

/// The ciphertext (with its appended tag) that ChaCha20-Poly1305 produces
/// for a key, nonce, associated data and plaintext.
pub uninterp spec fn chacha_seal(key: Seq<u8>, nonce: Seq<u8>, ad: Seq<u8>, plaintext: Seq<u8>) -> Seq<u8>;

/// The deterministic result of ChaCha20-Poly1305 decryption for a key,
/// nonce, associated data and ciphertext: the plaintext when the tag
/// verifies, nothing otherwise.
pub uninterp spec fn chacha_open(key: Seq<u8>, nonce: Seq<u8>, ad: Seq<u8>, ciphertext: Seq<u8>) -> Option<Seq<u8>>;

/// An encrypted payload together with the nonce it was sealed under.
#[derive(Debug, Clone)]
pub struct EncryptedMessage {
    /// Ciphertext, with the authentication tag appended.
    pub ciphertext: Vec<u8>,
    /// The fresh random nonce drawn for this one encryption.
    pub nonce: [u8; 12],
}

/// The encryption context of one session: an AEAD cipher keyed once, for the
/// session's whole life, with the shared secret. Nonces are not stored;
/// each call draws its own.
pub struct EncryptionContext {
    key: [u8; 32],
}

impl EncryptionContext {
    /// The 32 key bytes this context was built from.
    pub closed spec fn key_view(&self) -> Seq<u8> {
        self.key@
    }

    /// Build the channel context, binding the raw shared secret directly as
    /// the AEAD key.
    pub fn from_shared_secret(shared_secret: &SharedSecret) -> (r: Result<EncryptionContext, Error>)
        ensures
            r matches Ok(ctx) && ctx.key_view() == shared_secret@,
    {
        let key_bytes = shared_secret.as_bytes();
        Ok(EncryptionContext { key: *key_bytes })
    }

    /// Seal a plaintext under this context's key and the given nonce.
    ///
    /// Relies on `chacha20poly1305::ChaCha20Poly1305::new` (`KeyInit`) and
    /// `encrypt` (the `Aead` trait): under the cipher keyed with exactly
    /// these bytes, the ciphertext is a function of key, nonce, associated
    /// data and plaintext, and decrypting it with the same four values
    /// yields the plaintext back. The ciphertext is the message with the
    /// 16-byte tag appended, and the only failure is the cipher's
    /// block-count guard, reached only by messages of 2^32 - 1 blocks of 64
    /// bytes or more — so sealing succeeds for every plaintext below that.
    #[verifier::external_body]
    fn aead_seal(&self, nonce: &[u8; 12], plaintext: &[u8], ad: &[u8]) -> (r: Result<Vec<u8>, Error>)
        ensures
            plaintext@.len() < 0xFFFF_FFFF ==> r is Ok,
            r matches Ok(ct) ==> ct@ == chacha_seal(self.key_view(), nonce@, ad@, plaintext@),
            r matches Ok(ct) ==> chacha_open(self.key_view(), nonce@, ad@, ct@) == Some(plaintext@),
            r matches Ok(ct) ==> ct@.len() == plaintext@.len() + 16,
            r matches Err(e) ==> e is Encoding,
    {
        let cipher = chacha20poly1305::ChaCha20Poly1305::new(
            chacha20poly1305::Key::from_slice(&self.key),
        );
        let n = chacha20poly1305::Nonce::from_slice(nonce);
        let payload = chacha20poly1305::aead::Payload { msg: plaintext, aad: ad };
        match cipher.encrypt(n, payload) {
            Ok(ct) => Ok(ct),
            Err(e) => Err(Error::Encoding(format!("Encryption failed: {}", e))),
        }
    }

    /// Open a ciphertext under this context's key and the given nonce.
    ///
    /// Relies on `chacha20poly1305::ChaCha20Poly1305::new` (`KeyInit`) and
    /// `decrypt` (the `Aead` trait): deterministic in key, nonce, associated
    /// data and ciphertext; it returns the plaintext exactly when the
    /// authentication tag verifies, and reports failure otherwise.
    #[verifier::external_body]
    fn aead_open(&self, nonce: &[u8; 12], ciphertext: &[u8], ad: &[u8]) -> (r: Result<Vec<u8>, Error>)
        ensures
            (r is Ok) == (chacha_open(self.key_view(), nonce@, ad@, ciphertext@) is Some),
            r matches Ok(pt) ==> chacha_open(self.key_view(), nonce@, ad@, ciphertext@) == Some(
                pt@,
            ),
            r matches Err(e) ==> e is Decoding,
    {
        let cipher = chacha20poly1305::ChaCha20Poly1305::new(
            chacha20poly1305::Key::from_slice(&self.key),
        );
        let n = chacha20poly1305::Nonce::from_slice(nonce);
        let payload = chacha20poly1305::aead::Payload { msg: ciphertext, aad: ad };
        match cipher.decrypt(n, payload) {
            Ok(pt) => Ok(pt),
            Err(e) => Err(Error::Decoding(format!("Decryption failed: {}", e))),
        }
    }

    /// Encrypt a plaintext bound to the given associated data, under a fresh
    /// random nonce. Succeeds for every plaintext below the cipher's length
    /// limit; the ciphertext is the plaintext's length plus the 16-byte tag.
    pub fn encrypt(&self, plaintext: &[u8], associated_data: &[u8]) -> (r: Result<
        EncryptedMessage,
        Error,
    >)
        ensures
            plaintext@.len() < 0xFFFF_FFFF ==> r is Ok,
            r matches Ok(m) ==> m.ciphertext@.len() == plaintext@.len() + 16,
            r matches Ok(m) ==> m.ciphertext@ == chacha_seal(
                self.key_view(),
                m.nonce@,
                associated_data@,
                plaintext@,
            ),
            r matches Ok(m) ==> chacha_open(
                self.key_view(),
                m.nonce@,
                associated_data@,
                m.ciphertext@,
            ) == Some(plaintext@),
            r matches Err(e) ==> e is Encoding,
    {
        let nonce = random_nonce();
        match self.aead_seal(&nonce, plaintext, associated_data) {
            Ok(ciphertext) => Ok(EncryptedMessage { ciphertext, nonce }),
            Err(e) => Err(e),
        }
    }

    /// Decrypt a message bound to the given associated data. Succeeds
    /// exactly when the ciphertext authenticates under this key, this nonce
    /// and this associated data; any tampering yields the error, not a
    /// partial plaintext.
    pub fn decrypt(&self, encrypted: &EncryptedMessage, associated_data: &[u8]) -> (r: Result<
        Vec<u8>,
        Error,
    >)
        ensures
            (r is Ok) == (chacha_open(
                self.key_view(),
                encrypted.nonce@,
                associated_data@,
                encrypted.ciphertext@,
            ) is Some),
            r matches Ok(pt) ==> chacha_open(
                self.key_view(),
                encrypted.nonce@,
                associated_data@,
                encrypted.ciphertext@,
            ) == Some(pt@),
            r matches Err(e) ==> e is Decoding,
    {
        self.aead_open(&encrypted.nonce, encrypted.ciphertext.as_slice(), associated_data)
    }
}

/// Round trip: encryption succeeds on every plaintext below the cipher's
/// length limit, and decrypting its output with the same associated data
/// succeeds and returns the original plaintext.
pub fn encrypt_then_decrypt(ctx: &EncryptionContext, plaintext: &[u8], associated_data: &[u8]) -> (r:
    Result<Vec<u8>, Error>)
    ensures
        plaintext@.len() < 0xFFFF_FFFF ==> r is Ok,
        r matches Ok(pt) ==> pt@ == plaintext@,
        r matches Err(e) ==> e is Encoding,
{
    match ctx.encrypt(plaintext, associated_data) {
        Ok(message) => {
            let d = ctx.decrypt(&message, associated_data);
            assert(d is Ok);
            match d {
                Ok(pt) => Ok(pt),
                Err(e) => Err(e),
            }
        },
        Err(e) => Err(e),
    }
}

/// Draw a fresh random 12-byte nonce.
///
/// Relies on `rand::RngCore::fill_bytes` on the thread's cryptographically
/// secure generator; nothing is promised of the bytes drawn.
#[verifier::external_body]
fn random_nonce() -> (r: [u8; 12])
{
    let mut bytes = [0u8; 12];
    rand::thread_rng().fill_bytes(&mut bytes);
    bytes
}

} // verus!
