//! Ephemeral key exchange: X25519 key pairs and the Diffie-Hellman shared
//! secret. The secret half of a key pair is single-use: deriving a shared
//! secret consumes the pair by move, so a spent secret cannot be reused.

use vstd::prelude::*;

verus! {

#[verifier::external_type_specification]
#[verifier::external_body]
pub struct ExEphemeralSecret(x25519_dalek::EphemeralSecret);

/// The public key that X25519 derives from a 32-byte secret.
pub uninterp spec fn x25519_public(sk: Seq<u8>) -> Seq<u8>;

/// The X25519 Diffie-Hellman function of a 32-byte secret and a peer's
/// 32-byte public key.
pub uninterp spec fn x25519_shared(sk: Seq<u8>, pk: Seq<u8>) -> Seq<u8>;

/// A party's public key: 32 bytes, exchanged in the clear through the relay.
#[derive(Debug, Clone, Copy)]
pub struct PublicKey {
    pub bytes: [u8; 32],
}

/// The 32-byte shared secret both parties derive independently.
pub struct SharedSecret {
    pub(crate) bytes: [u8; 32],
}

impl View for SharedSecret {
    type V = Seq<u8>;

    closed spec fn view(&self) -> Seq<u8> {
        self.bytes@
    }
}

impl SharedSecret {
    /// The raw bytes of the shared secret.
    pub fn as_bytes(&self) -> (r: &[u8; 32])
        ensures
            r@ == self@,
    {
        &self.bytes
    }
}

/// An ephemeral key pair: a single-use secret and its public key.
pub struct KeyPair {
    secret: x25519_dalek::EphemeralSecret,
    public: PublicKey,
    sk: Ghost<Seq<u8>>,
}

impl KeyPair {
    /// The (never exposed) secret scalar, as an abstract byte string.
    pub closed spec fn sk_view(&self) -> Seq<u8> {
        self.sk@
    }

    /// The bytes of the pair's public key.
    pub closed spec fn public_view(&self) -> Seq<u8> {
        self.public.bytes@
    }

    /// The pair's public key is the one X25519 derives from its secret.
    pub open spec fn wf(&self) -> bool {
        self.public_view() == x25519_public(self.sk_view())
    }

    /// Generate a new random key pair.
    pub fn generate() -> (kp: KeyPair)
        ensures
            kp.wf(),
    {
        let (secret, public) = x25519_generate_raw();
        let ghost sk = choose|sk: Seq<u8>| public.bytes@ == x25519_public(sk);
        KeyPair { secret, public, sk: Ghost(sk) }
    }

    /// The public key of this pair.
    pub fn public_key(&self) -> (r: PublicKey)
        ensures
            r.bytes@ == self.public_view(),
    {
        self.public
    }

    /// Derive the shared secret with a peer. Consumes the pair: the secret
    /// is ephemeral and must never be used twice.
    ///
    /// Relies on `x25519_dalek::EphemeralSecret::diffie_hellman`, which
    /// multiplies the peer's public point by this pair's (clamped) secret
    /// scalar; because the result is the scalar product of both secrets and
    /// the base point, the two parties of an exchange derive the same bytes.
    #[verifier::external_body]
    pub fn compute_shared_secret(self, peer_public: &PublicKey) -> (r: SharedSecret)
        ensures
            r@ == x25519_shared(self.sk_view(), peer_public.bytes@),
            forall|sk2: Seq<u8>|
                peer_public.bytes@ == x25519_public(sk2) ==> r@ == x25519_shared(
                    sk2,
                    x25519_public(self.sk_view()),
                ),
    {
        let peer = x25519_dalek::PublicKey::from(peer_public.bytes);
        let shared = self.secret.diffie_hellman(&peer);
        SharedSecret { bytes: *shared.as_bytes() }
    }
}

/// Draw a fresh random X25519 secret together with its public key.
///
/// Relies on `x25519_dalek::EphemeralSecret::random_from_rng` for a fresh
/// random secret and on `x25519_dalek::PublicKey::from`, which derives from
/// any secret the public key bytes that correspond to it.
#[verifier::external_body]
fn x25519_generate_raw() -> (r: (x25519_dalek::EphemeralSecret, PublicKey))
    ensures
        exists|sk: Seq<u8>| r.1.bytes@ == x25519_public(sk),
{
    let secret = x25519_dalek::EphemeralSecret::random_from_rng(rand::thread_rng());
    let public = x25519_dalek::PublicKey::from(&secret);
    (secret, PublicKey { bytes: public.to_bytes() })
}

/// Diffie-Hellman symmetry: for any two generated key pairs, each side's
/// derivation from its own secret and the other side's public key yields
/// bit-identical shared secrets — and each result is exactly the X25519
/// function of that side's secret and the other side's public key.
pub fn derive_mutual_secrets(a: KeyPair, b: KeyPair) -> (r: (SharedSecret, SharedSecret))
    requires
        a.wf(),
        b.wf(),
    ensures
        r.0@ == x25519_shared(a.sk_view(), b.public_view()),
        r.1@ == x25519_shared(b.sk_view(), a.public_view()),
        r.0@ == r.1@,
{
    let pa = a.public_key();
    let pb = b.public_key();
    let sa = a.compute_shared_secret(&pb);
    let sb = b.compute_shared_secret(&pa);
    (sa, sb)
}

} // verus!
