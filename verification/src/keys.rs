//! Key generation and public-key derivation, done by `ed25519-dalek`,
//! `x25519-dalek` and `rand`.

use vstd::prelude::*;
use rand::RngCore;

verus! {

/// The Ed25519 public key that belongs to a 32-byte secret key.
pub uninterp spec fn ed25519_public_key(secret: Seq<u8>) -> Seq<u8>;

/// The X25519 public key that belongs to a 32-byte secret key.
pub uninterp spec fn x25519_public_key(secret: Seq<u8>) -> Seq<u8>;

/// Calls `SigningKey::from_bytes` and reads the verifying key that it derives.
#[verifier::external_body]
pub(crate) fn ed25519_public_from_secret(secret: &[u8; 32]) -> (public: [u8; 32])
    ensures
        public@ == ed25519_public_key(secret@),
{
    ed25519_dalek::SigningKey::from_bytes(secret).verifying_key().to_bytes()
}

/// Calls `PublicKey::from` on the `StaticSecret` made of `secret`.
#[verifier::external_body]
pub(crate) fn x25519_public_from_secret(secret: &[u8; 32]) -> (public: [u8; 32])
    ensures
        public@ == x25519_public_key(secret@),
{
    x25519_dalek::PublicKey::from(&x25519_dalek::StaticSecret::from(*secret)).to_bytes()
}

/// Calls `SigningKey::generate` with the thread's random generator and
/// returns the secret key's bytes. Nothing is known of a random result.
#[verifier::external_body]
pub(crate) fn random_ed25519_secret() -> [u8; 32] {
    ed25519_dalek::SigningKey::generate(&mut rand::thread_rng()).to_bytes()
}

/// Calls `StaticSecret::random_from_rng` with the thread's random generator
/// and returns the secret's bytes. Nothing is known of a random result.
#[verifier::external_body]
pub(crate) fn random_x25519_secret() -> [u8; 32] {
    x25519_dalek::StaticSecret::random_from_rng(rand::thread_rng()).to_bytes()
}

/// Calls `RngCore::fill_bytes` on the thread's random generator. Nothing is
/// known of a random result.
#[verifier::external_body]
pub(crate) fn random_bytes32() -> [u8; 32] {
    let mut bytes = [0u8; 32];
    rand::thread_rng().fill_bytes(&mut bytes);
    bytes
}

} // verus!
