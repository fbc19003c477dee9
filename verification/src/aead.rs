//! ChaCha20-Poly1305 without associated data, computed by the
//! `chacha20poly1305` crate.

use vstd::prelude::*;
use chacha20poly1305::aead::Aead;
use chacha20poly1305::KeyInit;

verus! {

/// What ChaCha20-Poly1305 encryption returns for a 32-byte key, a 12-byte
/// nonce and a plaintext, with no associated data: the encrypted bytes
/// followed by the 16-byte tag.
pub uninterp spec fn chacha20poly1305_seal(
    key: Seq<u8>,
    nonce: Seq<u8>,
    plaintext: Seq<u8>,
) -> Seq<u8>;

/// What ChaCha20-Poly1305 decryption returns for a key, a nonce and a
/// ciphertext, with no associated data: the plaintext, or `None` where the
/// cipher rejects the input.
pub uninterp spec fn chacha20poly1305_open(
    key: Seq<u8>,
    nonce: Seq<u8>,
    ciphertext: Seq<u8>,
) -> Option<Seq<u8>>;

/// The cipher takes fewer than `u32::MAX` blocks of 64 bytes.
pub open spec fn cipher_accepts(len: nat) -> bool {
    len / 64 < u32::MAX
}

/// `chacha20poly1305::Error`: the cipher's one error, which tells nothing more.
#[verifier::external_type_specification]
#[verifier::external_body]
pub struct ExAeadError(chacha20poly1305::Error);

/// Calls `ChaCha20Poly1305::new` and `Aead::encrypt`. The cipher refuses a
/// plaintext of `u32::MAX` blocks or more and otherwise returns the
/// encrypted plaintext with the tag appended. The plaintext and its tag must
/// fit one allocation.
#[verifier::external_body]
pub(crate) fn aead_seal(key: &[u8; 32], nonce: &[u8; 12], plaintext: &[u8]) -> (sealed: Result<
    Vec<u8>,
    chacha20poly1305::Error,
>)
    requires
        plaintext@.len() + 16 <= isize::MAX,
    ensures
        sealed is Ok <==> cipher_accepts(plaintext@.len()),
        sealed matches Ok(ciphertext) ==> {
            &&& ciphertext@ == chacha20poly1305_seal(key@, nonce@, plaintext@)
            &&& ciphertext@.len() == plaintext@.len() + 16
        },
{
    let cipher = chacha20poly1305::ChaCha20Poly1305::new(chacha20poly1305::Key::from_slice(key));
    cipher.encrypt(chacha20poly1305::Nonce::from_slice(nonce), plaintext)
}

/// Calls `ChaCha20Poly1305::new` and `Aead::decrypt`. The result is the
/// named one; a plaintext is 16 bytes shorter than its ciphertext; and what
/// encryption under the same key and nonce produced decrypts to the
/// plaintext it was made from.
#[verifier::external_body]
pub(crate) fn aead_open(key: &[u8; 32], nonce: &[u8; 12], ciphertext: &[u8]) -> (opened: Result<
    Vec<u8>,
    chacha20poly1305::Error,
>)
    ensures
        opened is Ok <==> chacha20poly1305_open(key@, nonce@, ciphertext@) is Some,
        opened matches Ok(plaintext) ==> {
            &&& chacha20poly1305_open(key@, nonce@, ciphertext@) == Some(plaintext@)
            &&& plaintext@.len() + 16 == ciphertext@.len()
        },
        forall|plaintext: Seq<u8>|
            #![trigger chacha20poly1305_seal(key@, nonce@, plaintext)]
            cipher_accepts(plaintext.len()) && ciphertext@ == chacha20poly1305_seal(
                key@,
                nonce@,
                plaintext,
            ) ==> opened is Ok && opened->Ok_0@ == plaintext,
{
    let cipher = chacha20poly1305::ChaCha20Poly1305::new(chacha20poly1305::Key::from_slice(key));
    cipher.decrypt(chacha20poly1305::Nonce::from_slice(nonce), ciphertext)
}

} // verus!
