//! The device's identity: an Ed25519 signing key, an X25519 key-exchange
//! key, and the user id that hashes the signing key's public half.

use vstd::prelude::*;
use crate::hash::{sha256, sha256_digest};
use crate::hexcode::{hex_encode, hex_string};
use crate::keys::{
    ed25519_public_from_secret, ed25519_public_key, random_ed25519_secret, random_x25519_secret,
    x25519_public_from_secret, x25519_public_key,
};

verus! {

/// The two secrets from which an identity is rebuilt: what is kept on disk.
pub struct IdentityKeys {
    pub ed25519_secret: [u8; 32],
    pub x25519_secret: [u8; 32],
}

/// The public half of an identity, safe to show to anyone.
#[derive(Clone, Copy, Debug)]
pub struct PublicIdentity {
    pub ed25519_public: [u8; 32],
    pub x25519_public: [u8; 32],
    pub user_id: [u8; 32],
}

/// An identity with its private keys.
pub struct Identity {
    ed25519_secret: [u8; 32],
    x25519_secret: [u8; 32],
    public: PublicIdentity,
}

/// Whether a public identity is the one that the two secrets determine: the
/// public keys belong to the secrets, and the user id is the hash of the
/// Ed25519 public key.
pub open spec fn derived_from(
    public: PublicIdentity,
    ed25519_secret: Seq<u8>,
    x25519_secret: Seq<u8>,
) -> bool {
    &&& public.ed25519_public@ == ed25519_public_key(ed25519_secret)
    &&& public.x25519_public@ == x25519_public_key(x25519_secret)
    &&& public.user_id@ == sha256(public.ed25519_public@)
}

/// The public identity is a function of the secrets: identities rebuilt from
/// the same secrets are the same.
pub proof fn lemma_identity_determined(
    public1: PublicIdentity,
    public2: PublicIdentity,
    ed25519_secret: Seq<u8>,
    x25519_secret: Seq<u8>,
)
    requires
        derived_from(public1, ed25519_secret, x25519_secret),
        derived_from(public2, ed25519_secret, x25519_secret),
    ensures
        public1 == public2,
{
    assert(public1.ed25519_public =~= public2.ed25519_public);
    assert(public1.x25519_public =~= public2.x25519_public);
    assert(public1.user_id =~= public2.user_id);
}

impl Identity {
    #[verifier::type_invariant]
    spec fn well_formed(&self) -> bool {
        derived_from(self.public, self.ed25519_secret@, self.x25519_secret@)
    }

    /// The Ed25519 secret key.
    pub closed spec fn ed25519_secret_bytes(&self) -> Seq<u8> {
        self.ed25519_secret@
    }

    /// The X25519 secret key.
    pub closed spec fn x25519_secret_bytes(&self) -> Seq<u8> {
        self.x25519_secret@
    }

    /// The public half.
    pub closed spec fn public_identity(&self) -> PublicIdentity {
        self.public
    }

    /// The user id: the hash of the Ed25519 public key.
    pub open spec fn user_id(&self) -> Seq<u8> {
        self.public_identity().user_id@
    }

    /// Whether the public half is the one that the secrets determine.
    pub open spec fn derived(&self) -> bool {
        derived_from(
            self.public_identity(),
            self.ed25519_secret_bytes(),
            self.x25519_secret_bytes(),
        )
    }

    /// Rebuilds the identity that two secrets determine.
    pub fn from_keys(keys: &IdentityKeys) -> (identity: Self)
        ensures
            identity.ed25519_secret_bytes() == keys.ed25519_secret@,
            identity.x25519_secret_bytes() == keys.x25519_secret@,
            identity.derived(),
    {
        let ed25519_public = ed25519_public_from_secret(&keys.ed25519_secret);
        let x25519_public = x25519_public_from_secret(&keys.x25519_secret);
        let user_id = sha256_digest(ed25519_public.as_slice());
        Identity {
            ed25519_secret: keys.ed25519_secret,
            x25519_secret: keys.x25519_secret,
            public: PublicIdentity { ed25519_public, x25519_public, user_id },
        }
    }

    /// Generates a new identity from fresh random secrets.
    pub fn generate() -> (identity: Self)
        ensures
            identity.derived(),
    {
        let keys = IdentityKeys {
            ed25519_secret: random_ed25519_secret(),
            x25519_secret: random_x25519_secret(),
        };
        Identity::from_keys(&keys)
    }

    /// Rebuilds the identity from the secrets that were kept, or generates a
    /// new one where none were.
    ///
    /// The flag says whether the identity is new and has yet to be kept.
    /// Pass `None` only where no identity was ever kept: a record that
    /// exists but cannot be read must not be replaced.
    pub fn load_or_generate(stored: Option<IdentityKeys>) -> (loaded: (Self, bool))
        ensures
            loaded.0.derived(),
            loaded.1 == (stored is None),
            stored matches Some(keys) ==> {
                &&& loaded.0.ed25519_secret_bytes() == keys.ed25519_secret@
                &&& loaded.0.x25519_secret_bytes() == keys.x25519_secret@
            },
    {
        match stored {
            Some(keys) => (Identity::from_keys(&keys), false),
            None => (Identity::generate(), true),
        }
    }

    /// The two secrets, as they are kept on disk.
    pub fn to_keys(&self) -> (keys: IdentityKeys)
        ensures
            keys.ed25519_secret@ == self.ed25519_secret_bytes(),
            keys.x25519_secret@ == self.x25519_secret_bytes(),
    {
        IdentityKeys { ed25519_secret: self.ed25519_secret, x25519_secret: self.x25519_secret }
    }

    /// The public half of the identity.
    pub fn public(&self) -> (public: &PublicIdentity)
        ensures
            *public == self.public_identity(),
            self.derived(),
    {
        proof {
            use_type_invariant(self);
        }
        &self.public
    }

    /// The Ed25519 secret key.
    pub fn ed25519_signing_key(&self) -> (secret: &[u8; 32])
        ensures
            secret@ == self.ed25519_secret_bytes(),
    {
        &self.ed25519_secret
    }

    /// The X25519 secret key.
    pub fn x25519_secret(&self) -> (secret: &[u8; 32])
        ensures
            secret@ == self.x25519_secret_bytes(),
    {
        &self.x25519_secret
    }
}

/// The hexadecimal text of a user id.
pub fn user_id_to_hex(user_id: &[u8; 32]) -> (text: String)
    ensures
        text@ == hex_string(user_id@),
{
    hex_encode(user_id.as_slice())
}

/// The hexadecimal text of a public key.
pub fn public_key_to_hex(key: &[u8]) -> (text: String)
    ensures
        text@ == hex_string(key@),
{
    hex_encode(key)
}

} // verus!
