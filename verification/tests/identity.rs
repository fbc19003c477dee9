use mesh_core::identity::{Identity, IdentityKeys};
use sha2::{Digest, Sha256};

fn keys(ed: [u8; 32], x: [u8; 32]) -> IdentityKeys {
    IdentityKeys { ed25519_secret: ed, x25519_secret: x }
}

#[test]
fn generated_user_id_is_hash_of_public_key() {
    for _ in 0..5 {
        let identity = Identity::generate();
        let expected: [u8; 32] = Sha256::digest(identity.public().ed25519_public).into();
        assert_eq!(identity.public().user_id, expected);
    }
}

#[test]
fn generated_identities_differ() {
    let a = Identity::generate();
    let b = Identity::generate();
    assert_ne!(a.public().user_id, b.public().user_id);
    assert_ne!(a.ed25519_signing_key(), b.ed25519_signing_key());
    assert_ne!(a.x25519_secret(), b.x25519_secret());
    assert_ne!(a.ed25519_signing_key(), a.x25519_secret());
}

#[test]
fn keys_round_trip() {
    let identity = Identity::generate();
    let kept = identity.to_keys();
    assert_eq!(&kept.ed25519_secret, identity.ed25519_signing_key());
    assert_eq!(&kept.x25519_secret, identity.x25519_secret());
    let reloaded = Identity::from_keys(&kept);
    assert_eq!(reloaded.ed25519_signing_key(), identity.ed25519_signing_key());
    assert_eq!(reloaded.x25519_secret(), identity.x25519_secret());
    assert_eq!(reloaded.public().ed25519_public, identity.public().ed25519_public);
    assert_eq!(reloaded.public().x25519_public, identity.public().x25519_public);
    assert_eq!(reloaded.public().user_id, identity.public().user_id);
}

#[test]
fn ed25519_public_key_known_answer() {
    // RFC 8032, section 7.1, test 1.
    let secret = mesh_core::hexcode::parse_hex_32(
        "9d61b19deffd5a60ba844af492ec2cc44449c5697b326919703bac031cae7f60",
    )
    .unwrap();
    let identity = Identity::from_keys(&keys(secret, [1u8; 32]));
    assert_eq!(
        mesh_core::identity::public_key_to_hex(&identity.public().ed25519_public),
        "d75a980182b10ab7d54bfed3c964073a0ee172f3daa62325af021a68f707511a"
    );
    let expected: [u8; 32] = Sha256::digest(identity.public().ed25519_public).into();
    assert_eq!(identity.public().user_id, expected);
}

#[test]
fn x25519_public_key_known_answer() {
    // RFC 7748, section 6.1, Alice's keys.
    let secret = mesh_core::hexcode::parse_hex_32(
        "77076d0a7318a57d3c16c17251b26645df4c2f87ebc0992ab177fba51db92c2a",
    )
    .unwrap();
    let identity = Identity::from_keys(&keys([2u8; 32], secret));
    assert_eq!(
        mesh_core::identity::public_key_to_hex(&identity.public().x25519_public),
        "8520f0098930a754748b7ddcb43ef75a0dbf3a0d26381af4eba4a98eaa9b4e6a"
    );
    assert_eq!(identity.x25519_secret(), &secret);
}

#[test]
fn load_or_generate_keeps_stored_keys() {
    let (identity, fresh) = Identity::load_or_generate(Some(keys([7u8; 32], [9u8; 32])));
    assert!(!fresh);
    assert_eq!(identity.ed25519_signing_key(), &[7u8; 32]);
    assert_eq!(identity.x25519_secret(), &[9u8; 32]);
    let again = Identity::from_keys(&keys([7u8; 32], [9u8; 32]));
    assert_eq!(identity.public().user_id, again.public().user_id);
}

#[test]
fn load_or_generate_makes_new_identity() {
    let (identity, fresh) = Identity::load_or_generate(None);
    assert!(fresh);
    let expected: [u8; 32] = Sha256::digest(identity.public().ed25519_public).into();
    assert_eq!(identity.public().user_id, expected);
}
