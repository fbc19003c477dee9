//! Core of an offline-first, peer-to-peer mesh messenger: identity, the
//! friend registry, direct-message cryptography, the rows of the message log,
//! and a store-and-forward router.

pub mod aead;
pub mod api;
pub mod bytes;
pub mod dm_crypto;
pub mod error;
pub mod friends;
pub mod geo;
pub mod hash;
pub mod hexcode;
pub mod identity;
pub mod json;
pub mod keys;
pub mod mentions;
pub mod noise;
pub mod optimization;
pub mod storage;
pub mod text;
pub mod transport;
