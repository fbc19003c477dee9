//! Channels of a place and a topic: the hash of a geohash and a topic.

use vstd::prelude::*;
use vstd::utf8::encode_utf8;
use crate::hash::{sha256, sha256_digest};
use crate::hexcode::{hex_encode, hex_string};

verus! {

/// The channel of a geohash and a topic: the hash of the UTF-8 bytes of the
/// one followed by those of the other.
pub open spec fn geo_channel_id(geohash: Seq<char>, topic: Seq<char>) -> Seq<u8> {
    sha256(encode_utf8(geohash) + encode_utf8(topic))
}

/// Derives the channel id of a geohash and a topic. The geohash is taken as
/// it is given: its syntax is not checked.
pub fn derive_geo_channel_id(geohash: &str, topic: &str) -> (channel_id: [u8; 32])
    ensures
        channel_id@ == geo_channel_id(geohash@, topic@),
{
    let mut joined: Vec<u8> = Vec::new();
    joined.extend_from_slice(geohash.as_bytes());
    joined.extend_from_slice(topic.as_bytes());
    assert(joined@ =~= encode_utf8(geohash@) + encode_utf8(topic@));
    sha256_digest(joined.as_slice())
}

/// The hexadecimal text of a channel id.
pub fn channel_id_to_hex(id: &[u8; 32]) -> (text: String)
    ensures
        text@ == hex_string(id@),
{
    hex_encode(id.as_slice())
}

} // verus!
