//! The operations that a host application calls: they take and give
//! identifiers and payloads as hexadecimal text, and hand back what is to be
//! kept in the message log instead of keeping it themselves.

use vstd::prelude::*;
use vstd::slice::slice_subrange;
use vstd::utf8::{encode_utf8, valid_utf8};
use crate::bytes::{bytes_eq, bytes_lt, i64_be_bytes, i64_to_be_bytes, lex_lt};
use crate::dm_crypto::{
    create_test_session, decrypt_self_message, dm_channel_id, encrypt_self_message,
    self_message_ciphertext, self_message_fits, self_message_plaintext, DmSession,
};
use crate::error::CryptoError;
use crate::friends::{
    display_name, new_friend, nickname_taken, parse_friend_from_json, records_valid, registry_of,
    strings_view, with_profile, Friend, FriendError, FriendExport, FriendManager, FriendView,
    Registry,
};
use crate::hash::{sha256, sha256_digest};
use crate::hexcode::{
    hex_bytes, hex_encode, hex_string, is_hex, is_hex_32, parse_hex_32, parse_hex_vec,
};
use crate::identity::{Identity, PublicIdentity};
use crate::json::{json_string_list, parse_string_list};
use crate::noise::MAX_MESSAGE_LEN;
use crate::geo::geo_channel_id;
use crate::optimization::{BatteryMode, OptimizationConfig};
use crate::storage::{
    row_of_packet, ChannelRow, MessageRow, MessageRowView, DEFAULT_TTL, GEO_CHANNEL_TYPE,
};
use crate::text::{str_eq, string_from_utf8, to_lowercase, unicode_lowercase};
use crate::transport::{
    delivered, forwarded, LoopbackTransport, Packet, PacketView, RouteOutcome, Router, Transport,
};

verus! {

/// Why an operation of the host interface failed.
#[derive(Clone, Copy, Debug, PartialEq, Eq, Structural)]
pub enum ApiError {
    /// An identifier or a payload is not hexadecimal text of the right length.
    InvalidHex,
    /// The peer is neither this device's user nor a friend.
    UnknownFriend,
    /// The friend registry refused the operation.
    Friend(FriendError),
    /// A cryptographic step failed.
    Crypto(CryptoError),
}

/// The user id of the identity, in hexadecimal.
pub fn get_user_id(identity: &Identity) -> (text: String)
    ensures
        text@ == hex_string(identity.user_id()),
{
    hex_encode(identity.public().user_id.as_slice())
}

/// The Ed25519 public key of the identity, in hexadecimal.
pub fn get_ed25519_public_key(identity: &Identity) -> (text: String)
    ensures
        text@ == hex_string(identity.public_identity().ed25519_public@),
{
    hex_encode(identity.public().ed25519_public.as_slice())
}

/// The X25519 public key of the identity, in hexadecimal.
pub fn get_x25519_public_key(identity: &Identity) -> (text: String)
    ensures
        text@ == hex_string(identity.public_identity().x25519_public@),
{
    hex_encode(identity.public().x25519_public.as_slice())
}

/// The fingerprint of the identity: the first sixteen hexadecimal digits of
/// its user id.
pub fn get_fingerprint(identity: &Identity) -> (text: String)
    ensures
        text@ == hex_string(identity.user_id()).take(16),
{
    let public = identity.public();
    let head = slice_subrange(public.user_id.as_slice(), 0, 8);
    hex_encode(head)
}

/// The public part of the identity, as it is shown to others to be added
/// as a friend.
pub fn export_own_identity(identity: &Identity) -> (export: FriendExport)
    ensures
        export.user_id@ == hex_string(identity.user_id()),
        export.ed25519_public@ == hex_string(identity.public_identity().ed25519_public@),
{
    let public = identity.public();
    FriendExport {
        user_id: hex_encode(public.user_id.as_slice()),
        ed25519_public: hex_encode(public.ed25519_public.as_slice()),
    }
}

/// Adds the friend with the public key, given in hexadecimal, under the
/// nickname, and returns the friend's user id in hexadecimal.
pub fn add_friend(
    friends: &mut FriendManager,
    ed25519_public_hex: &str,
    nickname: String,
) -> (added: Result<String, ApiError>)
    ensures
        added == Err::<String, ApiError>(ApiError::InvalidHex) <==> !is_hex_32(
            ed25519_public_hex@,
        ),
        added is Ok <==> is_hex_32(ed25519_public_hex@) && !nickname_taken(
            old(friends)@,
            nickname@,
            None,
        ),
        added matches Ok(user_id) ==> {
            let key = hex_bytes(encode_utf8(ed25519_public_hex@));
            &&& user_id@ == hex_string(sha256(key))
            &&& final(friends)@ == old(friends)@.insert(sha256(key), new_friend(key, nickname@))
        },
        added matches Err(e) ==> final(friends)@ == old(friends)@ && (e == ApiError::InvalidHex
            || e == ApiError::Friend(FriendError::NicknameTaken)),
{
    let key = match parse_hex_32(ed25519_public_hex) {
        Some(key) => key,
        None => return Err(ApiError::InvalidHex),
    };
    match friends.add_friend(key, nickname) {
        Ok(user_id) => Ok(hex_encode(user_id.as_slice())),
        Err(e) => Err(ApiError::Friend(e)),
    }
}

/// Adds the friend whose public part came in from outside, under the
/// nickname, and returns the friend's user id in hexadecimal. The user id
/// that the payload claims is not trusted: the friend's user id is the hash
/// of the key.
pub fn import_friend_from_json(
    friends: &mut FriendManager,
    export: &FriendExport,
    nickname: String,
) -> (added: Result<String, ApiError>)
    ensures
        added is Ok <==> is_hex_32(export.ed25519_public@) && !nickname_taken(
            old(friends)@,
            nickname@,
            None,
        ),
        added matches Ok(user_id) ==> {
            let key = hex_bytes(encode_utf8(export.ed25519_public@));
            &&& user_id@ == hex_string(sha256(key))
            &&& final(friends)@ == old(friends)@.insert(sha256(key), new_friend(key, nickname@))
        },
        added matches Err(e) ==> final(friends)@ == old(friends)@,
        !is_hex_32(export.ed25519_public@) ==> added == Err::<String, ApiError>(
            ApiError::Friend(FriendError::InvalidHex),
        ) || added == Err::<String, ApiError>(ApiError::Friend(FriendError::InvalidKeyLength)),
        is_hex_32(export.ed25519_public@) && nickname_taken(old(friends)@, nickname@, None)
            ==> added == Err::<String, ApiError>(ApiError::Friend(FriendError::NicknameTaken)),
{
    let key = match parse_friend_from_json(export) {
        Ok((_, key)) => key,
        Err(e) => return Err(ApiError::Friend(e)),
    };
    match friends.add_friend(key, nickname) {
        Ok(user_id) => Ok(hex_encode(user_id.as_slice())),
        Err(e) => Err(ApiError::Friend(e)),
    }
}

/// Removes the friend with the user id, given in hexadecimal; says whether
/// there was one.
pub fn remove_friend(friends: &mut FriendManager, user_id_hex: &str) -> (removed: Result<
    bool,
    ApiError,
>)
    ensures
        removed is Ok <==> is_hex_32(user_id_hex@),
        removed matches Ok(found) ==> {
            let user_id = hex_bytes(encode_utf8(user_id_hex@));
            &&& found == old(friends)@.dom().contains(user_id)
            &&& final(friends)@ == old(friends)@.remove(user_id)
        },
        removed matches Err(e) ==> e == ApiError::InvalidHex && final(friends)@ == old(friends)@,
{
    let user_id = match parse_hex_32(user_id_hex) {
        Some(user_id) => user_id,
        None => return Err(ApiError::InvalidHex),
    };
    Ok(friends.remove_friend(&user_id))
}

/// A friend as it is listed for the host.
#[derive(Debug)]
pub struct FriendSummary {
    pub user_id: String,
    pub ed25519_public: String,
    pub nickname: String,
    pub display_name: String,
    pub notes: String,
    pub tags: Vec<String>,
}

/// Whether a summary lists a friend record: the ids in hexadecimal, the
/// labels as they are, and the name under which the friend is shown.
pub open spec fn summarizes(summary: FriendSummary, friend: FriendView) -> bool {
    &&& summary.user_id@ == hex_string(friend.user_id)
    &&& summary.ed25519_public@ == hex_string(friend.ed25519_public)
    &&& summary.nickname@ == friend.nickname
    &&& summary.display_name@ == display_name(friend)
    &&& summary.notes@ == friend.notes
    &&& strings_view(summary.tags@) == friend.tags
}

fn clone_strings(strings: &Vec<String>) -> (copy: Vec<String>)
    ensures
        strings_view(copy@) == strings_view(strings@),
{
    let mut copy: Vec<String> = Vec::new();
    let n = strings.len();
    let mut i: usize = 0;
    while i < n
        invariant
            n == strings@.len(),
            i <= n,
            copy@.len() == i,
            forall|j: int| 0 <= j < i ==> (#[trigger] copy@[j])@ == strings@[j]@,
        decreases n - i,
    {
        copy.push(strings[i].clone());
        i += 1;
    }
    copy
}

fn summarize(friend: &Friend) -> (summary: FriendSummary)
    ensures
        summarizes(summary, friend@),
{
    FriendSummary {
        user_id: hex_encode(friend.user_id.as_slice()),
        ed25519_public: hex_encode(friend.ed25519_public.as_slice()),
        nickname: friend.nickname.clone(),
        display_name: match &friend.custom_display_name {
            Some(custom) => custom.clone(),
            None => friend.nickname.clone(),
        },
        notes: friend.notes.clone(),
        tags: clone_strings(&friend.tags),
    }
}

/// Lists all friends, each once, in no particular order: one summary for
/// each record, and the records are the registry's entries.
pub fn get_all_friends(friends: &FriendManager) -> (all: Vec<FriendSummary>)
    ensures
        all@.len() == friends.records().len(),
        forall|i: int| 0 <= i < all@.len() ==> summarizes(#[trigger] all@[i], friends.records()[i]),
        records_valid(friends.records()),
        friends@ == registry_of(friends.records()),
{
    let listed = friends.get_all_friends();
    let mut all: Vec<FriendSummary> = Vec::new();
    let n = listed.len();
    let mut i: usize = 0;
    while i < n
        invariant
            n == listed@.len(),
            n == friends.records().len(),
            i <= n,
            all@.len() == i,
            forall|j: int| 0 <= j < n ==> (#[trigger] listed@[j])@ == friends.records()[j],
            forall|j: int| 0 <= j < i ==> summarizes(#[trigger] all@[j], friends.records()[j]),
        decreases n - i,
    {
        all.push(summarize(listed[i]));
        i += 1;
    }
    all
}

/// Gives the friend with the user id, given in hexadecimal, a new nickname.
pub fn update_friend_nickname(
    friends: &mut FriendManager,
    user_id_hex: &str,
    nickname: String,
) -> (updated: Result<(), ApiError>)
    ensures
        updated == Err::<(), ApiError>(ApiError::InvalidHex) <==> !is_hex_32(user_id_hex@),
        is_hex_32(user_id_hex@) ==> {
            let user_id = hex_bytes(encode_utf8(user_id_hex@));
            let taken = nickname_taken(old(friends)@, nickname@, Some(user_id));
            let known = old(friends)@.dom().contains(user_id);
            &&& updated == Err::<(), ApiError>(ApiError::Friend(FriendError::NicknameTaken))
                <==> taken
            &&& updated == Err::<(), ApiError>(ApiError::Friend(FriendError::NotFound)) <==> !taken
                && !known
            &&& updated is Ok <==> !taken && known
            &&& updated is Ok ==> final(friends)@ == old(friends)@.insert(
                user_id,
                with_profile(old(friends)@[user_id], Some(nickname@), None, None, None),
            )
        },
        updated is Err ==> final(friends)@ == old(friends)@,
{
    let user_id = match parse_hex_32(user_id_hex) {
        Some(user_id) => user_id,
        None => return Err(ApiError::InvalidHex),
    };
    match friends.update_nickname(&user_id, nickname) {
        Ok(()) => Ok(()),
        Err(e) => Err(ApiError::Friend(e)),
    }
}

/// The nickname that a profile update sets: an empty one changes nothing.
pub open spec fn profile_nickname(nickname: Option<Seq<char>>) -> Option<Seq<char>> {
    match nickname {
        Some(text) => if text.len() == 0 {
            None
        } else {
            Some(text)
        },
        None => None,
    }
}

/// The tags that a profile update sets, read from a JSON array of strings:
/// text that is no such array changes nothing.
pub open spec fn profile_tags(tags_json: Option<Seq<char>>) -> Option<Seq<Seq<char>>> {
    match tags_json {
        Some(text) => json_string_list(text),
        None => None,
    }
}

/// The display name that a profile update sets: an empty one clears it.
pub open spec fn profile_display_name(name: Option<Seq<char>>) -> Option<Option<Seq<char>>> {
    match name {
        Some(text) => if text.len() == 0 {
            Some(None)
        } else {
            Some(Some(text))
        },
        None => None,
    }
}

/// The characters of an optional string slice.
pub open spec fn optional_str_view(text: Option<&str>) -> Option<Seq<char>> {
    match text {
        Some(s) => Some(s@),
        None => None,
    }
}

/// Updates the labels of the friend with the user id, given in hexadecimal.
///
/// A field that is `None` stays as it is. An empty nickname changes nothing;
/// the tags come as a JSON array of strings, and text that is no such array
/// changes nothing; an empty display name clears the custom one.
pub fn update_friend_profile(
    friends: &mut FriendManager,
    user_id_hex: &str,
    nickname: Option<&str>,
    notes: Option<&str>,
    tags_json: Option<&str>,
    custom_display_name: Option<&str>,
) -> (updated: Result<(), ApiError>)
    ensures
        updated == Err::<(), ApiError>(ApiError::InvalidHex) <==> !is_hex_32(user_id_hex@),
        is_hex_32(user_id_hex@) ==> {
            let user_id = hex_bytes(encode_utf8(user_id_hex@));
            let new_nickname = profile_nickname(optional_str_view(nickname));
            let taken = new_nickname matches Some(n) && nickname_taken(
                old(friends)@,
                n,
                Some(user_id),
            );
            let known = old(friends)@.dom().contains(user_id);
            &&& updated == Err::<(), ApiError>(ApiError::Friend(FriendError::NicknameTaken))
                <==> taken
            &&& updated == Err::<(), ApiError>(ApiError::Friend(FriendError::NotFound)) <==> !taken
                && !known
            &&& updated is Ok <==> !taken && known
            &&& updated is Ok ==> final(friends)@ == old(friends)@.insert(
                user_id,
                with_profile(
                    old(friends)@[user_id],
                    new_nickname,
                    optional_str_view(notes),
                    profile_tags(optional_str_view(tags_json)),
                    profile_display_name(optional_str_view(custom_display_name)),
                ),
            )
        },
        updated is Err ==> final(friends)@ == old(friends)@,
{
    let user_id = match parse_hex_32(user_id_hex) {
        Some(user_id) => user_id,
        None => return Err(ApiError::InvalidHex),
    };
    let nickname_opt: Option<String> = match nickname {
        Some(text) => if text.is_empty() {
            None
        } else {
            Some(text.to_owned())
        },
        None => None,
    };
    let notes_opt: Option<String> = match notes {
        Some(text) => Some(text.to_owned()),
        None => None,
    };
    let tags_opt: Option<Vec<String>> = match tags_json {
        Some(text) => match parse_string_list(text) {
            Ok(tags) => Some(tags),
            Err(_) => None,
        },
        None => None,
    };
    let display_name_opt: Option<Option<String>> = match custom_display_name {
        Some(text) => if text.is_empty() {
            Some(None)
        } else {
            Some(Some(text.to_owned()))
        },
        None => None,
    };
    match friends.update_profile(&user_id, nickname_opt, notes_opt, tags_opt, display_name_opt) {
        Ok(()) => Ok(()),
        Err(e) => Err(ApiError::Friend(e)),
    }
}

/// Calls `SystemTime::now` and `SystemTime::duration_since` and returns the
/// whole seconds since the Unix epoch; `None` for a clock set before it.
/// Nothing is known of the time.
#[verifier::external_body]
fn seconds_since_epoch() -> Option<u64> {
    std::time::SystemTime::now().duration_since(std::time::UNIX_EPOCH).ok().map(|d| d.as_secs())
}

/// The timestamp that a reading of the clock gives: the seconds since the
/// Unix epoch as a signed number, zero for a clock set before the epoch.
pub fn timestamp_of(seconds_since_epoch: Option<u64>) -> (timestamp: i64)
    ensures
        timestamp == match seconds_since_epoch {
            Some(seconds) => seconds as i64,
            None => 0,
        },
{
    match seconds_since_epoch {
        Some(seconds) => #[verifier::truncate]
        (seconds as i64),
        None => 0,
    }
}

/// The current time in seconds since the Unix epoch.
fn now_ts() -> i64 {
    timestamp_of(seconds_since_epoch())
}

/// Derives the channel of two parties from their Ed25519 public keys, all
/// in hexadecimal; `None` unless both keys are 64 hexadecimal digits.
pub fn derive_dm_channel_id(user_id_a_hex: &str, user_id_b_hex: &str) -> (channel: Option<String>)
    ensures
        channel is Some <==> is_hex_32(user_id_a_hex@) && is_hex_32(user_id_b_hex@),
        channel matches Some(text) ==> text@ == hex_string(
            dm_channel_id(
                hex_bytes(encode_utf8(user_id_a_hex@)),
                hex_bytes(encode_utf8(user_id_b_hex@)),
            ),
        ),
{
    let pub_a = match parse_hex_32(user_id_a_hex) {
        Some(key) => key,
        None => return None,
    };
    let pub_b = match parse_hex_32(user_id_b_hex) {
        Some(key) => key,
        None => return None,
    };
    let channel_id = crate::dm_crypto::derive_dm_channel_id(&pub_a, &pub_b);
    Some(hex_encode(channel_id.as_slice()))
}

/// The other side of a direct-message conversation, as this device sees it.
pub struct DmPeer {
    /// The peer's Ed25519 public key.
    pub ed25519_public: [u8; 32],
    /// The channel of the conversation.
    pub channel_id: [u8; 32],
    /// Whether the peer is this device's own user.
    pub is_self: bool,
    /// Whether this device is the initiator of the conversation's sessions.
    pub initiator: bool,
}

/// What decides a conversation: its channel, whether it is with oneself,
/// and which role this device plays.
pub struct Conversation {
    pub peer_ed25519_public: Seq<u8>,
    pub channel_id: Seq<u8>,
    pub is_self: bool,
    pub initiator: bool,
}

/// The conversation with the user of the given id, if that user is this
/// device's own or a friend.
///
/// With oneself the channel is that of the own key with itself, and this
/// device is the initiator. With a friend the channel is that of the two
/// keys, and the initiator is the party whose user id is the smaller one.
pub open spec fn conversation(
    own: PublicIdentity,
    registry: Registry,
    peer_user_id: Seq<u8>,
) -> Option<Conversation> {
    if peer_user_id == own.user_id@ {
        Some(
            Conversation {
                peer_ed25519_public: own.ed25519_public@,
                channel_id: dm_channel_id(own.ed25519_public@, own.ed25519_public@),
                is_self: true,
                initiator: true,
            },
        )
    } else if registry.dom().contains(peer_user_id) {
        Some(
            Conversation {
                peer_ed25519_public: registry[peer_user_id].ed25519_public,
                channel_id: dm_channel_id(
                    own.ed25519_public@,
                    registry[peer_user_id].ed25519_public,
                ),
                is_self: false,
                initiator: lex_lt(own.user_id@, peer_user_id),
            },
        )
    } else {
        None
    }
}

impl View for DmPeer {
    type V = Conversation;

    open spec fn view(&self) -> Conversation {
        Conversation {
            peer_ed25519_public: self.ed25519_public@,
            channel_id: self.channel_id@,
            is_self: self.is_self,
            initiator: self.initiator,
        }
    }
}

/// Finds the conversation with the user of the given id.
pub fn resolve_peer(
    identity: &Identity,
    friends: &FriendManager,
    peer_user_id: &[u8; 32],
) -> (peer: Option<DmPeer>)
    ensures
        match peer {
            Some(p) => Some(p@),
            None => None,
        } == conversation(identity.public_identity(), friends@, peer_user_id@),
{
    let own = identity.public();
    if bytes_eq(peer_user_id.as_slice(), own.user_id.as_slice()) {
        let channel_id = crate::dm_crypto::derive_dm_channel_id(
            &own.ed25519_public,
            &own.ed25519_public,
        );
        Some(
            DmPeer {
                ed25519_public: own.ed25519_public,
                channel_id,
                is_self: true,
                initiator: true,
            },
        )
    } else {
        match friends.get_friend(peer_user_id) {
            Some(friend) => {
                let channel_id = crate::dm_crypto::derive_dm_channel_id(
                    &own.ed25519_public,
                    &friend.ed25519_public,
                );
                Some(
                    DmPeer {
                        ed25519_public: friend.ed25519_public,
                        channel_id,
                        is_self: false,
                        initiator: bytes_lt(own.user_id.as_slice(), peer_user_id.as_slice()),
                    },
                )
            },
            None => None,
        }
    }
}

/// The channel of the conversation with the user whose id is given in
/// hexadecimal: the channel whose messages are read, or are purged where
/// the conversation is cleared.
pub fn dm_channel_with(
    identity: &Identity,
    friends: &FriendManager,
    friend_user_id_hex: &str,
) -> (channel: Result<[u8; 32], ApiError>)
    ensures
        channel == Err::<[u8; 32], ApiError>(ApiError::InvalidHex) <==> !is_hex_32(
            friend_user_id_hex@,
        ),
        is_hex_32(friend_user_id_hex@) ==> match conversation(
            identity.public_identity(),
            friends@,
            hex_bytes(encode_utf8(friend_user_id_hex@)),
        ) {
            Some(with) => channel matches Ok(id) && id@ == with.channel_id,
            None => channel == Err::<[u8; 32], ApiError>(ApiError::UnknownFriend),
        },
{
    let peer_user_id = match parse_hex_32(friend_user_id_hex) {
        Some(id) => id,
        None => return Err(ApiError::InvalidHex),
    };
    match resolve_peer(identity, friends, &peer_user_id) {
        Some(peer) => Ok(peer.channel_id),
        None => Err(ApiError::UnknownFriend),
    }
}

/// The id of a direct message: the hash of its channel, the big-endian
/// seconds at which it was sent, and its plaintext.
pub open spec fn dm_message_id(channel_id: Seq<u8>, now: i64, plaintext: Seq<u8>) -> Seq<u8> {
    sha256(channel_id + i64_be_bytes(now) + plaintext)
}

/// Computes the id of a direct message.
pub fn derive_dm_message_id(
    channel_id: &[u8; 32],
    now: i64,
    plaintext: &[u8],
) -> (message_id: [u8; 32])
    ensures
        message_id@ == dm_message_id(channel_id@, now, plaintext@),
{
    let stamp = i64_to_be_bytes(now);
    let mut hashed: Vec<u8> = Vec::new();
    hashed.extend_from_slice(channel_id.as_slice());
    hashed.extend_from_slice(stamp.as_slice());
    hashed.extend_from_slice(plaintext);
    assert(hashed@ =~= channel_id@ + i64_be_bytes(now) + plaintext@);
    sha256_digest(hashed.as_slice())
}

/// What sending a direct message at the time `now` gives.
///
/// The peer's id must be 64 hexadecimal digits and the peer this device's
/// user or a friend. The row that is to be kept then has the conversation's
/// channel, the message's id, the time, and the default hop count. A
/// message to oneself is encrypted deterministically and succeeds exactly
/// where its length fits. A message to a friend is encrypted in a Noise
/// session, whose outcome is not foretold: its ciphertext is the plaintext's
/// length plus the tag, and a plaintext beyond the protocol's message length
/// fails.
pub open spec fn sent_dm(
    own: PublicIdentity,
    registry: Registry,
    friend_user_id_hex: Seq<char>,
    plaintext: Seq<char>,
    now: i64,
    sent: Result<MessageRow, ApiError>,
) -> bool {
    if !is_hex_32(friend_user_id_hex) {
        sent == Err::<MessageRow, ApiError>(ApiError::InvalidHex)
    } else {
        match conversation(own, registry, hex_bytes(encode_utf8(friend_user_id_hex))) {
            None => sent == Err::<MessageRow, ApiError>(ApiError::UnknownFriend),
            Some(with) => {
                let bytes = encode_utf8(plaintext);
                let message_id = dm_message_id(with.channel_id, now, bytes);
                &&& sent matches Ok(row) ==> {
                    &&& row.message_id@ == message_id
                    &&& row.channel_id@ == with.channel_id
                    &&& row.timestamp == now
                    &&& row.ttl == DEFAULT_TTL
                    &&& if with.is_self {
                        row.ciphertext@ == self_message_ciphertext(
                            with.channel_id,
                            message_id,
                            bytes,
                        )
                    } else {
                        row.ciphertext@.len() == bytes.len() + 16
                    }
                }
                &&& sent matches Err(e) ==> e is Crypto
                &&& with.is_self ==> (sent is Ok <==> self_message_fits(bytes.len()))
                &&& !with.is_self && bytes.len() + 16 > MAX_MESSAGE_LEN ==> sent is Err
            },
        }
    }
}

/// Composes a direct message to the user whose id is given in hexadecimal,
/// as sent at the time `now` in seconds since the Unix epoch, and returns
/// the row that is to be kept in the message log.
pub fn send_dm_message_at(
    identity: &Identity,
    friends: &FriendManager,
    friend_user_id_hex: &str,
    plaintext: &str,
    now: i64,
) -> (sent: Result<MessageRow, ApiError>)
    ensures
        sent_dm(
            identity.public_identity(),
            friends@,
            friend_user_id_hex@,
            plaintext@,
            now,
            sent,
        ),
{
    let peer_user_id = match parse_hex_32(friend_user_id_hex) {
        Some(id) => id,
        None => return Err(ApiError::InvalidHex),
    };
    let peer = match resolve_peer(identity, friends, &peer_user_id) {
        Some(peer) => peer,
        None => return Err(ApiError::UnknownFriend),
    };
    let bytes = plaintext.as_bytes();
    let message_id = derive_dm_message_id(&peer.channel_id, now, bytes);
    let ciphertext = if peer.is_self {
        match encrypt_self_message(&peer.channel_id, &message_id, bytes) {
            Ok(ciphertext) => ciphertext,
            Err(e) => return Err(ApiError::Crypto(e)),
        }
    } else {
        let mut session = match peer_session(identity, &peer, peer.initiator) {
            Ok(session) => session,
            Err(e) => return Err(ApiError::Crypto(e)),
        };
        match session.encrypt(bytes) {
            Ok(ciphertext) => ciphertext,
            Err(e) => return Err(ApiError::Crypto(e)),
        }
    };
    Ok(
        MessageRow {
            message_id,
            channel_id: peer.channel_id,
            ciphertext,
            timestamp: now,
            ttl: DEFAULT_TTL,
        },
    )
}

/// Composes a direct message to the user whose id is given in hexadecimal,
/// stamped with the current time, and returns the row that is to be kept in
/// the message log. The row's timestamp is the time that went into its id.
pub fn send_dm_message(
    identity: &Identity,
    friends: &FriendManager,
    friend_user_id_hex: &str,
    plaintext: &str,
) -> (sent: Result<MessageRow, ApiError>)
    ensures
        exists|now: i64|
            sent_dm(
                identity.public_identity(),
                friends@,
                friend_user_id_hex@,
                plaintext@,
                now,
                sent,
            ),
{
    let now = now_ts();
    send_dm_message_at(identity, friends, friend_user_id_hex, plaintext, now)
}

/// A direct message as it is shown to the host.
#[derive(Debug)]
pub struct DmMessage {
    /// The message's id in hexadecimal.
    pub message_id: String,
    /// The decrypted text.
    pub plaintext: String,
    /// The seconds since the Unix epoch at which the message was kept.
    pub timestamp: i64,
    /// Whether this device sent the message.
    pub is_sent: bool,
}

/// Whether a message shows a row of a conversation: it has the row's id and
/// time, a text whose bytes are the ciphertext's length less the tag, and it
/// counts as sent where the conversation is with oneself or this device is
/// its initiator. Where the row holds a readable message to oneself, the
/// text is what that message decrypts to.
pub open spec fn shows(message: DmMessage, row: MessageRowView, with: Conversation) -> bool {
    &&& message.message_id@ == hex_string(row.message_id)
    &&& message.timestamp == row.timestamp
    &&& message.is_sent == (with.is_self || with.initiator)
    &&& encode_utf8(message.plaintext@).len() + 16 == row.ciphertext.len()
    &&& with.is_self ==> (self_message_plaintext(
        with.channel_id,
        row.message_id,
        row.ciphertext,
    ) matches Some(bytes) ==> encode_utf8(message.plaintext@) == bytes)
}

/// Whether a row certainly yields a message: it holds a message to oneself
/// that decrypts to valid UTF-8.
pub open spec fn readable(row: MessageRowView, with: Conversation) -> bool {
    with.is_self && (self_message_plaintext(with.channel_id, row.message_id, row.ciphertext)
        matches Some(bytes) && valid_utf8(bytes))
}

/// Whether a row certainly yields no message: it holds a message to
/// oneself that decrypts to bytes that are no UTF-8 text.
pub open spec fn unreadable(row: MessageRowView, with: Conversation) -> bool {
    with.is_self && (self_message_plaintext(with.channel_id, row.message_id, row.ciphertext)
        matches Some(bytes) && !valid_utf8(bytes))
}

/// The message that a row shows, given what decrypting it gave: none where
/// decryption failed or the plaintext is not UTF-8.
pub fn dm_message_of(
    row: &MessageRow,
    plaintext: Result<Vec<u8>, CryptoError>,
    is_sent: bool,
) -> (message: Option<DmMessage>)
    ensures
        message is Some <==> (plaintext matches Ok(bytes) && valid_utf8(bytes@)),
        message matches Some(m) ==> {
            &&& m.message_id@ == hex_string(row.message_id@)
            &&& m.timestamp == row.timestamp
            &&& m.is_sent == is_sent
            &&& plaintext matches Ok(bytes) && encode_utf8(m.plaintext@) == bytes@
        },
{
    match plaintext {
        Ok(bytes) => match string_from_utf8(bytes) {
            Some(text) => Some(
                DmMessage {
                    message_id: hex_encode(row.message_id.as_slice()),
                    plaintext: text,
                    timestamp: row.timestamp,
                    is_sent,
                },
            ),
            None => None,
        },
        Err(_) => None,
    }
}

/// Builds a session with the peer in the given role, running both sides
/// of the handshake here.
///
/// A friend's record holds no X25519 key, so the friend's Ed25519 public
/// key stands in for both X25519 keys of the peer; with oneself the own
/// X25519 keys are used.
fn peer_session(identity: &Identity, peer: &DmPeer, is_initiator: bool) -> (made: Result<
    DmSession,
    CryptoError,
>)
    ensures
        made matches Ok(session) ==> session.channel() == dm_channel_id(
            identity.public_identity().ed25519_public@,
            peer.ed25519_public@,
        ),
        made matches Err(e) ==> e is Handshake,
{
    let own = identity.public();
    if peer.is_self {
        create_test_session(
            &own.ed25519_public,
            identity.x25519_secret(),
            &own.x25519_public,
            &peer.ed25519_public,
            identity.x25519_secret(),
            &own.x25519_public,
            is_initiator,
        )
    } else {
        create_test_session(
            &own.ed25519_public,
            identity.x25519_secret(),
            &own.x25519_public,
            &peer.ed25519_public,
            &peer.ed25519_public,
            &peer.ed25519_public,
            is_initiator,
        )
    }
}

/// Decrypts one row of a conversation.
///
/// A message to oneself is first read with the deterministic cipher; where
/// that fails, a Noise session is tried, in the role opposite to the one
/// that encrypts and then in that role. A friend's message is read in a
/// Noise session in the opposite role, then in the same one. A row that
/// cannot be read, or whose plaintext is no UTF-8 text, gives no message.
pub fn dm_message_from_row(
    identity: &Identity,
    peer: &DmPeer,
    row: &MessageRow,
) -> (message: Option<DmMessage>)
    ensures
        message matches Some(m) ==> shows(m, row@, peer@),
        readable(row@, peer@) ==> message is Some,
        unreadable(row@, peer@) ==> message is None,
{
    let is_sent = peer.is_self || peer.initiator;
    let plaintext: Result<Vec<u8>, CryptoError> = if peer.is_self {
        match decrypt_self_message(&peer.channel_id, &row.message_id, row.ciphertext.as_slice()) {
            Ok(bytes) => Ok(bytes),
            Err(e) => {
                let session = match peer_session(identity, peer, !peer.initiator) {
                    Ok(session) => Some(session),
                    Err(_) => match peer_session(identity, peer, peer.initiator) {
                        Ok(session) => Some(session),
                        Err(_) => None,
                    },
                };
                match session {
                    Some(mut session) => session.decrypt(row.ciphertext.as_slice()),
                    None => Err(e),
                }
            },
        }
    } else {
        match peer_session(identity, peer, !peer.initiator) {
            Ok(mut session) => match session.decrypt(row.ciphertext.as_slice()) {
                Ok(bytes) => Ok(bytes),
                Err(_) => match peer_session(identity, peer, peer.initiator) {
                    Ok(mut fallback) => fallback.decrypt(row.ciphertext.as_slice()),
                    Err(e) => Err(e),
                },
            },
            Err(e) => Err(e),
        }
    };
    dm_message_of(row, plaintext, is_sent)
}

/// Whether `kept` picks rows in their order: strictly rising places below `len`.
pub open spec fn picks_in_order(kept: Seq<int>, len: int) -> bool {
    &&& forall|j: int| 0 <= j < kept.len() ==> 0 <= #[trigger] kept[j] < len
    &&& forall|j: int, k: int| 0 <= j < k < kept.len() ==> kept[j] < kept[k]
}

/// Whether the messages are what the rows of a conversation show: one
/// message for each row that could be read, in the rows' order. A row with
/// a readable message to oneself is always among them, one whose plaintext
/// is no text never.
pub open spec fn lists_dm(
    messages: Seq<DmMessage>,
    rows: Seq<MessageRowView>,
    with: Conversation,
) -> bool {
    exists|kept: Seq<int>|
        {
            &&& picks_in_order(kept, rows.len() as int)
            &&& #[trigger] kept.len() == messages.len()
            &&& forall|j: int|
                0 <= j < kept.len() ==> shows(#[trigger] messages[j], rows[kept[j]], with)
            &&& forall|i: int|
                0 <= i < rows.len() && readable(#[trigger] rows[i], with) ==> kept.contains(i)
            &&& forall|i: int|
                0 <= i < rows.len() && unreadable(#[trigger] rows[i], with) ==> !kept.contains(i)
        }
}

/// Decrypts the rows of the conversation with the user whose id is given in
/// hexadecimal, as they were read from the message log.
///
/// The peer's id must be 64 hexadecimal digits and the peer this device's
/// user or a friend. A row that cannot be read is passed over; the others
/// are shown in the rows' order.
pub fn get_dm_messages(
    identity: &Identity,
    friends: &FriendManager,
    friend_user_id_hex: &str,
    rows: &Vec<MessageRow>,
) -> (listed: Result<Vec<DmMessage>, ApiError>)
    ensures
        listed == Err::<Vec<DmMessage>, ApiError>(ApiError::InvalidHex) <==> !is_hex_32(
            friend_user_id_hex@,
        ),
        is_hex_32(friend_user_id_hex@) ==> match conversation(
            identity.public_identity(),
            friends@,
            hex_bytes(encode_utf8(friend_user_id_hex@)),
        ) {
            Some(with) => listed matches Ok(messages) && lists_dm(
                messages@,
                rows@.map_values(|r: MessageRow| r@),
                with,
            ),
            None => listed == Err::<Vec<DmMessage>, ApiError>(ApiError::UnknownFriend),
        },
{
    let peer_user_id = match parse_hex_32(friend_user_id_hex) {
        Some(id) => id,
        None => return Err(ApiError::InvalidHex),
    };
    let peer = match resolve_peer(identity, friends, &peer_user_id) {
        Some(peer) => peer,
        None => return Err(ApiError::UnknownFriend),
    };
    let ghost views = rows@.map_values(|r: MessageRow| r@);
    let mut messages: Vec<DmMessage> = Vec::new();
    let ghost mut kept: Seq<int> = Seq::empty();
    let n = rows.len();
    let mut i: usize = 0;
    while i < n
        invariant
            n == rows@.len(),
            i <= n,
            views == rows@.map_values(|r: MessageRow| r@),
            picks_in_order(kept, i as int),
            kept.len() == messages@.len(),
            forall|j: int|
                0 <= j < kept.len() ==> shows(#[trigger] messages@[j], views[kept[j]], peer@),
            forall|k: int| 0 <= k < i && readable(#[trigger] views[k], peer@) ==> kept.contains(k),
            forall|k: int|
                0 <= k < i && unreadable(#[trigger] views[k], peer@) ==> !kept.contains(k),
        decreases n - i,
    {
        let ghost before = kept;
        match dm_message_from_row(identity, &peer, &rows[i]) {
            Some(message) => {
                proof {
                    kept = kept.push(i as int);
                    assert(kept[before.len() as int] == i);
                    assert forall|k: int| 0 <= k < i && readable(
                        #[trigger] views[k],
                        peer@,
                    ) implies kept.contains(k) by {
                        let j = choose|j: int| 0 <= j < before.len() && before[j] == k;
                        assert(kept[j] == k);
                    }
                }
                messages.push(message);
            },
            None => {},
        }
        i += 1;
    }
    Ok(messages)
}

/// The inputs of the encryption self-test, in the order in which they are read.
#[derive(Clone, Copy, Debug, PartialEq, Eq, Structural)]
pub enum RoundtripInput {
    LocalEd25519,
    LocalX25519Secret,
    LocalX25519Public,
    RemoteEd25519,
    RemoteX25519Secret,
    RemoteX25519Public,
    TestMessage,
}

/// How the encryption self-test ended.
#[derive(Clone, Copy, Debug, PartialEq, Eq, Structural)]
pub enum RoundtripReport {
    /// The message came back as it was sent.
    Success,
    /// An input is not hexadecimal text of the right length.
    InvalidInput(RoundtripInput),
    /// The initiator's session could not be built.
    InitiatorSession(CryptoError),
    /// The responder's session could not be built.
    ResponderSession(CryptoError),
    /// The initiator could not encrypt the message.
    Encrypt(CryptoError),
    /// The responder could not decrypt the message.
    Decrypt(CryptoError),
    /// The message came back changed.
    Mismatch,
}

/// The first input of the self-test that is not valid, if any: the six keys
/// must each be 64 hexadecimal digits and the message hexadecimal.
pub open spec fn first_invalid_input(
    local_ed25519_hex: Seq<char>,
    local_x25519_secret_hex: Seq<char>,
    local_x25519_public_hex: Seq<char>,
    remote_ed25519_hex: Seq<char>,
    remote_x25519_secret_hex: Seq<char>,
    remote_x25519_public_hex: Seq<char>,
    test_message_hex: Seq<char>,
) -> Option<RoundtripInput> {
    if !is_hex_32(local_ed25519_hex) {
        Some(RoundtripInput::LocalEd25519)
    } else if !is_hex_32(local_x25519_secret_hex) {
        Some(RoundtripInput::LocalX25519Secret)
    } else if !is_hex_32(local_x25519_public_hex) {
        Some(RoundtripInput::LocalX25519Public)
    } else if !is_hex_32(remote_ed25519_hex) {
        Some(RoundtripInput::RemoteEd25519)
    } else if !is_hex_32(remote_x25519_secret_hex) {
        Some(RoundtripInput::RemoteX25519Secret)
    } else if !is_hex_32(remote_x25519_public_hex) {
        Some(RoundtripInput::RemoteX25519Public)
    } else if !is_hex(encode_utf8(test_message_hex)) {
        Some(RoundtripInput::TestMessage)
    } else {
        None
    }
}

/// The verdict on a message that went through encryption and decryption.
pub fn roundtrip_verdict(sent: &[u8], received: &[u8]) -> (report: RoundtripReport)
    ensures
        report == if sent@ == received@ {
            RoundtripReport::Success
        } else {
            RoundtripReport::Mismatch
        },
{
    if bytes_eq(sent, received) {
        RoundtripReport::Success
    } else {
        RoundtripReport::Mismatch
    }
}

/// Tests encryption and decryption between two parties whose keys are all
/// given in hexadecimal: builds the initiator's and the responder's
/// session, encrypts the message on the one and decrypts it on the other.
///
/// The first input that is not valid is reported; with valid inputs the
/// report is that of the sessions, and a success means that the message
/// came back as it was sent.
pub fn test_dm_encrypt_decrypt(
    local_ed25519_hex: &str,
    local_x25519_secret_hex: &str,
    local_x25519_public_hex: &str,
    remote_ed25519_hex: &str,
    remote_x25519_secret_hex: &str,
    remote_x25519_public_hex: &str,
    test_message_hex: &str,
) -> (report: RoundtripReport)
    ensures
        match first_invalid_input(
            local_ed25519_hex@,
            local_x25519_secret_hex@,
            local_x25519_public_hex@,
            remote_ed25519_hex@,
            remote_x25519_secret_hex@,
            remote_x25519_public_hex@,
            test_message_hex@,
        ) {
            Some(input) => report == RoundtripReport::InvalidInput(input),
            None => !(report is InvalidInput),
        },
        hex_bytes(encode_utf8(test_message_hex@)).len() + 16 > MAX_MESSAGE_LEN ==> !(report
            is Success),
{
    let local_ed25519 = match parse_hex_32(local_ed25519_hex) {
        Some(key) => key,
        None => return RoundtripReport::InvalidInput(RoundtripInput::LocalEd25519),
    };
    let local_x25519_secret = match parse_hex_32(local_x25519_secret_hex) {
        Some(key) => key,
        None => return RoundtripReport::InvalidInput(RoundtripInput::LocalX25519Secret),
    };
    let local_x25519_public = match parse_hex_32(local_x25519_public_hex) {
        Some(key) => key,
        None => return RoundtripReport::InvalidInput(RoundtripInput::LocalX25519Public),
    };
    let remote_ed25519 = match parse_hex_32(remote_ed25519_hex) {
        Some(key) => key,
        None => return RoundtripReport::InvalidInput(RoundtripInput::RemoteEd25519),
    };
    let remote_x25519_secret = match parse_hex_32(remote_x25519_secret_hex) {
        Some(key) => key,
        None => return RoundtripReport::InvalidInput(RoundtripInput::RemoteX25519Secret),
    };
    let remote_x25519_public = match parse_hex_32(remote_x25519_public_hex) {
        Some(key) => key,
        None => return RoundtripReport::InvalidInput(RoundtripInput::RemoteX25519Public),
    };
    let test_message = match parse_hex_vec(test_message_hex) {
        Some(bytes) => bytes,
        None => return RoundtripReport::InvalidInput(RoundtripInput::TestMessage),
    };
    let mut init_session = match create_test_session(
        &local_ed25519,
        &local_x25519_secret,
        &local_x25519_public,
        &remote_ed25519,
        &remote_x25519_secret,
        &remote_x25519_public,
        true,
    ) {
        Ok(session) => session,
        Err(e) => return RoundtripReport::InitiatorSession(e),
    };
    let mut resp_session = match create_test_session(
        &local_ed25519,
        &local_x25519_secret,
        &local_x25519_public,
        &remote_ed25519,
        &remote_x25519_secret,
        &remote_x25519_public,
        false,
    ) {
        Ok(session) => session,
        Err(e) => return RoundtripReport::ResponderSession(e),
    };
    let ciphertext = match init_session.encrypt(test_message.as_slice()) {
        Ok(ciphertext) => ciphertext,
        Err(e) => return RoundtripReport::Encrypt(e),
    };
    let decrypted = match resp_session.decrypt(ciphertext.as_slice()) {
        Ok(plaintext) => plaintext,
        Err(e) => return RoundtripReport::Decrypt(e),
    };
    roundtrip_verdict(test_message.as_slice(), decrypted.as_slice())
}

/// Derives the channel of a geohash and a topic, in hexadecimal.
pub fn derive_geo_channel_id(geohash: &str, topic: &str) -> (text: String)
    ensures
        text@ == hex_string(geo_channel_id(geohash@, topic@)),
{
    let id = crate::geo::derive_geo_channel_id(geohash, topic);
    crate::geo::channel_id_to_hex(&id)
}

/// The row under which the channel whose id is given in hexadecimal is
/// registered as a channel of a place and a topic.
pub fn geo_channel_row(channel_id_hex: &str) -> (row: Option<ChannelRow>)
    ensures
        row is Some <==> is_hex_32(channel_id_hex@),
        row matches Some(r) ==> r.channel_id@ == hex_bytes(encode_utf8(channel_id_hex@))
            && r.channel_type@ == GEO_CHANNEL_TYPE@,
{
    match parse_hex_32(channel_id_hex) {
        Some(channel_id) => Some(
            ChannelRow { channel_id, channel_type: GEO_CHANNEL_TYPE.to_owned() },
        ),
        None => None,
    }
}

/// A registered channel as it is listed for the host.
#[derive(Debug)]
pub struct ChannelSummary {
    /// The channel's id in hexadecimal.
    pub channel_id: String,
    /// The type under which the channel is registered.
    pub channel_type: String,
}

/// Lists registered channels for the host, in the order given.
pub fn list_channels(rows: &Vec<ChannelRow>) -> (listed: Vec<ChannelSummary>)
    ensures
        listed@.len() == rows@.len(),
        forall|i: int|
            0 <= i < rows@.len() ==> (#[trigger] listed@[i]).channel_id@ == hex_string(
                rows@[i].channel_id@,
            ) && listed@[i].channel_type@ == rows@[i].channel_type@,
{
    let mut listed: Vec<ChannelSummary> = Vec::new();
    let n = rows.len();
    let mut i: usize = 0;
    while i < n
        invariant
            n == rows@.len(),
            i <= n,
            listed@.len() == i,
            forall|j: int|
                0 <= j < i ==> (#[trigger] listed@[j]).channel_id@ == hex_string(
                    rows@[j].channel_id@,
                ) && listed@[j].channel_type@ == rows@[j].channel_type@,
        decreases n - i,
    {
        listed.push(
            ChannelSummary {
                channel_id: hex_encode(rows[i].channel_id.as_slice()),
                channel_type: rows[i].channel_type.clone(),
            },
        );
        i += 1;
    }
    listed
}

/// Builds the row of a message whose ids and ciphertext are given in
/// hexadecimal; `None` unless the ids are 64 hexadecimal digits each and
/// the ciphertext is hexadecimal.
pub fn message_row_from_hex(
    message_id_hex: &str,
    channel_id_hex: &str,
    ciphertext_hex: &str,
    timestamp: i64,
    ttl: u8,
) -> (row: Option<MessageRow>)
    ensures
        row is Some <==> is_hex_32(message_id_hex@) && is_hex_32(channel_id_hex@) && is_hex(
            encode_utf8(ciphertext_hex@),
        ),
        row matches Some(r) ==> r@ == (MessageRowView {
            message_id: hex_bytes(encode_utf8(message_id_hex@)),
            channel_id: hex_bytes(encode_utf8(channel_id_hex@)),
            ciphertext: hex_bytes(encode_utf8(ciphertext_hex@)),
            timestamp,
            ttl,
        }),
{
    let message_id = match parse_hex_32(message_id_hex) {
        Some(id) => id,
        None => return None,
    };
    let channel_id = match parse_hex_32(channel_id_hex) {
        Some(id) => id,
        None => return None,
    };
    let ciphertext = match parse_hex_vec(ciphertext_hex) {
        Some(bytes) => bytes,
        None => return None,
    };
    Some(MessageRow { message_id, channel_id, ciphertext, timestamp, ttl })
}

/// A stored message as it is listed for the host.
#[derive(Debug)]
pub struct MessageSummary {
    /// The message's id in hexadecimal.
    pub message_id: String,
    /// The channel's id in hexadecimal.
    pub channel_id: String,
    /// The ciphertext in hexadecimal.
    pub ciphertext: String,
    pub timestamp: i64,
    pub ttl: u8,
}

/// Whether a summary lists a stored message.
pub open spec fn lists_message(summary: MessageSummary, row: MessageRowView) -> bool {
    &&& summary.message_id@ == hex_string(row.message_id)
    &&& summary.channel_id@ == hex_string(row.channel_id)
    &&& summary.ciphertext@ == hex_string(row.ciphertext)
    &&& summary.timestamp == row.timestamp
    &&& summary.ttl == row.ttl
}

/// Lists stored messages for the host, in the order given.
pub fn list_messages(rows: &Vec<MessageRow>) -> (listed: Vec<MessageSummary>)
    ensures
        listed@.len() == rows@.len(),
        forall|i: int| 0 <= i < rows@.len() ==> lists_message(#[trigger] listed@[i], rows@[i]@),
{
    let mut listed: Vec<MessageSummary> = Vec::new();
    let n = rows.len();
    let mut i: usize = 0;
    while i < n
        invariant
            n == rows@.len(),
            i <= n,
            listed@.len() == i,
            forall|j: int| 0 <= j < i ==> lists_message(#[trigger] listed@[j], rows@[j]@),
        decreases n - i,
    {
        listed.push(
            MessageSummary {
                message_id: hex_encode(rows[i].message_id.as_slice()),
                channel_id: hex_encode(rows[i].channel_id.as_slice()),
                ciphertext: hex_encode(rows[i].ciphertext.as_slice()),
                timestamp: rows[i].timestamp,
                ttl: rows[i].ttl,
            },
        );
        i += 1;
    }
    listed
}

/// A router over a single loopback transport, for tests and local use.
pub fn init_router_with_loopback() -> (router: Router<LoopbackTransport>)
    ensures
        router.seen() == Set::<Seq<u8>>::empty(),
        router.transports().len() == 1,
        router.transports()[0].held() == Seq::<PacketView>::empty(),
{
    Router::with_loopback()
}

/// What routing a packet gave.
#[derive(Debug)]
pub struct Routed {
    /// The packet's id in hexadecimal.
    pub packet_id: String,
    /// What the router did with the packet.
    pub outcome: RouteOutcome,
    /// The row to keep in the message log: there is one exactly where the
    /// packet was new.
    pub row: Option<MessageRow>,
}

/// What routing `packet` at the time `now` gives: the router's outcome, the
/// packet's id in hexadecimal, and the row to keep where the packet was new.
pub open spec fn routed_as<T: Transport>(
    before: Router<T>,
    after: Router<T>,
    packet: PacketView,
    now: i64,
    routed: Routed,
) -> bool {
    &&& routed.packet_id@ == hex_string(packet.packet_id)
    &&& after.seen() == before.seen().insert(packet.packet_id)
    &&& after.transports().len() == before.transports().len()
    &&& routed.outcome is Duplicate <==> before.seen().contains(packet.packet_id)
    &&& routed.outcome is Delivered <==> !before.seen().contains(packet.packet_id) && packet.ttl
        == 0
    &&& !(routed.outcome is Forwarded) ==> after.transports() == before.transports()
    &&& routed.outcome matches RouteOutcome::Forwarded { deliveries } ==> {
        &&& deliveries@.len() == before.transports().len()
        &&& forall|i: int|
            0 <= i < deliveries@.len() ==> delivered(
                before.transports()[i],
                after.transports()[i],
                #[trigger] deliveries@[i],
                forwarded(packet),
            )
    }
    &&& routed.row is Some <==> !before.seen().contains(packet.packet_id)
    &&& routed.row matches Some(row) ==> row@ == row_of_packet(packet, now)
}

/// Routes a packet at the time `now` and builds the row under which a new
/// packet is kept.
pub fn route_packet_at<T: Transport>(
    router: &mut Router<T>,
    packet: Packet,
    now: i64,
) -> (routed: Routed)
    ensures
        routed_as(*old(router), *final(router), packet@, now, routed),
{
    let packet_id = hex_encode(packet.packet_id.as_slice());
    let row = MessageRow::from_packet(&packet, now);
    let outcome = router.route(packet);
    let row = if outcome.is_novel() {
        Some(row)
    } else {
        None
    };
    Routed { packet_id, outcome, row }
}

/// The packet that the hexadecimal fields spell, if they are valid: the ids
/// must be 64 hexadecimal digits each and the payload hexadecimal.
pub open spec fn packet_from_hex(
    packet_id_hex: Seq<char>,
    channel_id_hex: Seq<char>,
    payload_hex: Seq<char>,
    ttl: u8,
) -> Option<PacketView> {
    if is_hex_32(packet_id_hex) && is_hex_32(channel_id_hex) && is_hex(encode_utf8(payload_hex)) {
        Some(
            PacketView {
                packet_id: hex_bytes(encode_utf8(packet_id_hex)),
                channel_id: hex_bytes(encode_utf8(channel_id_hex)),
                ttl,
                payload: hex_bytes(encode_utf8(payload_hex)),
            },
        )
    } else {
        None
    }
}

/// Takes in a packet that arrived from the mesh at the time `now`, its ids
/// and payload given in hexadecimal, and routes it.
pub fn ingest_packet_at<T: Transport>(
    router: &mut Router<T>,
    packet_id_hex: &str,
    channel_id_hex: &str,
    payload_hex: &str,
    ttl: u8,
    now: i64,
) -> (routed: Result<Routed, ApiError>)
    ensures
        match packet_from_hex(packet_id_hex@, channel_id_hex@, payload_hex@, ttl) {
            Some(packet) => routed matches Ok(r) && routed_as(
                *old(router),
                *final(router),
                packet,
                now,
                r,
            ),
            None => routed == Err::<Routed, ApiError>(ApiError::InvalidHex) && *final(router)
                == *old(router),
        },
{
    let packet_id = match parse_hex_32(packet_id_hex) {
        Some(id) => id,
        None => return Err(ApiError::InvalidHex),
    };
    let channel_id = match parse_hex_32(channel_id_hex) {
        Some(id) => id,
        None => return Err(ApiError::InvalidHex),
    };
    let payload = match parse_hex_vec(payload_hex) {
        Some(bytes) => bytes,
        None => return Err(ApiError::InvalidHex),
    };
    let packet = Packet { packet_id, channel_id, ttl, payload };
    Ok(route_packet_at(router, packet, now))
}

/// Takes in a packet that arrived from the mesh now, its ids and payload
/// given in hexadecimal, and routes it. The row of a new packet is stamped
/// with the current time.
pub fn ingest_packet<T: Transport>(
    router: &mut Router<T>,
    packet_id_hex: &str,
    channel_id_hex: &str,
    payload_hex: &str,
    ttl: u8,
) -> (routed: Result<Routed, ApiError>)
    ensures
        match packet_from_hex(packet_id_hex@, channel_id_hex@, payload_hex@, ttl) {
            Some(packet) => routed matches Ok(r) && exists|now: i64|
                routed_as(*old(router), *final(router), packet, now, r),
            None => routed == Err::<Routed, ApiError>(ApiError::InvalidHex) && *final(router)
                == *old(router),
        },
{
    let now = now_ts();
    ingest_packet_at(router, packet_id_hex, channel_id_hex, payload_hex, ttl, now)
}

/// Sends a packet that starts here: routes it under the given id, or under
/// a random one where none is given. The row of a new packet is stamped
/// with the current time.
///
/// The channel's id and the payload must be valid hexadecimal, and so must
/// the packet's id where one is given.
pub fn send_packet<T: Transport>(
    router: &mut Router<T>,
    packet_id_hex: Option<&str>,
    channel_id_hex: &str,
    payload_hex: &str,
    ttl: u8,
) -> (routed: Result<Routed, ApiError>)
    ensures
        routed is Ok <==> is_hex_32(channel_id_hex@) && is_hex(encode_utf8(payload_hex@)) && (
        packet_id_hex matches Some(text) ==> is_hex_32(text@)),
        routed matches Ok(r) ==> exists|packet_id: Seq<u8>, now: i64|
            {
                &&& packet_id.len() == 32
                &&& packet_id_hex matches Some(text) ==> packet_id == hex_bytes(encode_utf8(text@))
                &&& #[trigger] routed_as(
                    *old(router),
                    *final(router),
                    PacketView {
                        packet_id,
                        channel_id: hex_bytes(encode_utf8(channel_id_hex@)),
                        ttl,
                        payload: hex_bytes(encode_utf8(payload_hex@)),
                    },
                    now,
                    r,
                )
            },
        routed matches Err(e) ==> e == ApiError::InvalidHex && *final(router) == *old(router),
{
    let channel_id = match parse_hex_32(channel_id_hex) {
        Some(id) => id,
        None => return Err(ApiError::InvalidHex),
    };
    let payload = match parse_hex_vec(payload_hex) {
        Some(bytes) => bytes,
        None => return Err(ApiError::InvalidHex),
    };
    let packet_id = match packet_id_hex {
        Some(text) => match parse_hex_32(text) {
            Some(id) => id,
            None => return Err(ApiError::InvalidHex),
        },
        None => Router::<T>::generate_packet_id(),
    };
    let packet = Packet { packet_id, channel_id, ttl, payload };
    let now = now_ts();
    let ghost sent = packet@;
    let routed = route_packet_at(router, packet, now);
    Ok(routed)
}

/// A packet as it is listed for the host.
#[derive(Debug)]
pub struct PacketSummary {
    /// The packet's id in hexadecimal.
    pub packet_id: String,
    /// The channel's id in hexadecimal.
    pub channel_id: String,
    pub ttl: u8,
    /// The payload in hexadecimal.
    pub payload: String,
}

/// Whether a summary lists a packet.
pub open spec fn lists_packet(summary: PacketSummary, packet: PacketView) -> bool {
    &&& summary.packet_id@ == hex_string(packet.packet_id)
    &&& summary.channel_id@ == hex_string(packet.channel_id)
    &&& summary.ttl == packet.ttl
    &&& summary.payload@ == hex_string(packet.payload)
}

/// Takes out the packets that the router's first loopback transport holds
/// and lists them for the host, oldest first.
pub fn drain_loopback_packets(router: &mut Router<LoopbackTransport>) -> (listed: Vec<
    PacketSummary,
>)
    ensures
        final(router).seen() == old(router).seen(),
        final(router).transports().len() == old(router).transports().len(),
        old(router).transports().len() == 0 ==> listed@.len() == 0,
        old(router).transports().len() > 0 ==> {
            let held = old(router).transports()[0].held();
            &&& listed@.len() == held.len()
            &&& forall|i: int| 0 <= i < held.len() ==> lists_packet(#[trigger] listed@[i], held[i])
            &&& final(router).transports()[0].held() == Seq::<PacketView>::empty()
        },
{
    let packets = router.drain(0);
    let ghost held = packets@.map_values(|p: Packet| p@);
    let mut listed: Vec<PacketSummary> = Vec::new();
    let n = packets.len();
    let mut i: usize = 0;
    while i < n
        invariant
            n == packets@.len(),
            i <= n,
            listed@.len() == i,
            held == packets@.map_values(|p: Packet| p@),
            forall|j: int| 0 <= j < i ==> lists_packet(#[trigger] listed@[j], held[j]),
        decreases n - i,
    {
        listed.push(
            PacketSummary {
                packet_id: hex_encode(packets[i].packet_id.as_slice()),
                channel_id: hex_encode(packets[i].channel_id.as_slice()),
                ttl: packets[i].ttl,
                payload: hex_encode(packets[i].payload.as_slice()),
            },
        );
        i += 1;
    }
    listed
}

/// The battery mode that a name in lowercase stands for; any other name
/// stands for the balanced mode.
pub open spec fn battery_mode_named(lowercase: Seq<char>) -> BatteryMode {
    if lowercase == "performance"@ {
        BatteryMode::Performance
    } else if lowercase == "powersaving"@ || lowercase == "power_saving"@ {
        BatteryMode::PowerSaving
    } else {
        BatteryMode::Balanced
    }
}

/// The battery mode that a name in lowercase stands for.
pub fn battery_mode_from_name(lowercase: &str) -> (mode: BatteryMode)
    ensures
        mode == battery_mode_named(lowercase@),
{
    if str_eq(lowercase, "performance") {
        BatteryMode::Performance
    } else if str_eq(lowercase, "powersaving") || str_eq(lowercase, "power_saving") {
        BatteryMode::PowerSaving
    } else {
        BatteryMode::Balanced
    }
}

/// The name of a battery mode, as it is shown to the host.
pub fn battery_mode_name(mode: BatteryMode) -> (name: &'static str)
    ensures
        name@ == match mode {
            BatteryMode::Performance => "Performance"@,
            BatteryMode::Balanced => "Balanced"@,
            BatteryMode::PowerSaving => "PowerSaving"@,
        },
{
    match mode {
        BatteryMode::Performance => "Performance",
        BatteryMode::Balanced => "Balanced",
        BatteryMode::PowerSaving => "PowerSaving",
    }
}

/// The settings of a battery mode as they are shown to the host.
#[derive(Clone, Copy, Debug, PartialEq, Eq, Structural)]
pub struct OptimizationSummary {
    pub battery_mode: BatteryMode,
    pub scan_interval_ms: u64,
    pub scan_window_ms: u64,
    pub batch_size: usize,
    pub batch_age_secs: u64,
}

/// The settings that a battery mode recommends, with the scan window that
/// goes with the interval: half of it.
pub open spec fn summary_of_mode(mode: BatteryMode) -> OptimizationSummary {
    OptimizationSummary {
        battery_mode: mode,
        scan_interval_ms: mode.scan_interval().millis(),
        scan_window_ms: mode.scan_interval().millis() / 2,
        batch_size: mode.batch_size(),
        batch_age_secs: mode.batch_age_secs(),
    }
}

/// The settings of the battery mode with the given name, in any case:
/// `performance`, `balanced`, `powersaving` or `power_saving`. Any other
/// name gives the balanced mode.
pub fn get_optimization_config(battery_mode: &str) -> (summary: OptimizationSummary)
    ensures
        summary == summary_of_mode(battery_mode_named(unicode_lowercase(battery_mode@))),
{
    let lower = to_lowercase(battery_mode);
    let mode = battery_mode_from_name(lower.as_str());
    let config = OptimizationConfig::from_battery_mode(mode);
    OptimizationSummary {
        battery_mode: mode,
        scan_interval_ms: config.scan_interval.as_millis(),
        scan_window_ms: config.scan_interval.scan_window_ms(),
        batch_size: config.batch_size,
        batch_age_secs: config.batch_age_secs,
    }
}

} // verus!
