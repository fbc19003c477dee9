//! The rows of the message log and the statements that keep them.
//!
//! The log lives in an embedded relational store that the host opens; this
//! module holds the shape of its rows, the statements that read and write
//! them, and the check of what comes back.

use vstd::prelude::*;
use crate::bytes::to_array32;
use crate::transport::Packet;

verus! {

/// Creates the two tables where they do not exist yet.
pub const SCHEMA_SQL: &'static str =
    "CREATE TABLE IF NOT EXISTS messages (message_id BLOB PRIMARY KEY, channel_id BLOB NOT NULL, ciphertext BLOB NOT NULL, timestamp INTEGER NOT NULL, ttl INTEGER NOT NULL); CREATE TABLE IF NOT EXISTS channels (channel_id BLOB PRIMARY KEY, type TEXT NOT NULL);";

/// Keeps a message unless one with its id is kept already.
pub const INSERT_MESSAGE_SQL: &'static str =
    "INSERT OR IGNORE INTO messages (message_id, channel_id, ciphertext, timestamp, ttl) VALUES (?1, ?2, ?3, ?4, ?5)";

/// Reads a page of a channel's messages, oldest first.
pub const FETCH_MESSAGES_SQL: &'static str =
    "SELECT message_id, channel_id, ciphertext, timestamp, ttl FROM messages WHERE channel_id = ?1 ORDER BY timestamp ASC LIMIT ?2 OFFSET ?3";

/// Removes all messages of a channel.
pub const DELETE_CHANNEL_MESSAGES_SQL: &'static str = "DELETE FROM messages WHERE channel_id = ?1";

/// Registers a channel unless it is registered already.
pub const UPSERT_CHANNEL_SQL: &'static str =
    "INSERT OR IGNORE INTO channels (channel_id, type) VALUES (?1, ?2)";

/// Reads the channels of a type.
pub const LIST_CHANNELS_SQL: &'static str = "SELECT channel_id, type FROM channels WHERE type = ?1";

/// The type under which channels of a place and a topic are registered.
pub const GEO_CHANNEL_TYPE: &'static str = "geo";

/// The hops that a direct message may take through the mesh.
pub const DEFAULT_TTL: u8 = 10;

/// A message as the log keeps it.
#[derive(Clone, Debug)]
pub struct MessageRow {
    pub message_id: [u8; 32],
    pub channel_id: [u8; 32],
    pub ciphertext: Vec<u8>,
    pub timestamp: i64,
    pub ttl: u8,
}

/// What a message row holds, as plain values.
pub struct MessageRowView {
    pub message_id: Seq<u8>,
    pub channel_id: Seq<u8>,
    pub ciphertext: Seq<u8>,
    pub timestamp: i64,
    pub ttl: u8,
}

impl View for MessageRow {
    type V = MessageRowView;

    open spec fn view(&self) -> MessageRowView {
        MessageRowView {
            message_id: self.message_id@,
            channel_id: self.channel_id@,
            ciphertext: self.ciphertext@,
            timestamp: self.timestamp,
            ttl: self.ttl,
        }
    }
}

/// A registered channel as the log keeps it.
#[derive(Clone, Debug)]
pub struct ChannelRow {
    pub channel_id: [u8; 32],
    pub channel_type: String,
}

/// Why the columns of a stored row were refused.
#[derive(Clone, Copy, Debug, PartialEq, Eq, Structural)]
pub enum RowError {
    /// The message id is not 32 bytes long.
    MessageIdLength,
    /// The channel id is not 32 bytes long.
    ChannelIdLength,
}

/// The row under which a routed packet is kept: the packet's id is the
/// message's id.
pub open spec fn row_of_packet(packet: crate::transport::PacketView, now: i64) -> MessageRowView {
    MessageRowView {
        message_id: packet.packet_id,
        channel_id: packet.channel_id,
        ciphertext: packet.payload,
        timestamp: now,
        ttl: packet.ttl,
    }
}

impl MessageRow {
    /// Builds a row from the columns of a stored message. The two ids must
    /// be 32 bytes long; the hop count is cut to its low eight bits.
    pub fn from_columns(
        message_id: &[u8],
        channel_id: &[u8],
        ciphertext: Vec<u8>,
        timestamp: i64,
        ttl: i64,
    ) -> (row: Result<MessageRow, RowError>)
        ensures
            row is Ok <==> message_id@.len() == 32 && channel_id@.len() == 32,
            row matches Ok(r) ==> r@ == (MessageRowView {
                message_id: message_id@,
                channel_id: channel_id@,
                ciphertext: ciphertext@,
                timestamp,
                ttl: ttl as u8,
            }),
            row == Err::<MessageRow, RowError>(RowError::MessageIdLength) <==> message_id@.len()
                != 32,
            row matches Err(e) ==> e == RowError::MessageIdLength || e
                == RowError::ChannelIdLength,
    {
        if message_id.len() != 32 {
            return Err(RowError::MessageIdLength);
        }
        if channel_id.len() != 32 {
            return Err(RowError::ChannelIdLength);
        }
        Ok(
            MessageRow {
                message_id: to_array32(message_id),
                channel_id: to_array32(channel_id),
                ciphertext,
                timestamp,
                ttl: #[verifier::truncate]
                (ttl as u8),
            },
        )
    }

    /// The row under which a routed packet is kept, stamped with the time at
    /// which it arrived.
    pub fn from_packet(packet: &Packet, now: i64) -> (row: MessageRow)
        ensures
            row@ == row_of_packet(packet@, now),
    {
        MessageRow {
            message_id: packet.packet_id,
            channel_id: packet.channel_id,
            ciphertext: packet.payload.clone(),
            timestamp: now,
            ttl: packet.ttl,
        }
    }
}

impl ChannelRow {
    /// Builds a row from the columns of a stored channel. The id must be 32
    /// bytes long.
    pub fn from_columns(channel_id: &[u8], channel_type: String) -> (row: Result<
        ChannelRow,
        RowError,
    >)
        ensures
            row is Ok <==> channel_id@.len() == 32,
            row matches Ok(r) ==> r.channel_id@ == channel_id@ && r.channel_type@
                == channel_type@,
            row matches Err(e) ==> e == RowError::ChannelIdLength,
    {
        if channel_id.len() != 32 {
            return Err(RowError::ChannelIdLength);
        }
        Ok(ChannelRow { channel_id: to_array32(channel_id), channel_type })
    }
}

} // verus!
