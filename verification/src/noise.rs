//! The Noise handshake and transport states of the `snow` crate.
//!
//! A handshake draws fresh ephemeral keys, so nothing here names what a
//! message holds: the contracts state the lengths that `snow` guarantees.

use vstd::prelude::*;

verus! {

/// Room that a handshake message takes beyond its payload: two public keys
/// and two tags fit well within it.
pub const HANDSHAKE_OVERHEAD: usize = 256;

/// The Poly1305 tag that closes every transport message.
pub const TAG_LEN: usize = 16;

/// The longest message that the Noise protocol carries.
pub const MAX_MESSAGE_LEN: usize = 65535;

/// `snow::Error`: why a step of the protocol failed.
#[verifier::external_type_specification]
#[verifier::external_body]
pub struct ExNoiseError(snow::Error);

/// `snow::params::NoiseParams`: a protocol name, parsed.
#[verifier::external_type_specification]
#[verifier::external_body]
pub struct ExNoiseParams(snow::params::NoiseParams);

/// `snow::Builder`: collects the keys of one side of a handshake.
#[verifier::external_type_specification]
#[verifier::external_body]
pub struct ExBuilder<'builder>(snow::Builder<'builder>);

/// `snow::HandshakeState`: one side of a handshake in progress.
#[verifier::external_type_specification]
#[verifier::external_body]
pub struct ExHandshakeState(snow::HandshakeState);

/// `snow::TransportState`: one side of an established session.
#[verifier::external_type_specification]
#[verifier::external_body]
pub struct ExTransportState(snow::TransportState);

/// Calls `str::parse` for `snow::params::NoiseParams`: it reads a protocol
/// name such as `Noise_IK_25519_ChaChaPoly_SHA256`.
#[verifier::external_body]
pub(crate) fn parse_params(name: &str) -> Result<snow::params::NoiseParams, snow::Error> {
    name.parse()
}

/// Calls `snow::Builder::new`.
#[verifier::external_body]
pub(crate) fn builder_new<'builder>(params: snow::params::NoiseParams) -> snow::Builder<'builder> {
    snow::Builder::new(params)
}

/// Calls `snow::Builder::local_private_key`, which fails when a key was set before.
#[verifier::external_body]
pub(crate) fn builder_local_private_key<'builder>(
    builder: snow::Builder<'builder>,
    key: &'builder [u8; 32],
) -> Result<snow::Builder<'builder>, snow::Error> {
    builder.local_private_key(key)
}

/// Calls `snow::Builder::remote_public_key`, which fails when a key was set before.
#[verifier::external_body]
pub(crate) fn builder_remote_public_key<'builder>(
    builder: snow::Builder<'builder>,
    key: &'builder [u8; 32],
) -> Result<snow::Builder<'builder>, snow::Error> {
    builder.remote_public_key(key)
}

/// Calls `snow::Builder::build_initiator`.
#[verifier::external_body]
pub(crate) fn build_initiator(builder: snow::Builder<'_>) -> Result<
    snow::HandshakeState,
    snow::Error,
> {
    builder.build_initiator()
}

/// Calls `snow::Builder::build_responder`.
#[verifier::external_body]
pub(crate) fn build_responder(builder: snow::Builder<'_>) -> Result<
    snow::HandshakeState,
    snow::Error,
> {
    builder.build_responder()
}

/// Calls `snow::HandshakeState::write_message`, which returns the number of
/// bytes it wrote into `message`. The buffer keeps its length, and must leave
/// room for the handshake's keys and tags beyond the payload.
#[verifier::external_body]
pub(crate) fn handshake_write(
    state: &mut snow::HandshakeState,
    payload: &[u8],
    message: &mut Vec<u8>,
) -> (written: Result<usize, snow::Error>)
    requires
        payload@.len() + HANDSHAKE_OVERHEAD <= old(message)@.len(),
    ensures
        final(message)@.len() == old(message)@.len(),
        written matches Ok(len) ==> len <= old(message)@.len(),
{
    state.write_message(payload, message.as_mut_slice())
}

/// Calls `snow::HandshakeState::read_message`, which returns the number of
/// payload bytes it wrote into `payload`. The buffer keeps its length.
#[verifier::external_body]
pub(crate) fn handshake_read(
    state: &mut snow::HandshakeState,
    message: &[u8],
    payload: &mut Vec<u8>,
) -> (read: Result<usize, snow::Error>)
    ensures
        final(payload)@.len() == old(payload)@.len(),
        read matches Ok(len) ==> len <= old(payload)@.len(),
{
    state.read_message(message, payload.as_mut_slice())
}

/// Calls `snow::HandshakeState::into_transport_mode`, which fails unless the
/// handshake has finished.
#[verifier::external_body]
pub(crate) fn into_transport_mode(state: snow::HandshakeState) -> Result<
    snow::TransportState,
    snow::Error,
> {
    state.into_transport_mode()
}

/// Calls `snow::TransportState::write_message`. It refuses a payload that,
/// with its tag, exceeds the protocol's message length or the buffer, and
/// otherwise writes the payload's length plus the tag. The buffer keeps its
/// length.
#[verifier::external_body]
pub(crate) fn transport_write(
    state: &mut snow::TransportState,
    payload: &[u8],
    message: &mut Vec<u8>,
) -> (written: Result<usize, snow::Error>)
    requires
        payload@.len() + TAG_LEN <= usize::MAX,
    ensures
        final(message)@.len() == old(message)@.len(),
        written matches Ok(len) ==> {
            &&& len == payload@.len() + TAG_LEN
            &&& len <= MAX_MESSAGE_LEN
            &&& len <= old(message)@.len()
        },
        payload@.len() + TAG_LEN > MAX_MESSAGE_LEN ==> written is Err,
        payload@.len() + TAG_LEN > old(message)@.len() ==> written is Err,
{
    state.write_message(payload, message.as_mut_slice())
}

/// Calls `snow::TransportState::read_message`. It refuses a message longer
/// than the protocol allows, shorter than a tag, or larger than the buffer
/// takes, and otherwise writes the message's length less the tag. The buffer
/// keeps its length.
#[verifier::external_body]
pub(crate) fn transport_read(
    state: &mut snow::TransportState,
    message: &[u8],
    payload: &mut Vec<u8>,
) -> (read: Result<usize, snow::Error>)
    ensures
        final(payload)@.len() == old(payload)@.len(),
        read matches Ok(len) ==> {
            &&& len + TAG_LEN == message@.len()
            &&& message@.len() <= MAX_MESSAGE_LEN
            &&& len <= old(payload)@.len()
        },
        message@.len() > MAX_MESSAGE_LEN ==> read is Err,
        message@.len() < TAG_LEN ==> read is Err,
{
    state.read_message(message, payload.as_mut_slice())
}

} // verus!
