//! Direct-message cryptography: channel derivation, Noise IK sessions and
//! the deterministic encryption of messages to oneself.

use vstd::prelude::*;
use vstd::utf8::encode_utf8;
use crate::aead::{
    aead_open, aead_seal, chacha20poly1305_open, chacha20poly1305_seal, cipher_accepts,
};
use crate::bytes::{bytes_le, lemma_lex_antisymmetric, lemma_lex_total, lex_le};
use crate::error::{CryptoError, HandshakeStep};
use crate::hash::{sha256, sha256_digest};
use crate::hexcode::{hex_encode, hex_string};
use crate::noise::{
    build_initiator, build_responder, builder_local_private_key, builder_new,
    builder_remote_public_key, handshake_read, handshake_write, into_transport_mode, parse_params,
    transport_read, transport_write, MAX_MESSAGE_LEN, TAG_LEN,
};

verus! {

/// The Noise protocol that direct-message sessions run.
pub const NOISE_PATTERN: &'static str = "Noise_IK_25519_ChaChaPoly_SHA256";

/// The label hashed in front of a channel id to key messages to oneself.
pub const SELF_MESSAGE_LABEL: &'static str = "self_msg_key";

/// Size of the buffers that take the two handshake messages.
pub const HANDSHAKE_BUFFER_LEN: usize = 1024;

/// The channel of two parties: the hash of their public keys, the
/// lexicographically smaller one first.
pub open spec fn dm_channel_id(pub_a: Seq<u8>, pub_b: Seq<u8>) -> Seq<u8> {
    if lex_le(pub_a, pub_b) {
        sha256(pub_a + pub_b)
    } else {
        sha256(pub_b + pub_a)
    }
}

/// Both parties derive the same channel: the order of the two keys does not matter.
pub proof fn lemma_dm_channel_id_commutes(pub_a: Seq<u8>, pub_b: Seq<u8>)
    ensures
        dm_channel_id(pub_a, pub_b) == dm_channel_id(pub_b, pub_a),
{
    lemma_lex_total(pub_a, pub_b);
    if lex_le(pub_a, pub_b) && lex_le(pub_b, pub_a) {
        lemma_lex_antisymmetric(pub_a, pub_b);
    }
}

/// Derives the channel id of the two parties with these Ed25519 public keys.
pub fn derive_dm_channel_id(pub_a: &[u8; 32], pub_b: &[u8; 32]) -> (channel_id: [u8; 32])
    ensures
        channel_id@ == dm_channel_id(pub_a@, pub_b@),
{
    let mut joined: Vec<u8> = Vec::new();
    if bytes_le(pub_a.as_slice(), pub_b.as_slice()) {
        joined.extend_from_slice(pub_a.as_slice());
        joined.extend_from_slice(pub_b.as_slice());
        assert(joined@ =~= pub_a@ + pub_b@);
    } else {
        joined.extend_from_slice(pub_b.as_slice());
        joined.extend_from_slice(pub_a.as_slice());
        assert(joined@ =~= pub_b@ + pub_a@);
    }
    sha256_digest(joined.as_slice())
}

/// The hexadecimal text of a channel id.
pub fn dm_channel_id_to_hex(channel_id: &[u8; 32]) -> (text: String)
    ensures
        text@ == hex_string(channel_id@),
{
    hex_encode(channel_id.as_slice())
}

/// Runs both sides of a Noise IK handshake in one place and returns the
/// initiator's and the responder's transport states.
///
/// Each side is given its own private key and the other's public key. The
/// handshake draws fresh ephemeral keys and its outcome rests on the four
/// keys belonging together, so only the failing step is reported.
pub fn perform_full_ik_handshake(
    initiator_x25519_secret: &[u8; 32],
    responder_x25519_secret: &[u8; 32],
    initiator_x25519_public: &[u8; 32],
    responder_x25519_public: &[u8; 32],
) -> (done: Result<(snow::TransportState, snow::TransportState), CryptoError>)
    ensures
        done matches Err(e) ==> e is Handshake,
{
    let init_params = match parse_params(NOISE_PATTERN) {
        Ok(params) => params,
        Err(_) => return Err(CryptoError::Handshake(HandshakeStep::Pattern)),
    };
    let init_builder = match builder_local_private_key(
        builder_new(init_params),
        initiator_x25519_secret,
    ) {
        Ok(builder) => builder,
        Err(_) => return Err(CryptoError::Handshake(HandshakeStep::InitiatorLocalKey)),
    };
    let init_builder = match builder_remote_public_key(init_builder, responder_x25519_public) {
        Ok(builder) => builder,
        Err(_) => return Err(CryptoError::Handshake(HandshakeStep::InitiatorRemoteKey)),
    };
    let mut init_handshake = match build_initiator(init_builder) {
        Ok(state) => state,
        Err(_) => return Err(CryptoError::Handshake(HandshakeStep::BuildInitiator)),
    };

    let resp_params = match parse_params(NOISE_PATTERN) {
        Ok(params) => params,
        Err(_) => return Err(CryptoError::Handshake(HandshakeStep::Pattern)),
    };
    let resp_builder = match builder_local_private_key(
        builder_new(resp_params),
        responder_x25519_secret,
    ) {
        Ok(builder) => builder,
        Err(_) => return Err(CryptoError::Handshake(HandshakeStep::ResponderLocalKey)),
    };
    let resp_builder = match builder_remote_public_key(resp_builder, initiator_x25519_public) {
        Ok(builder) => builder,
        Err(_) => return Err(CryptoError::Handshake(HandshakeStep::ResponderRemoteKey)),
    };
    let mut resp_handshake = match build_responder(resp_builder) {
        Ok(state) => state,
        Err(_) => return Err(CryptoError::Handshake(HandshakeStep::BuildResponder)),
    };

    let empty: Vec<u8> = Vec::new();

    // Initiator sends message 1.
    let mut msg1 = vec![0u8; HANDSHAKE_BUFFER_LEN];
    let msg1_len = match handshake_write(&mut init_handshake, empty.as_slice(), &mut msg1) {
        Ok(len) => len,
        Err(_) => return Err(CryptoError::Handshake(HandshakeStep::WriteMessage1)),
    };
    msg1.truncate(msg1_len);

    // Responder reads message 1 and sends message 2.
    let mut payload1 = vec![0u8; HANDSHAKE_BUFFER_LEN];
    match handshake_read(&mut resp_handshake, msg1.as_slice(), &mut payload1) {
        Ok(_) => {},
        Err(_) => return Err(CryptoError::Handshake(HandshakeStep::ReadMessage1)),
    }
    let mut msg2 = vec![0u8; HANDSHAKE_BUFFER_LEN];
    let msg2_len = match handshake_write(&mut resp_handshake, empty.as_slice(), &mut msg2) {
        Ok(len) => len,
        Err(_) => return Err(CryptoError::Handshake(HandshakeStep::WriteMessage2)),
    };
    msg2.truncate(msg2_len);

    // Initiator reads message 2.
    let mut payload2 = vec![0u8; HANDSHAKE_BUFFER_LEN];
    match handshake_read(&mut init_handshake, msg2.as_slice(), &mut payload2) {
        Ok(_) => {},
        Err(_) => return Err(CryptoError::Handshake(HandshakeStep::ReadMessage2)),
    }

    // Both sides enter transport mode.
    let init_transport = match into_transport_mode(init_handshake) {
        Ok(transport) => transport,
        Err(_) => return Err(CryptoError::Handshake(HandshakeStep::InitiatorTransport)),
    };
    let resp_transport = match into_transport_mode(resp_handshake) {
        Ok(transport) => transport,
        Err(_) => return Err(CryptoError::Handshake(HandshakeStep::ResponderTransport)),
    };
    Ok((init_transport, resp_transport))
}

/// Starts a Noise IK handshake as the initiator and writes its first message.
///
/// The handshake needs the responder's answer to finish, which this side
/// cannot produce alone: the call always fails. Use
/// [`perform_full_ik_handshake`] where both sides are at hand.
pub fn perform_ik_handshake_initiator(
    local_x25519_secret: &[u8; 32],
    remote_x25519_public: &[u8; 32],
) -> (done: Result<(Vec<u8>, snow::TransportState), CryptoError>)
    ensures
        done matches Err(e) && (e is Handshake || e == CryptoError::HandshakeIncomplete),
{
    let params = match parse_params(NOISE_PATTERN) {
        Ok(params) => params,
        Err(_) => return Err(CryptoError::Handshake(HandshakeStep::Pattern)),
    };
    let builder = match builder_local_private_key(builder_new(params), local_x25519_secret) {
        Ok(builder) => builder,
        Err(_) => return Err(CryptoError::Handshake(HandshakeStep::InitiatorLocalKey)),
    };
    let builder = match builder_remote_public_key(builder, remote_x25519_public) {
        Ok(builder) => builder,
        Err(_) => return Err(CryptoError::Handshake(HandshakeStep::InitiatorRemoteKey)),
    };
    let mut handshake = match build_initiator(builder) {
        Ok(state) => state,
        Err(_) => return Err(CryptoError::Handshake(HandshakeStep::BuildInitiator)),
    };
    let empty: Vec<u8> = Vec::new();
    let mut msg1 = vec![0u8; HANDSHAKE_BUFFER_LEN];
    match handshake_write(&mut handshake, empty.as_slice(), &mut msg1) {
        Ok(_) => {},
        Err(_) => return Err(CryptoError::Handshake(HandshakeStep::WriteMessage1)),
    }
    Err(CryptoError::HandshakeIncomplete)
}

/// Encrypts `plaintext` as the next message of a transport state.
fn transport_encrypt(transport: &mut snow::TransportState, plaintext: &[u8]) -> (sealed: Result<
    Vec<u8>,
    CryptoError,
>)
    ensures
        plaintext@.len() + TAG_LEN > MAX_MESSAGE_LEN ==> sealed is Err,
        sealed matches Ok(ciphertext) ==> ciphertext@.len() == plaintext@.len() + TAG_LEN,
        sealed matches Err(e) ==> e == CryptoError::Encrypt,
{
    if plaintext.len() > MAX_MESSAGE_LEN - TAG_LEN {
        return Err(CryptoError::Encrypt);
    }
    let mut ciphertext = vec![0u8; plaintext.len() + TAG_LEN];
    match transport_write(transport, plaintext, &mut ciphertext) {
        Ok(len) => {
            ciphertext.truncate(len);
            Ok(ciphertext)
        },
        Err(_) => Err(CryptoError::Encrypt),
    }
}

/// Decrypts `ciphertext` as the next message of a transport state.
fn transport_decrypt(transport: &mut snow::TransportState, ciphertext: &[u8]) -> (opened: Result<
    Vec<u8>,
    CryptoError,
>)
    ensures
        ciphertext@.len() < TAG_LEN || ciphertext@.len() > MAX_MESSAGE_LEN ==> opened is Err,
        opened matches Ok(plaintext) ==> plaintext@.len() + TAG_LEN == ciphertext@.len(),
        opened matches Err(e) ==> e == CryptoError::Decrypt,
{
    let mut plaintext = vec![0u8; ciphertext.len()];
    match transport_read(transport, ciphertext, &mut plaintext) {
        Ok(len) => {
            plaintext.truncate(len);
            Ok(plaintext)
        },
        Err(_) => Err(CryptoError::Decrypt),
    }
}

/// Noise state of a direct-message channel, before or after its handshake.
pub struct DmCryptoState {
    handshake_state: Option<snow::HandshakeState>,
    transport_state: Option<snow::TransportState>,
    channel_id: [u8; 32],
}

impl DmCryptoState {
    /// The channel that the state belongs to.
    pub closed spec fn channel(&self) -> Seq<u8> {
        self.channel_id@
    }

    /// Whether the handshake is done and messages can be exchanged.
    pub closed spec fn has_transport(&self) -> bool {
        self.transport_state is Some
    }

    /// Wraps the transport state of a finished handshake.
    pub fn from_transport(transport: snow::TransportState, channel_id: [u8; 32]) -> (state: Self)
        ensures
            state.channel() == channel_id@,
            state.has_transport(),
    {
        DmCryptoState { handshake_state: None, transport_state: Some(transport), channel_id }
    }

    /// Encrypts a message. The ciphertext is the plaintext's length plus the
    /// 16-byte tag; a plaintext that would exceed the protocol's message
    /// length is refused.
    pub fn encrypt(&mut self, plaintext: &[u8]) -> (sealed: Result<Vec<u8>, CryptoError>)
        ensures
            final(self).channel() == old(self).channel(),
            final(self).has_transport() == old(self).has_transport(),
            !old(self).has_transport() ==> sealed == Err::<Vec<u8>, CryptoError>(
                CryptoError::TransportMissing,
            ),
            plaintext@.len() + TAG_LEN > MAX_MESSAGE_LEN ==> sealed is Err,
            sealed matches Ok(ciphertext) ==> ciphertext@.len() == plaintext@.len() + TAG_LEN,
            sealed matches Err(e) ==> e == CryptoError::TransportMissing || e
                == CryptoError::Encrypt,
    {
        match &mut self.transport_state {
            Some(transport) => transport_encrypt(transport, plaintext),
            None => Err(CryptoError::TransportMissing),
        }
    }

    /// Decrypts a message. The plaintext is 16 bytes shorter than the
    /// ciphertext; a ciphertext shorter than a tag or longer than the
    /// protocol allows is refused.
    pub fn decrypt(&mut self, ciphertext: &[u8]) -> (opened: Result<Vec<u8>, CryptoError>)
        ensures
            final(self).channel() == old(self).channel(),
            final(self).has_transport() == old(self).has_transport(),
            !old(self).has_transport() ==> opened == Err::<Vec<u8>, CryptoError>(
                CryptoError::TransportMissing,
            ),
            ciphertext@.len() < TAG_LEN || ciphertext@.len() > MAX_MESSAGE_LEN ==> opened is Err,
            opened matches Ok(plaintext) ==> plaintext@.len() + TAG_LEN == ciphertext@.len(),
            opened matches Err(e) ==> e == CryptoError::TransportMissing || e
                == CryptoError::Decrypt,
    {
        match &mut self.transport_state {
            Some(transport) => transport_decrypt(transport, ciphertext),
            None => Err(CryptoError::TransportMissing),
        }
    }

    /// The channel that the state belongs to.
    pub fn channel_id(&self) -> (channel_id: &[u8; 32])
        ensures
            channel_id@ == self.channel(),
    {
        &self.channel_id
    }
}

/// An established direct-message session: the transport state of a finished
/// Noise IK handshake, bound to its channel.
pub struct DmSession {
    transport: snow::TransportState,
    channel_id: [u8; 32],
}

impl DmSession {
    /// The channel that the session is bound to.
    pub closed spec fn channel(&self) -> Seq<u8> {
        self.channel_id@
    }

    /// Binds the transport state of a finished handshake to a channel.
    pub fn from_transport(transport: snow::TransportState, channel_id: [u8; 32]) -> (session: Self)
        ensures
            session.channel() == channel_id@,
    {
        DmSession { transport, channel_id }
    }

    /// Encrypts the session's next outgoing message. The ciphertext is the
    /// plaintext's length plus the 16-byte tag; a plaintext that would exceed
    /// the protocol's message length is refused.
    pub fn encrypt(&mut self, plaintext: &[u8]) -> (sealed: Result<Vec<u8>, CryptoError>)
        ensures
            final(self).channel() == old(self).channel(),
            plaintext@.len() + TAG_LEN > MAX_MESSAGE_LEN ==> sealed is Err,
            sealed matches Ok(ciphertext) ==> ciphertext@.len() == plaintext@.len() + TAG_LEN,
            sealed matches Err(e) ==> e == CryptoError::Encrypt,
    {
        transport_encrypt(&mut self.transport, plaintext)
    }

    /// Decrypts the session's next incoming message. The plaintext is 16
    /// bytes shorter than the ciphertext; a ciphertext shorter than a tag or
    /// longer than the protocol allows is refused.
    pub fn decrypt(&mut self, ciphertext: &[u8]) -> (opened: Result<Vec<u8>, CryptoError>)
        ensures
            final(self).channel() == old(self).channel(),
            ciphertext@.len() < TAG_LEN || ciphertext@.len() > MAX_MESSAGE_LEN ==> opened is Err,
            opened matches Ok(plaintext) ==> plaintext@.len() + TAG_LEN == ciphertext@.len(),
            opened matches Err(e) ==> e == CryptoError::Decrypt,
    {
        transport_decrypt(&mut self.transport, ciphertext)
    }

    /// The channel that the session is bound to.
    pub fn channel_id(&self) -> (channel_id: &[u8; 32])
        ensures
            channel_id@ == self.channel(),
    {
        &self.channel_id
    }
}

/// Encrypts a message with an established session.
pub fn encrypt_dm_message(session: &mut DmSession, plaintext: &[u8]) -> (sealed: Result<
    Vec<u8>,
    CryptoError,
>)
    ensures
        final(session).channel() == old(session).channel(),
        plaintext@.len() + TAG_LEN > MAX_MESSAGE_LEN ==> sealed is Err,
        sealed matches Ok(ciphertext) ==> ciphertext@.len() == plaintext@.len() + TAG_LEN,
        sealed matches Err(e) ==> e == CryptoError::Encrypt,
{
    session.encrypt(plaintext)
}

/// Decrypts a message with an established session.
pub fn decrypt_dm_message(session: &mut DmSession, ciphertext: &[u8]) -> (opened: Result<
    Vec<u8>,
    CryptoError,
>)
    ensures
        final(session).channel() == old(session).channel(),
        ciphertext@.len() < TAG_LEN || ciphertext@.len() > MAX_MESSAGE_LEN ==> opened is Err,
        opened matches Ok(plaintext) ==> plaintext@.len() + TAG_LEN == ciphertext@.len(),
        opened matches Err(e) ==> e == CryptoError::Decrypt,
{
    session.decrypt(ciphertext)
}

/// Builds one side's session by running both sides of the handshake here.
///
/// The local party acts as the handshake's initiator and the remote one as
/// its responder; `is_initiator` picks whose transport state the session keeps.
/// The session is bound to the channel of the two Ed25519 keys.
pub fn create_test_session(
    local_ed25519: &[u8; 32],
    local_x25519_secret: &[u8; 32],
    local_x25519_public: &[u8; 32],
    remote_ed25519: &[u8; 32],
    remote_x25519_secret: &[u8; 32],
    remote_x25519_public: &[u8; 32],
    is_initiator: bool,
) -> (made: Result<DmSession, CryptoError>)
    ensures
        made matches Ok(session) ==> session.channel() == dm_channel_id(
            local_ed25519@,
            remote_ed25519@,
        ),
        made matches Err(e) ==> e is Handshake,
{
    let channel_id = derive_dm_channel_id(local_ed25519, remote_ed25519);
    match perform_full_ik_handshake(
        local_x25519_secret,
        remote_x25519_secret,
        local_x25519_public,
        remote_x25519_public,
    ) {
        Ok((init_transport, resp_transport)) => {
            let transport = if is_initiator {
                init_transport
            } else {
                resp_transport
            };
            Ok(DmSession::from_transport(transport, channel_id))
        },
        Err(e) => Err(e),
    }
}

/// The key of messages to oneself on a channel: the hash of the label
/// followed by the channel id.
pub open spec fn self_message_key(channel_id: Seq<u8>) -> Seq<u8> {
    sha256(encode_utf8(SELF_MESSAGE_LABEL@) + channel_id)
}

/// The nonce of a message to oneself: the first twelve bytes of its id.
pub open spec fn self_message_nonce(message_id: Seq<u8>) -> Seq<u8> {
    message_id.subrange(0, 12)
}

/// The ciphertext of a message to oneself: a function of the channel, the
/// message id and the plaintext alone.
pub open spec fn self_message_ciphertext(
    channel_id: Seq<u8>,
    message_id: Seq<u8>,
    plaintext: Seq<u8>,
) -> Seq<u8> {
    chacha20poly1305_seal(
        self_message_key(channel_id),
        self_message_nonce(message_id),
        plaintext,
    )
}

/// The plaintext that a ciphertext holds as a message to oneself, if any.
pub open spec fn self_message_plaintext(
    channel_id: Seq<u8>,
    message_id: Seq<u8>,
    ciphertext: Seq<u8>,
) -> Option<Seq<u8>> {
    chacha20poly1305_open(
        self_message_key(channel_id),
        self_message_nonce(message_id),
        ciphertext,
    )
}

/// The plaintext lengths that can be encrypted: what the cipher accepts and
/// what fits one allocation together with the tag.
pub open spec fn self_message_fits(len: nat) -> bool {
    cipher_accepts(len) && len + 16 <= isize::MAX
}

/// Message ids that agree on their first twelve bytes encrypt alike.
pub proof fn lemma_self_message_nonce_prefix(
    channel_id: Seq<u8>,
    message_id1: Seq<u8>,
    message_id2: Seq<u8>,
    plaintext: Seq<u8>,
)
    requires
        message_id1.subrange(0, 12) == message_id2.subrange(0, 12),
    ensures
        self_message_ciphertext(channel_id, message_id1, plaintext) == self_message_ciphertext(
            channel_id,
            message_id2,
            plaintext,
        ),
{
}

fn self_message_key_bytes(channel_id: &[u8; 32]) -> (key: [u8; 32])
    ensures
        key@ == self_message_key(channel_id@),
{
    let mut keyed: Vec<u8> = Vec::new();
    keyed.extend_from_slice(SELF_MESSAGE_LABEL.as_bytes());
    keyed.extend_from_slice(channel_id.as_slice());
    assert(keyed@ =~= encode_utf8(SELF_MESSAGE_LABEL@) + channel_id@);
    sha256_digest(keyed.as_slice())
}

fn self_message_nonce_bytes(message_id: &[u8; 32]) -> (nonce: [u8; 12])
    ensures
        nonce@ == self_message_nonce(message_id@),
{
    let mut nonce = [0u8; 12];
    let mut i: usize = 0;
    while i < 12
        invariant
            i <= 12,
            forall|j: int| 0 <= j < i ==> nonce@[j] == message_id@[j],
        decreases 12 - i,
    {
        nonce[i] = message_id[i];
        i += 1;
    }
    nonce
}

/// Encrypts a message to oneself with ChaCha20-Poly1305.
///
/// The key comes from the channel and the nonce from the message id, so the
/// same channel, message id and plaintext always give the same ciphertext.
/// The call succeeds exactly on the plaintext lengths that fit.
pub fn encrypt_self_message(
    channel_id: &[u8; 32],
    message_id: &[u8; 32],
    plaintext: &[u8],
) -> (sealed: Result<Vec<u8>, CryptoError>)
    ensures
        sealed is Ok <==> self_message_fits(plaintext@.len()),
        sealed matches Ok(ciphertext) ==> {
            &&& ciphertext@ == self_message_ciphertext(channel_id@, message_id@, plaintext@)
            &&& ciphertext@.len() == plaintext@.len() + 16
        },
        sealed matches Err(e) ==> e == CryptoError::Encrypt,
{
    if plaintext.len() > isize::MAX as usize - 16 {
        return Err(CryptoError::Encrypt);
    }
    let key = self_message_key_bytes(channel_id);
    let nonce = self_message_nonce_bytes(message_id);
    match aead_seal(&key, &nonce, plaintext) {
        Ok(ciphertext) => Ok(ciphertext),
        Err(_) => Err(CryptoError::Encrypt),
    }
}

/// Decrypts a message to oneself.
///
/// The call succeeds exactly where the cipher accepts the ciphertext under
/// the channel's key and the message's nonce, and then returns the plaintext.
/// What [`encrypt_self_message`] produced for the same channel and message id
/// decrypts to the plaintext it was made from.
pub fn decrypt_self_message(
    channel_id: &[u8; 32],
    message_id: &[u8; 32],
    ciphertext: &[u8],
) -> (opened: Result<Vec<u8>, CryptoError>)
    ensures
        opened is Ok <==> self_message_plaintext(channel_id@, message_id@, ciphertext@) is Some,
        opened matches Ok(plaintext) ==> {
            &&& self_message_plaintext(channel_id@, message_id@, ciphertext@) == Some(plaintext@)
            &&& plaintext@.len() + 16 == ciphertext@.len()
        },
        opened matches Err(e) ==> e == CryptoError::Decrypt,
        forall|plaintext: Seq<u8>|
            #![trigger self_message_ciphertext(channel_id@, message_id@, plaintext)]
            self_message_fits(plaintext.len()) && ciphertext@ == self_message_ciphertext(
                channel_id@,
                message_id@,
                plaintext,
            ) ==> opened is Ok && opened->Ok_0@ == plaintext,
{
    let key = self_message_key_bytes(channel_id);
    let nonce = self_message_nonce_bytes(message_id);
    match aead_open(&key, &nonce, ciphertext) {
        Ok(plaintext) => Ok(plaintext),
        Err(_) => Err(CryptoError::Decrypt),
    }
}

} // verus!
