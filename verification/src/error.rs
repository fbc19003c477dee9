//! Error values of the library.

use vstd::prelude::*;

verus! {

/// The step of a Noise IK handshake at which it stopped.
#[derive(Clone, Copy, Debug, PartialEq, Eq, Structural)]
pub enum HandshakeStep {
    /// The protocol name was not understood.
    Pattern,
    /// The initiator's own private key was refused.
    InitiatorLocalKey,
    /// The responder's public key was refused by the initiator.
    InitiatorRemoteKey,
    /// The initiator's handshake state could not be built.
    BuildInitiator,
    /// The responder's own private key was refused.
    ResponderLocalKey,
    /// The initiator's public key was refused by the responder.
    ResponderRemoteKey,
    /// The responder's handshake state could not be built.
    BuildResponder,
    /// The initiator could not write the first message.
    WriteMessage1,
    /// The responder could not read the first message.
    ReadMessage1,
    /// The responder could not write the second message.
    WriteMessage2,
    /// The initiator could not read the second message.
    ReadMessage2,
    /// The initiator could not enter transport mode.
    InitiatorTransport,
    /// The responder could not enter transport mode.
    ResponderTransport,
}

/// Why a cryptographic operation failed.
#[derive(Clone, Copy, Debug, PartialEq, Eq, Structural)]
pub enum CryptoError {
    /// The state holds no transport to encrypt or decrypt with.
    TransportMissing,
    /// A Noise handshake stopped at the given step.
    Handshake(HandshakeStep),
    /// One side alone cannot finish a handshake that takes two messages.
    HandshakeIncomplete,
    /// The message could not be encrypted.
    Encrypt,
    /// The message could not be decrypted or did not authenticate.
    Decrypt,
}

} // verus!
