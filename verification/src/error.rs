//! The errors that the library's decisions return.
use vstd::prelude::*;
use crate::punch::state::PunchState;
use crate::transport::registry::TransportType;

verus! {

/// Why an operation of the library was refused.
#[derive(Debug, Clone, Copy, PartialEq, Eq, Structural)]
pub enum MessengerError {
    /// A connection offer whose `offerId` is blank.
    OfferIdEmpty,
    /// A connection offer whose sender is blank.
    OfferSenderEmpty,
    /// A connection offer whose recipient is blank.
    OfferRecipientEmpty,
    /// No handshake is recorded under the given offer id.
    HandshakeNotFound,
    /// No local candidate to pair.
    LocalCandidatesEmpty,
    /// No remote candidate to pair.
    RemoteCandidatesEmpty,
    /// No hole-punching session is recorded for the peer.
    PunchSessionNotFound,
    /// The peer's hole-punching session is in this state, not established.
    PunchNotEstablished(PunchState),
    /// A packet of a version other than 1.
    UnsupportedVersion(u32),
    /// A packet whose sender is blank.
    PacketSenderEmpty,
    /// A packet whose recipient is blank.
    PacketRecipientEmpty,
    /// A packet whose message id is nil.
    PacketMessageIdNil,
    /// A packet whose signature is blank.
    PacketSignatureEmpty,
    /// A pending message request for the user already exists.
    PendingRequestExists,
    /// No pending message request for the user.
    NoPendingRequest,
    /// No secure session is recorded for the peer.
    SecureSessionNotFound,
    /// The peer's secure session is not established.
    SecureSessionNotEstablished,
    /// An encrypted payload too short to hold a nonce.
    PayloadTooShort,
    /// An encrypted payload that is not valid base64.
    PayloadNotBase64,
    /// Authenticated encryption failed.
    EncryptionFailed,
    /// Authenticated decryption failed.
    DecryptionFailed,
    /// A decrypted payload that is not valid UTF-8.
    PayloadNotUtf8,
    /// The transport is not connected.
    TransportNotConnected,
    /// The transport's socket failed to send or receive.
    TransportFailed,
    /// A transport of this type is not implemented.
    TransportNotImplemented(TransportType),
    /// No transport is registered.
    NoTransport,
    /// No negotiated connection with the peer.
    NoNegotiatedConnection,
    /// A payload that lacks a field it must have.
    PayloadMalformed,
    /// No presence session is saved.
    NoSession,
    /// A timestamp that chrono cannot represent.
    TimestampOutOfRange,
    /// No identity is registered.
    NoIdentity,
    /// An identity is already stored and overwriting it was not asked for.
    IdentityExists,
    /// A keepalive or heartbeat service that is already running.
    AlreadyRunning,
    /// The presence session is offline.
    SessionOffline,
    /// The registry answered a heartbeat with a refusal.
    HeartbeatRejected,
}

} // verus!
