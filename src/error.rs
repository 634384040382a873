use vstd::prelude::*;

verus! {

/// Why an encrypted to-device event could not be accepted.
#[derive(Debug, Clone, PartialEq, Eq)]
pub enum EventError {
    /// The message type is neither a pre-key message nor a normal message.
    UnsupportedOlmType(u64),
    /// The event is not encrypted with the Olm scheme.
    UnsupportedAlgorithm,
    /// The event holds no ciphertext for our identity key.
    MissingCiphertext,
    /// A user id in the decrypted envelope differs from the one expected: the one
    /// found, then the one expected.
    MismatchedSender(String, String),
    /// The envelope names another Ed25519 key as its recipient: ours, then the one
    /// named.
    MismatchedKeys(String, String),
}

/// Why an Olm message could not be decrypted.
#[derive(Debug, Clone, PartialEq, Eq)]
pub enum OlmError {
    /// The event or its decrypted envelope was rejected.
    EventError(EventError),
    /// The decrypted plaintext is not a well-formed envelope.
    JsonError,
    /// The Olm primitive failed to decrypt with a session that was just created.
    OlmSession,
    /// No session could decrypt the message and none could be created: the user id
    /// of the sender and its Curve25519 key.
    SessionWedged(String, String),
    /// As `SessionWedged`, for a message that was already decrypted once.
    ReplayedMessage(String, String),
    /// The store failed to read or persist a session or the account.
    Store,
}

} // verus!
