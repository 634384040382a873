use vstd::prelude::*;
use vstd::utf8::encode_utf8;
use sha2::Digest;

use crate::encoding::{base64_spec, encode};
use crate::error::EventError;

verus! {

/// SHA-256 of a byte sequence.
pub uninterp spec fn sha256_of(data: Seq<u8>) -> Seq<u8>;

/// Relies on sha2::Sha256::digest: the SHA-256 digest of the data, 32 bytes long.
#[verifier::external_body]
fn sha256(data: &[u8]) -> (r: Vec<u8>)
    ensures
        r@ == sha256_of(data@),
        r@.len() == 32,
{
    sha2::Sha256::digest(data).to_vec()
}

/// The two kinds of Olm message.
#[derive(Debug, Clone, Copy, PartialEq, Eq, Structural)]
pub enum MessageType {
    /// Carries what is needed to create an inbound session.
    PreKey,
    /// A message of an established session.
    Message,
}

/// The wire number of a message type.
pub open spec fn message_type_number(t: MessageType) -> u8 {
    match t {
        MessageType::PreKey => 0,
        MessageType::Message => 1,
    }
}

/// An Olm message: its kind and its base64 ciphertext.
#[derive(Debug, Clone, PartialEq, Eq)]
pub enum OlmMessage {
    PreKey(String),
    Message(String),
}

impl OlmMessage {
    pub open spec fn kind(&self) -> MessageType {
        match self {
            OlmMessage::PreKey(_) => MessageType::PreKey,
            OlmMessage::Message(_) => MessageType::Message,
        }
    }

    pub open spec fn body(&self) -> Seq<char> {
        match self {
            OlmMessage::PreKey(c) => c@,
            OlmMessage::Message(c) => c@,
        }
    }

    /// The message that a wire type number and a ciphertext stand for: `0` is a
    /// pre-key message, `1` a normal one, any other number is refused.
    pub fn from_type_and_ciphertext(message_type: u64, ciphertext: String) -> (r: Result<
        OlmMessage,
        (),
    >)
        ensures
            message_type == 0 ==> r == Ok::<OlmMessage, ()>(OlmMessage::PreKey(ciphertext)),
            message_type == 1 ==> r == Ok::<OlmMessage, ()>(OlmMessage::Message(ciphertext)),
            message_type > 1 ==> r is Err,
    {
        if message_type == 0 {
            Ok(OlmMessage::PreKey(ciphertext))
        } else if message_type == 1 {
            Ok(OlmMessage::Message(ciphertext))
        } else {
            Err(())
        }
    }

    /// The kind of the message.
    pub fn message_type(&self) -> (r: MessageType)
        ensures
            r == self.kind(),
    {
        match self {
            OlmMessage::PreKey(_) => MessageType::PreKey,
            OlmMessage::Message(_) => MessageType::Message,
        }
    }

    /// Whether this is a pre-key message.
    pub fn is_pre_key(&self) -> (r: bool)
        ensures
            r == (self.kind() == MessageType::PreKey),
    {
        match self {
            OlmMessage::PreKey(_) => true,
            OlmMessage::Message(_) => false,
        }
    }
}

/// The bytes that a message hash digests: the sender's key, the message type, then
/// the ciphertext.
pub open spec fn hash_input(sender_key: Seq<char>, message_type: u8, ciphertext: Seq<char>) -> Seq<
    u8,
> {
    encode_utf8(sender_key) + seq![message_type] + encode_utf8(ciphertext)
}

/// The replay token of a message: base64 of the SHA-256 of its hash input.
pub open spec fn message_hash_spec(sender_key: Seq<char>, message_type: u8, ciphertext: Seq<char>) -> Seq<
    char,
> {
    base64_spec(sha256_of(hash_input(sender_key, message_type, ciphertext)))
}

/// A hash of a successfully decrypted Olm message.
///
/// Can be used to check if a message has been replayed to us.
#[derive(Debug, Clone)]
pub struct OlmMessageHash {
    /// The curve25519 key of the sender that sent us the Olm message.
    pub sender_key: String,
    /// The hash of the message.
    pub hash: String,
}

fn append_bytes(out: &mut Vec<u8>, bytes: &[u8])
    ensures
        final(out)@ == old(out)@ + bytes@,
{
    let mut i: usize = 0;
    while i < bytes.len()
        invariant
            i <= bytes@.len(),
            out@ == old(out)@ + bytes@.subrange(0, i as int),
        decreases bytes@.len() - i,
    {
        out.push(bytes[i]);
        i = i + 1;
        assert(bytes@.subrange(0, i as int) =~= bytes@.subrange(0, i - 1) + seq![bytes@[i - 1]]);
    }
    assert(bytes@.subrange(0, i as int) =~= bytes@);
}

impl OlmMessageHash {
    /// The hash of a message of the given type and ciphertext from `sender_key`.
    pub fn new(sender_key: &str, message_type: u8, ciphertext: &str) -> (r: Self)
        ensures
            r.sender_key@ == sender_key@,
            r.hash@ == message_hash_spec(sender_key@, message_type, ciphertext@),
    {
        let mut data: Vec<u8> = Vec::new();
        append_bytes(&mut data, sender_key.as_bytes());
        data.push(message_type);
        append_bytes(&mut data, ciphertext.as_bytes());
        assert(data@ =~= hash_input(sender_key@, message_type, ciphertext@));
        let digest = sha256(data.as_slice());
        OlmMessageHash { sender_key: sender_key.to_owned(), hash: encode(digest.as_slice()) }
    }
}

/// Narrows a wire message type and computes the message's replay hash.
///
/// Fails with `UnsupportedOlmType` for any type other than `0` (pre-key) and `1`
/// (normal message).
pub fn parse_message(sender_key: &str, message_type: u64, ciphertext: String) -> (r: Result<
    (OlmMessage, OlmMessageHash),
    EventError,
>)
    ensures
        r is Ok <==> message_type <= 1,
        r is Ok ==> {
            let (m, h) = r->Ok_0;
            &&& message_type_number(m.kind()) == message_type
            &&& m.body() == ciphertext@
            &&& h.sender_key@ == sender_key@
            &&& h.hash@ == message_hash_spec(sender_key@, message_type as u8, ciphertext@)
        },
        r is Err ==> r->Err_0 == EventError::UnsupportedOlmType(message_type),
{
    if message_type > 255 {
        return Err(EventError::UnsupportedOlmType(message_type));
    }
    let narrowed = message_type as u8;
    let message_hash = OlmMessageHash::new(sender_key, narrowed, ciphertext.as_str());
    match OlmMessage::from_type_and_ciphertext(message_type, ciphertext) {
        Ok(message) => Ok((message, message_hash)),
        Err(_) => Err(EventError::UnsupportedOlmType(message_type)),
    }
}

} // verus!
