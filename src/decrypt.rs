use vstd::prelude::*;

use crate::account::ReadOnlyAccount;
use crate::error::{EventError, OlmError};
use crate::message::{
    message_hash_spec, message_type_number, parse_message, MessageType, OlmMessage,
    OlmMessageHash,
};

verus! {

/// The ciphertext that an Olm event carries for one recipient key.
#[derive(Debug, Clone)]
pub struct CiphertextInfo {
    /// The base64 ciphertext.
    pub body: String,
    /// The wire message type: `0` for pre-key, `1` for normal messages.
    pub message_type: u64,
}

/// The content of an Olm-encrypted to-device event.
#[derive(Debug, Clone)]
pub struct OlmV1Content {
    /// The sender's Curve25519 identity key.
    pub sender_key: String,
    /// A ciphertext for each recipient Curve25519 key.
    pub ciphertext: Vec<(String, CiphertextInfo)>,
}

/// The encryption scheme of an encrypted event.
#[derive(Debug, Clone)]
pub enum EncryptedEventScheme {
    OlmV1Curve25519AesSha2(OlmV1Content),
    MegolmV1AesSha2,
}

/// An encrypted to-device event.
#[derive(Debug, Clone)]
pub struct ToDeviceEncryptedEvent {
    /// The user id of the sender.
    pub sender: String,
    pub content: EncryptedEventScheme,
}

/// The identity fields of a decrypted to-device event.
#[derive(Debug, Clone)]
pub struct DecryptedEnvelope {
    pub sender: String,
    pub recipient: String,
    /// The Ed25519 key that the sender meant the event for.
    pub recipient_ed25519: String,
    /// The sender's Ed25519 key.
    pub keys_ed25519: String,
}

/// A session that decrypted a message: one created for it, or one of those already
/// shared with the sender.
#[derive(Debug, Clone, PartialEq, Eq)]
pub enum SessionType<S> {
    New(S),
    Existing(S),
}

impl<S> SessionType<S> {
    /// The session, whether new or existing.
    pub fn session(self) -> (r: S)
        ensures
            r == match self {
                SessionType::New(s) => s,
                SessionType::Existing(s) => s,
            },
    {
        match self {
            SessionType::New(s) => s,
            SessionType::Existing(s) => s,
        }
    }
}

/// The position of the first ciphertext, from `i` on, meant for `key`.
pub open spec fn ciphertext_from(entries: Seq<(String, CiphertextInfo)>, key: Seq<char>, i: int) -> Option<int>
    decreases entries.len() - i,
{
    if i < 0 || i >= entries.len() {
        None
    } else if entries[i].0@ == key {
        Some(i)
    } else {
        ciphertext_from(entries, key, i + 1)
    }
}

/// The verdict on a decrypted envelope: it must name us as recipient, the outer
/// sender as sender, and our Ed25519 key as recipient key; it then yields the
/// sender's Ed25519 key.
pub open spec fn envelope_verdict(
    our_user_id: String,
    our_ed25519: String,
    sender: String,
    e: DecryptedEnvelope,
) -> Result<String, EventError> {
    if e.recipient@ != our_user_id@ {
        Err(EventError::MismatchedSender(e.recipient, our_user_id))
    } else if e.sender@ != sender@ {
        Err(EventError::MismatchedSender(e.sender, sender))
    } else if e.recipient_ed25519@ != our_ed25519@ {
        Err(EventError::MismatchedKeys(our_ed25519, e.recipient_ed25519))
    } else {
        Ok(e.keys_ed25519)
    }
}

/// Checks the envelope of a decrypted to-device event against the account that
/// decrypted it and the outer sender.
pub fn verify_envelope(
    our_user_id: &String,
    our_ed25519: &String,
    sender: &String,
    envelope: &DecryptedEnvelope,
) -> (r: Result<String, EventError>)
    ensures
        r == envelope_verdict(*our_user_id, *our_ed25519, *sender, *envelope),
{
    if envelope.recipient != *our_user_id {
        Err(EventError::MismatchedSender(envelope.recipient.clone(), our_user_id.clone()))
    } else if envelope.sender != *sender {
        Err(EventError::MismatchedSender(envelope.sender.clone(), sender.clone()))
    } else if envelope.recipient_ed25519 != *our_ed25519 {
        Err(EventError::MismatchedKeys(our_ed25519.clone(), envelope.recipient_ed25519.clone()))
    } else {
        Ok(envelope.keys_ed25519.clone())
    }
}

/// What a decryption waits for next.
#[derive(Debug, PartialEq, Eq)]
pub enum DecryptStep {
    /// Whether the pre-key message was encrypted for the sender's session at this
    /// position.
    CheckMatch(usize),
    /// The outcome of decrypting with the sender's session at this position; the
    /// flag says whether that session matched the pre-key message.
    Decrypt(usize, bool),
    /// Whether a session can be created from the pre-key message.
    CreateSession,
    /// The outcome of decrypting with the session just created.
    DecryptWithNewSession,
    /// That the account and the new session are persisted.
    SaveNewSession,
    /// The envelope of the plaintext that this session decrypted, if it parses.
    CheckEnvelope(SessionType<usize>),
    /// That this session is persisted, before failing with the error.
    SaveThenFail(SessionType<usize>, OlmError),
    /// Whether the store knows the message's hash from an earlier decryption.
    CheckReplay,
    /// The end: the session used and the sender's Ed25519 key, or the error.
    Done(Result<(SessionType<usize>, String), OlmError>),
}

/// The state of a decryption.
pub struct DecryptionView {
    pub sender: String,
    pub sender_key: String,
    pub our_user_id: String,
    pub our_ed25519: String,
    pub message: OlmMessage,
    pub message_hash: OlmMessageHash,
    pub session_count: usize,
    pub step: DecryptStep,
}

/// Where the probe of the sender's sessions goes from position `i`: a pre-key
/// message asks each session whether it matches, a normal message is tried on
/// each. Past the last session a pre-key message leads to a new session, a normal
/// message to a wedge, which is checked for a replay.
pub open spec fn probe_from(pre_key: bool, count: int, i: int) -> DecryptStep {
    if i >= count {
        if pre_key {
            DecryptStep::CreateSession
        } else {
            DecryptStep::CheckReplay
        }
    } else if pre_key {
        DecryptStep::CheckMatch(i as usize)
    } else {
        DecryptStep::Decrypt(i as usize, false)
    }
}

pub open spec fn is_pre_key(v: DecryptionView) -> bool {
    v.message.kind() == MessageType::PreKey
}

pub open spec fn session_in_range(s: SessionType<usize>, count: int) -> bool {
    match s {
        SessionType::New(n) => n == count,
        SessionType::Existing(i) => i < count,
    }
}

/// Every position that a step names is one of the sender's sessions, or the place
/// of the new one; an error held back for a save comes from the envelope.
pub open spec fn step_in_range(step: DecryptStep, count: int) -> bool {
    match step {
        DecryptStep::CheckMatch(i) => i < count,
        DecryptStep::Decrypt(i, _) => i < count,
        DecryptStep::CheckEnvelope(s) => session_in_range(s, count),
        DecryptStep::SaveThenFail(s, e) => session_in_range(s, count) && (e is EventError
            || e is JsonError),
        DecryptStep::Done(Ok((s, _))) => session_in_range(s, count),
        _ => true,
    }
}

/// A pre-key match answer: a matching session is tried, another one is skipped.
pub open spec fn after_match(v: DecryptionView, matched: bool) -> DecryptStep {
    match v.step {
        DecryptStep::CheckMatch(i) => if matched {
            DecryptStep::Decrypt(i, true)
        } else {
            probe_from(is_pre_key(v), v.session_count as int, i + 1)
        },
        _ => v.step,
    }
}

/// A decryption outcome with an existing session: success adopts the session; a
/// failure with a matching session is a wedge; other failures go on to the next.
pub open spec fn after_decrypt(v: DecryptionView, ok: bool) -> DecryptStep {
    match v.step {
        DecryptStep::Decrypt(i, matched) => if ok {
            DecryptStep::CheckEnvelope(SessionType::Existing(i))
        } else if matched {
            DecryptStep::CheckReplay
        } else {
            probe_from(is_pre_key(v), v.session_count as int, i + 1)
        },
        _ => v.step,
    }
}

/// Creating a session from the pre-key message: failure is a wedge.
pub open spec fn after_session_created(v: DecryptionView, ok: bool) -> DecryptStep {
    match v.step {
        DecryptStep::CreateSession => if ok {
            DecryptStep::DecryptWithNewSession
        } else {
            DecryptStep::CheckReplay
        },
        _ => v.step,
    }
}

/// Decrypting with the new session: success has it persisted with the account,
/// failure is the primitive's error.
pub open spec fn after_new_session_decrypted(v: DecryptionView, ok: bool) -> DecryptStep {
    match v.step {
        DecryptStep::DecryptWithNewSession => if ok {
            DecryptStep::SaveNewSession
        } else {
            DecryptStep::Done(Err(OlmError::OlmSession))
        },
        _ => v.step,
    }
}

/// A save is done: the new session's plaintext is checked next, or the pending
/// error ends the decryption.
pub open spec fn after_saved(v: DecryptionView) -> DecryptStep {
    match v.step {
        DecryptStep::SaveNewSession => DecryptStep::CheckEnvelope(
            SessionType::New(v.session_count),
        ),
        DecryptStep::SaveThenFail(_, e) => DecryptStep::Done(Err(e)),
        _ => v.step,
    }
}

/// The envelope of the plaintext: accepted, it ends the decryption; rejected, or
/// unreadable, the session that decrypted it is persisted before the error.
pub open spec fn after_envelope(v: DecryptionView, envelope: Option<DecryptedEnvelope>) -> DecryptStep {
    match v.step {
        DecryptStep::CheckEnvelope(s) => match envelope {
            None => DecryptStep::SaveThenFail(s, OlmError::JsonError),
            Some(e) => match envelope_verdict(v.our_user_id, v.our_ed25519, v.sender, e) {
                Ok(key) => DecryptStep::Done(Ok((s, key))),
                Err(err) => DecryptStep::SaveThenFail(s, OlmError::EventError(err)),
            },
        },
        _ => v.step,
    }
}

/// A wedge of a message whose hash is known is a replay.
pub open spec fn after_replay_check(v: DecryptionView, known: bool) -> DecryptStep {
    match v.step {
        DecryptStep::CheckReplay => DecryptStep::Done(
            Err(
                if known {
                    OlmError::ReplayedMessage(v.sender, v.sender_key)
                } else {
                    OlmError::SessionWedged(v.sender, v.sender_key)
                },
            ),
        ),
        _ => v.step,
    }
}

/// The decryption of one Olm message, step by step.
///
/// The caller holds the sender's sessions, in the order they are to be tried, and
/// answers each step: it asks a session whether a pre-key message matches it,
/// decrypts, creates a session, persists, parses the plaintext, or asks the store
/// whether the message hash is known, and hands the outcome back.
pub struct OlmDecryption {
    sender: String,
    sender_key: String,
    our_user_id: String,
    our_ed25519: String,
    message: OlmMessage,
    message_hash: OlmMessageHash,
    session_count: usize,
    step: DecryptStep,
}

impl View for OlmDecryption {
    type V = DecryptionView;

    closed spec fn view(&self) -> DecryptionView {
        DecryptionView {
            sender: self.sender,
            sender_key: self.sender_key,
            our_user_id: self.our_user_id,
            our_ed25519: self.our_ed25519,
            message: self.message,
            message_hash: self.message_hash,
            session_count: self.session_count,
            step: self.step,
        }
    }
}

/// `v` is the start of the decryption of `info`, sent by `sender` from
/// `sender_key`, by the account `a` that shares `count` sessions with that key.
pub open spec fn starts(
    v: DecryptionView,
    a: crate::account::AccountView,
    sender: String,
    sender_key: String,
    info: CiphertextInfo,
    count: usize,
) -> bool {
    &&& v.sender == sender
    &&& v.sender_key == sender_key
    &&& v.our_user_id@ == a.user_id
    &&& v.our_ed25519@ == a.ed25519
    &&& message_type_number(v.message.kind()) == info.message_type
    &&& v.message.body() == info.body@
    &&& v.message_hash.sender_key@ == sender_key@
    &&& v.message_hash.hash@ == message_hash_spec(
        sender_key@,
        info.message_type as u8,
        info.body@,
    )
    &&& v.session_count == count
    &&& v.step == probe_from(is_pre_key(v), count as int, 0)
}

impl OlmDecryption {
    #[verifier::type_invariant]
    spec fn inv(&self) -> bool {
        step_in_range(self.step, self.session_count as int)
    }

    /// Starts the decryption of an encrypted to-device event by `account`, which
    /// shares `session_count` sessions with the event's sender key.
    ///
    /// Fails with `UnsupportedAlgorithm` for a scheme other than Olm, with
    /// `MissingCiphertext` where no ciphertext is meant for the account's
    /// Curve25519 key, and with `UnsupportedOlmType` for a message type other than
    /// pre-key or normal.
    pub fn start(
        account: &ReadOnlyAccount,
        event: &ToDeviceEncryptedEvent,
        session_count: usize,
    ) -> (r: Result<OlmDecryption, OlmError>)
        ensures
            !(event.content is OlmV1Curve25519AesSha2) ==> r == Err::<OlmDecryption, OlmError>(
                OlmError::EventError(EventError::UnsupportedAlgorithm),
            ),
            event.content is OlmV1Curve25519AesSha2 ==> {
                let c = event.content->OlmV1Curve25519AesSha2_0;
                match ciphertext_from(c.ciphertext@, account@.curve25519, 0) {
                    None => r == Err::<OlmDecryption, OlmError>(
                        OlmError::EventError(EventError::MissingCiphertext),
                    ),
                    Some(i) => {
                        let info = c.ciphertext@[i].1;
                        if info.message_type > 1 {
                            r == Err::<OlmDecryption, OlmError>(
                                OlmError::EventError(
                                    EventError::UnsupportedOlmType(info.message_type),
                                ),
                            )
                        } else {
                            r is Ok && starts(
                                r->Ok_0@,
                                account@,
                                event.sender,
                                c.sender_key,
                                info,
                                session_count,
                            )
                        }
                    },
                }
            },
    {
        let content = match &event.content {
            EncryptedEventScheme::OlmV1Curve25519AesSha2(c) => c,
            EncryptedEventScheme::MegolmV1AesSha2 => {
                return Err(OlmError::EventError(EventError::UnsupportedAlgorithm));
            },
        };
        let our_key = &account.identity_keys().curve25519;
        let mut i: usize = 0;
        let mut found: Option<usize> = None;
        while i < content.ciphertext.len()
            invariant
                i <= content.ciphertext@.len(),
                found is None ==> ciphertext_from(content.ciphertext@, our_key@, 0)
                    == ciphertext_from(content.ciphertext@, our_key@, i as int),
                found is Some ==> ciphertext_from(content.ciphertext@, our_key@, 0) == Some(
                    found->Some_0 as int,
                ),
                found is Some ==> found->Some_0 < content.ciphertext@.len(),
            decreases content.ciphertext@.len() - i,
        {
            if found.is_none() && content.ciphertext[i].0 == *our_key {
                found = Some(i);
            }
            i = i + 1;
        }
        let index = match found {
            Some(index) => index,
            None => {
                return Err(OlmError::EventError(EventError::MissingCiphertext));
            },
        };
        let info = &content.ciphertext[index].1;
        let (message, message_hash) = match parse_message(
            content.sender_key.as_str(),
            info.message_type,
            info.body.clone(),
        ) {
            Ok(parsed) => parsed,
            Err(e) => {
                return Err(OlmError::EventError(e));
            },
        };
        let pre_key = message.is_pre_key();
        let step = if session_count == 0 {
            if pre_key {
                DecryptStep::CreateSession
            } else {
                DecryptStep::CheckReplay
            }
        } else if pre_key {
            DecryptStep::CheckMatch(0)
        } else {
            DecryptStep::Decrypt(0, false)
        };
        Ok(
            OlmDecryption {
                sender: event.sender.clone(),
                sender_key: content.sender_key.clone(),
                our_user_id: account.user_id().to_owned(),
                our_ed25519: account.identity_keys().ed25519.clone(),
                message,
                message_hash,
                session_count,
                step,
            },
        )
    }
}

fn probe_step(pre_key: bool, count: usize, i: usize) -> (r: DecryptStep)
    requires
        i <= count,
    ensures
        r == probe_from(pre_key, count as int, i as int),
{
    if i >= count {
        if pre_key {
            DecryptStep::CreateSession
        } else {
            DecryptStep::CheckReplay
        }
    } else if pre_key {
        DecryptStep::CheckMatch(i)
    } else {
        DecryptStep::Decrypt(i, false)
    }
}

impl OlmDecryption {
    /// What the decryption waits for.
    pub fn step(&self) -> (r: &DecryptStep)
        ensures
            *r == self@.step,
    {
        &self.step
    }

    /// The message being decrypted.
    pub fn message(&self) -> (r: &OlmMessage)
        ensures
            *r == self@.message,
    {
        &self.message
    }

    /// The replay hash of the message.
    pub fn message_hash(&self) -> (r: &OlmMessageHash)
        ensures
            *r == self@.message_hash,
    {
        &self.message_hash
    }

    /// The user id of the sender.
    pub fn sender(&self) -> (r: &String)
        ensures
            *r == self@.sender,
    {
        &self.sender
    }

    /// The sender's Curve25519 key.
    pub fn sender_key(&self) -> (r: &String)
        ensures
            *r == self@.sender_key,
    {
        &self.sender_key
    }

    /// How many sessions the account shares with the sender.
    pub fn session_count(&self) -> (r: usize)
        ensures
            r == self@.session_count,
    {
        self.session_count
    }

    fn take_step(&mut self) -> (prev: DecryptStep)
        ensures
            prev == old(self)@.step,
            final(self)@ == (DecryptionView { step: DecryptStep::CheckReplay, ..old(self)@ }),
            step_in_range(prev, old(self)@.session_count as int),
    {
        proof {
            use_type_invariant(&*self);
        }
        let mut prev = DecryptStep::CheckReplay;
        core::mem::swap(&mut self.step, &mut prev);
        prev
    }

    /// Hands in whether the pre-key message matches the session asked about.
    pub fn on_match(&mut self, matched: bool)
        ensures
            final(self)@ == (DecryptionView { step: after_match(old(self)@, matched), ..old(self)@ }),
    {
        proof {
            use_type_invariant(&*self);
        }
        let pre_key = self.message.is_pre_key();
        let next = match &self.step {
            DecryptStep::CheckMatch(i) => if matched {
                DecryptStep::Decrypt(*i, true)
            } else {
                probe_step(pre_key, self.session_count, *i + 1)
            },
            _ => {
                return ;
            },
        };
        self.step = next;
    }

    /// Hands in whether the session asked about decrypted the message.
    pub fn on_decrypted(&mut self, ok: bool)
        ensures
            final(self)@ == (DecryptionView { step: after_decrypt(old(self)@, ok), ..old(self)@ }),
    {
        proof {
            use_type_invariant(&*self);
        }
        let pre_key = self.message.is_pre_key();
        let next = match &self.step {
            DecryptStep::Decrypt(i, matched) => if ok {
                DecryptStep::CheckEnvelope(SessionType::Existing(*i))
            } else if *matched {
                DecryptStep::CheckReplay
            } else {
                probe_step(pre_key, self.session_count, *i + 1)
            },
            _ => {
                return ;
            },
        };
        self.step = next;
    }

    /// Hands in whether a session could be created from the pre-key message.
    pub fn on_session_created(&mut self, ok: bool)
        ensures
            final(self)@ == (DecryptionView {
                step: after_session_created(old(self)@, ok),
                ..old(self)@
            }),
    {
        if let DecryptStep::CreateSession = self.step {
            self.step = if ok {
                DecryptStep::DecryptWithNewSession
            } else {
                DecryptStep::CheckReplay
            };
        }
    }

    /// Hands in whether the session just created decrypted the message.
    pub fn on_new_session_decrypted(&mut self, ok: bool)
        ensures
            final(self)@ == (DecryptionView {
                step: after_new_session_decrypted(old(self)@, ok),
                ..old(self)@
            }),
    {
        if let DecryptStep::DecryptWithNewSession = self.step {
            self.step = if ok {
                DecryptStep::SaveNewSession
            } else {
                DecryptStep::Done(Err(OlmError::OlmSession))
            };
        }
    }

    /// Hands in that the save asked for is done.
    pub fn on_saved(&mut self)
        ensures
            final(self)@ == (DecryptionView { step: after_saved(old(self)@), ..old(self)@ }),
    {
        let prev = self.take_step();
        let next = match prev {
            DecryptStep::SaveNewSession => DecryptStep::CheckEnvelope(
                SessionType::New(self.session_count),
            ),
            DecryptStep::SaveThenFail(_, e) => DecryptStep::Done(Err(e)),
            other => other,
        };
        self.step = next;
    }

    /// Hands in the envelope of the decrypted plaintext, or `None` where it does not
    /// parse as one.
    pub fn on_envelope(&mut self, envelope: Option<DecryptedEnvelope>)
        ensures
            final(self)@ == (DecryptionView {
                step: after_envelope(old(self)@, envelope),
                ..old(self)@
            }),
    {
        let prev = self.take_step();
        let next = match prev {
            DecryptStep::CheckEnvelope(s) => match envelope {
                None => DecryptStep::SaveThenFail(s, OlmError::JsonError),
                Some(e) => match verify_envelope(
                    &self.our_user_id,
                    &self.our_ed25519,
                    &self.sender,
                    &e,
                ) {
                    Ok(key) => DecryptStep::Done(Ok((s, key))),
                    Err(err) => DecryptStep::SaveThenFail(s, OlmError::EventError(err)),
                },
            },
            other => other,
        };
        self.step = next;
    }

    /// Hands in whether the store knows the message's hash.
    pub fn on_replay_checked(&mut self, known: bool)
        ensures
            final(self)@ == (DecryptionView {
                step: after_replay_check(old(self)@, known),
                ..old(self)@
            }),
    {
        if let DecryptStep::CheckReplay = self.step {
            let sender = self.sender.clone();
            let sender_key = self.sender_key.clone();
            self.step = DecryptStep::Done(
                Err(
                    if known {
                        OlmError::ReplayedMessage(sender, sender_key)
                    } else {
                        OlmError::SessionWedged(sender, sender_key)
                    },
                ),
            );
        }
    }

    /// The outcome, once the decryption is done.
    pub fn finish(self) -> (r: Option<Result<(SessionType<usize>, String), OlmError>>)
        ensures
            self@.step is Done ==> r == Some(self@.step->Done_0),
            !(self@.step is Done) ==> r is None,
    {
        let OlmDecryption { step, .. } = self;
        match step {
            DecryptStep::Done(outcome) => Some(outcome),
            _ => None,
        }
    }
}

/// The steps of the probe and of the session creation.
pub open spec fn in_probe(step: DecryptStep) -> bool {
    step is CheckMatch || step is Decrypt || step is CreateSession
}

/// The decryption has ended with a wedged session.
pub open spec fn ends_wedged(step: DecryptStep) -> bool {
    step is Done && step->Done_0 is Err && step->Done_0->Err_0 is SessionWedged
}

/// A pre-key message from a sender with whom no session is shared leads straight
/// to the creation of a session; once created and able to decrypt, that one
/// session is persisted with the account, and the plaintext is checked as that of
/// the sender's first session.
pub proof fn lemma_pre_key_from_unknown_sender(v: DecryptionView)
    requires
        is_pre_key(v),
        v.session_count == 0,
        v.step == probe_from(true, 0, 0),
    ensures
        v.step == DecryptStep::CreateSession,
        ({
            let v1 = DecryptionView { step: after_session_created(v, true), ..v };
            let v2 = DecryptionView { step: after_new_session_decrypted(v1, true), ..v1 };
            &&& v1.step == DecryptStep::DecryptWithNewSession
            &&& v2.step == DecryptStep::SaveNewSession
            &&& after_saved(v2) == DecryptStep::CheckEnvelope(SessionType::New(0usize))
        }),
{
}

/// A decryption creates at most one session: the answer to the creation leaves the
/// probe for good, and no step outside the probe leads back into it.
pub proof fn lemma_at_most_one_new_session(
    v: DecryptionView,
    answer: bool,
    envelope: Option<DecryptedEnvelope>,
)
    ensures
        v.step is CreateSession ==> !in_probe(after_session_created(v, answer)),
        !in_probe(v.step) ==> {
            &&& !in_probe(after_match(v, answer))
            &&& !in_probe(after_decrypt(v, answer))
            &&& !in_probe(after_session_created(v, answer))
            &&& !in_probe(after_new_session_decrypted(v, answer))
            &&& !in_probe(after_saved(v))
            &&& !in_probe(after_envelope(v, envelope))
            &&& !in_probe(after_replay_check(v, answer))
        },
{
}

/// When no session can decrypt a message, a known hash makes the outcome
/// `ReplayedMessage`; `SessionWedged` ends a decryption only where the store said
/// the hash is unknown.
pub proof fn lemma_replay_is_not_a_wedge(
    v: DecryptionView,
    answer: bool,
    envelope: Option<DecryptedEnvelope>,
)
    requires
        step_in_range(v.step, v.session_count as int),
    ensures
        v.step is CheckReplay ==> after_replay_check(v, true) == DecryptStep::Done(
            Err(OlmError::ReplayedMessage(v.sender, v.sender_key)),
        ),
        v.step is CheckReplay ==> (ends_wedged(after_replay_check(v, answer)) <==> !answer),
        !(v.step is CheckReplay) && !ends_wedged(v.step) ==> {
            &&& !ends_wedged(after_match(v, answer))
            &&& !ends_wedged(after_decrypt(v, answer))
            &&& !ends_wedged(after_session_created(v, answer))
            &&& !ends_wedged(after_new_session_decrypted(v, answer))
            &&& !ends_wedged(after_saved(v))
            &&& !ends_wedged(after_envelope(v, envelope))
            &&& !ends_wedged(after_replay_check(v, answer))
        },
{
}

/// A decrypted message whose envelope names another recipient fails with
/// `MismatchedSender`; the session that decrypted it is persisted first, and no
/// further session is tried.
pub proof fn lemma_wrong_recipient(v: DecryptionView, e: DecryptedEnvelope)
    requires
        v.step is CheckEnvelope,
        e.recipient@ != v.our_user_id@,
    ensures
        ({
            let s = v.step->CheckEnvelope_0;
            let err = OlmError::EventError(EventError::MismatchedSender(e.recipient, v.our_user_id));
            let v1 = DecryptionView { step: after_envelope(v, Some(e)), ..v };
            &&& v1.step == DecryptStep::SaveThenFail(s, err)
            &&& after_saved(v1) == DecryptStep::Done(Err(err))
        }),
{
}

/// What the probe of the sender's sessions from position `i` on concludes, given
/// for each session whether the pre-key message matches it and whether it
/// decrypts the message: the first session that is tried and decrypts is adopted;
/// a matching session that fails is a wedge; when none is left, a pre-key message
/// leads to a new session and a normal message to a wedge.
pub open spec fn probe_verdict(pre_key: bool, matching: Seq<bool>, decrypting: Seq<bool>, i: int) -> DecryptStep
    decreases decrypting.len() - i,
{
    if i < 0 || i >= decrypting.len() {
        if pre_key {
            DecryptStep::CreateSession
        } else {
            DecryptStep::CheckReplay
        }
    } else if pre_key && !matching[i] {
        probe_verdict(pre_key, matching, decrypting, i + 1)
    } else if decrypting[i] {
        DecryptStep::CheckEnvelope(SessionType::Existing(i as usize))
    } else if pre_key {
        DecryptStep::CheckReplay
    } else {
        probe_verdict(pre_key, matching, decrypting, i + 1)
    }
}

/// The step after the probe's question is answered from the given answers.
pub open spec fn answered(v: DecryptionView, matching: Seq<bool>, decrypting: Seq<bool>) -> DecryptStep {
    match v.step {
        DecryptStep::CheckMatch(i) => after_match(v, matching[i as int]),
        DecryptStep::Decrypt(i, _) => after_decrypt(v, decrypting[i as int]),
        _ => v.step,
    }
}

/// Where `n` answered questions lead.
pub open spec fn run_probe(v: DecryptionView, matching: Seq<bool>, decrypting: Seq<bool>, n: nat) -> DecryptStep
    decreases n,
{
    if n == 0 {
        v.step
    } else {
        run_probe(
            DecryptionView { step: answered(v, matching, decrypting), ..v },
            matching,
            decrypting,
            (n - 1) as nat,
        )
    }
}

proof fn lemma_probe_end_stays(v: DecryptionView, matching: Seq<bool>, decrypting: Seq<bool>, n: nat)
    requires
        !(v.step is CheckMatch) && !(v.step is Decrypt),
    ensures
        run_probe(v, matching, decrypting, n) == v.step,
    decreases n,
{
    if n > 0 {
        let w = DecryptionView { step: answered(v, matching, decrypting), ..v };
        assert(w == v);
        lemma_probe_end_stays(w, matching, decrypting, (n - 1) as nat);
    }
}

proof fn lemma_probe_from(
    v: DecryptionView,
    matching: Seq<bool>,
    decrypting: Seq<bool>,
    i: int,
    n: nat,
)
    requires
        0 <= i,
        matching.len() == v.session_count,
        decrypting.len() == v.session_count,
        v.step == probe_from(is_pre_key(v), v.session_count as int, i),
        n >= 2 * (v.session_count - i),
    ensures
        run_probe(v, matching, decrypting, n) == probe_verdict(
            is_pre_key(v),
            matching,
            decrypting,
            i,
        ),
    decreases v.session_count - i,
{
    let pre_key = is_pre_key(v);
    let count = v.session_count as int;
    if i >= count {
        lemma_probe_end_stays(v, matching, decrypting, n);
    } else {
        let w = DecryptionView { step: answered(v, matching, decrypting), ..v };
        assert(run_probe(v, matching, decrypting, n) == run_probe(
            w,
            matching,
            decrypting,
            (n - 1) as nat,
        ));
        if pre_key && !matching[i] {
            assert(w.step == probe_from(pre_key, count, i + 1));
            lemma_probe_from(w, matching, decrypting, i + 1, (n - 1) as nat);
        } else if pre_key {
            let x = DecryptionView { step: answered(w, matching, decrypting), ..w };
            assert(run_probe(w, matching, decrypting, (n - 1) as nat) == run_probe(
                x,
                matching,
                decrypting,
                (n - 2) as nat,
            ));
            lemma_probe_end_stays(x, matching, decrypting, (n - 2) as nat);
        } else if decrypting[i] {
            lemma_probe_end_stays(w, matching, decrypting, (n - 1) as nat);
        } else {
            assert(w.step == probe_from(pre_key, count, i + 1));
            lemma_probe_from(w, matching, decrypting, i + 1, (n - 1) as nat);
        }
    }
}

/// Whatever each session answers, the probe that starts a decryption ends, after
/// at most two questions per session, in the verdict that `probe_verdict` states:
/// the first session that matches (for a pre-key message) and decrypts is used, a
/// matching session that fails wedges the decryption, and only a pre-key message
/// that no session claimed leads to a new session.
pub proof fn lemma_probe_reaches_verdict(
    v: DecryptionView,
    matching: Seq<bool>,
    decrypting: Seq<bool>,
)
    requires
        matching.len() == v.session_count,
        decrypting.len() == v.session_count,
        v.step == probe_from(is_pre_key(v), v.session_count as int, 0),
    ensures
        run_probe(v, matching, decrypting, 2 * v.session_count as nat) == probe_verdict(
            is_pre_key(v),
            matching,
            decrypting,
            0,
        ),
{
    lemma_probe_from(v, matching, decrypting, 0, 2 * v.session_count as nat);
}

} // verus!
