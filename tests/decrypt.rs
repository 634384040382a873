use matrix_sdk_crypto::account::{IdentityKeys, ReadOnlyAccount};
use matrix_sdk_crypto::decrypt::{
    CiphertextInfo, DecryptStep, DecryptedEnvelope, EncryptedEventScheme, OlmDecryption,
    OlmV1Content, SessionType, ToDeviceEncryptedEvent,
};
use matrix_sdk_crypto::error::{EventError, OlmError};
use matrix_sdk_crypto::message::{OlmMessage, OlmMessageHash};

fn alice() -> ReadOnlyAccount {
    ReadOnlyAccount::new(
        "@alice:localhost",
        "ALICEDEVICE",
        IdentityKeys::new("alice_curve".to_owned(), "alice_ed".to_owned()),
    )
}

fn event_from_bob(message_type: u64, body: &str) -> ToDeviceEncryptedEvent {
    ToDeviceEncryptedEvent {
        sender: "@bob:localhost".to_owned(),
        content: EncryptedEventScheme::OlmV1Curve25519AesSha2(OlmV1Content {
            sender_key: "bob_curve".to_owned(),
            ciphertext: vec![
                (
                    "carol_curve".to_owned(),
                    CiphertextInfo { body: "not for us".to_owned(), message_type: 0 },
                ),
                (
                    "alice_curve".to_owned(),
                    CiphertextInfo { body: body.to_owned(), message_type },
                ),
            ],
        }),
    }
}

fn envelope(sender: &str, recipient: &str, recipient_ed25519: &str) -> DecryptedEnvelope {
    DecryptedEnvelope {
        sender: sender.to_owned(),
        recipient: recipient.to_owned(),
        recipient_ed25519: recipient_ed25519.to_owned(),
        keys_ed25519: "bob_ed".to_owned(),
    }
}

fn good_envelope() -> DecryptedEnvelope {
    envelope("@bob:localhost", "@alice:localhost", "alice_ed")
}

fn wedged() -> OlmError {
    OlmError::SessionWedged("@bob:localhost".to_owned(), "bob_curve".to_owned())
}

#[test]
fn alice_bob_handshake() {
    let account = alice();
    let mut d = OlmDecryption::start(&account, &event_from_bob(0, "prekey body"), 0).unwrap();
    assert_eq!(d.message(), &OlmMessage::PreKey("prekey body".to_owned()));
    assert_eq!(d.message_hash().hash, OlmMessageHash::new("bob_curve", 0, "prekey body").hash);
    assert_eq!(d.step(), &DecryptStep::CreateSession);
    d.on_session_created(true);
    assert_eq!(d.step(), &DecryptStep::DecryptWithNewSession);
    d.on_new_session_decrypted(true);
    assert_eq!(d.step(), &DecryptStep::SaveNewSession);
    d.on_saved();
    assert_eq!(d.step(), &DecryptStep::CheckEnvelope(SessionType::New(0)));
    d.on_envelope(Some(good_envelope()));
    assert_eq!(d.finish(), Some(Ok((SessionType::New(0), "bob_ed".to_owned()))));
}

#[test]
fn existing_session_decrypts_normal_message() {
    let account = alice();
    let mut d = OlmDecryption::start(&account, &event_from_bob(1, "body"), 3).unwrap();
    assert_eq!(d.step(), &DecryptStep::Decrypt(0, false));
    d.on_decrypted(false);
    assert_eq!(d.step(), &DecryptStep::Decrypt(1, false));
    d.on_decrypted(true);
    assert_eq!(d.step(), &DecryptStep::CheckEnvelope(SessionType::Existing(1)));
    d.on_envelope(Some(good_envelope()));
    let (session, key) = d.finish().unwrap().unwrap();
    assert_eq!(session.session(), 1);
    assert_eq!(key, "bob_ed");
}

#[test]
fn pre_key_skips_sessions_that_do_not_match() {
    let account = alice();
    let mut d = OlmDecryption::start(&account, &event_from_bob(0, "body"), 2).unwrap();
    assert_eq!(d.step(), &DecryptStep::CheckMatch(0));
    d.on_match(false);
    assert_eq!(d.step(), &DecryptStep::CheckMatch(1));
    d.on_match(false);
    assert_eq!(d.step(), &DecryptStep::CreateSession);
}

#[test]
fn matching_session_that_fails_is_wedged() {
    let account = alice();
    let mut d = OlmDecryption::start(&account, &event_from_bob(0, "body"), 2).unwrap();
    d.on_match(true);
    assert_eq!(d.step(), &DecryptStep::Decrypt(0, true));
    d.on_decrypted(false);
    assert_eq!(d.step(), &DecryptStep::CheckReplay);
    d.on_replay_checked(false);
    assert_eq!(d.finish(), Some(Err(wedged())));
}

#[test]
fn wedged_session_twice() {
    let account = alice();
    for _ in 0..2 {
        let mut d = OlmDecryption::start(&account, &event_from_bob(1, "corrupted"), 1).unwrap();
        d.on_decrypted(false);
        assert_eq!(d.step(), &DecryptStep::CheckReplay);
        d.on_replay_checked(false);
        assert_eq!(d.finish(), Some(Err(wedged())));
    }
}

#[test]
fn normal_message_without_session_is_wedged() {
    let account = alice();
    let mut d = OlmDecryption::start(&account, &event_from_bob(1, "body"), 0).unwrap();
    assert_eq!(d.step(), &DecryptStep::CheckReplay);
    d.on_replay_checked(false);
    assert_eq!(d.finish(), Some(Err(wedged())));
}

#[test]
fn replayed_message() {
    let account = alice();
    let event = event_from_bob(1, "body");
    let mut first = OlmDecryption::start(&account, &event, 1).unwrap();
    first.on_decrypted(true);
    first.on_envelope(Some(good_envelope()));
    let known = first.message_hash().clone();
    assert!(first.finish().unwrap().is_ok());

    let mut second = OlmDecryption::start(&account, &event, 1).unwrap();
    assert_eq!(second.message_hash().hash, known.hash);
    second.on_decrypted(false);
    second.on_replay_checked(second.message_hash().hash == known.hash);
    assert_eq!(
        second.finish(),
        Some(Err(OlmError::ReplayedMessage(
            "@bob:localhost".to_owned(),
            "bob_curve".to_owned()
        )))
    );
}

#[test]
fn failed_session_creation_is_wedged() {
    let account = alice();
    let mut d = OlmDecryption::start(&account, &event_from_bob(0, "body"), 0).unwrap();
    d.on_session_created(false);
    assert_eq!(d.step(), &DecryptStep::CheckReplay);
    d.on_replay_checked(false);
    assert_eq!(d.finish(), Some(Err(wedged())));
}

#[test]
fn new_session_that_cannot_decrypt() {
    let account = alice();
    let mut d = OlmDecryption::start(&account, &event_from_bob(0, "body"), 0).unwrap();
    d.on_session_created(true);
    d.on_new_session_decrypted(false);
    assert_eq!(d.finish(), Some(Err(OlmError::OlmSession)));
}

#[test]
fn wrong_recipient() {
    let account = alice();
    let mut d = OlmDecryption::start(&account, &event_from_bob(1, "body"), 1).unwrap();
    d.on_decrypted(true);
    d.on_envelope(Some(envelope("@bob:localhost", "@mallory:localhost", "alice_ed")));
    let error = OlmError::EventError(EventError::MismatchedSender(
        "@mallory:localhost".to_owned(),
        "@alice:localhost".to_owned(),
    ));
    assert_eq!(d.step(), &DecryptStep::SaveThenFail(SessionType::Existing(0), error.clone()));
    d.on_saved();
    assert_eq!(d.finish(), Some(Err(error)));
}

#[test]
fn wrong_inner_sender() {
    let account = alice();
    let mut d = OlmDecryption::start(&account, &event_from_bob(1, "body"), 1).unwrap();
    d.on_decrypted(true);
    d.on_envelope(Some(envelope("@eve:localhost", "@alice:localhost", "alice_ed")));
    d.on_saved();
    assert_eq!(
        d.finish(),
        Some(Err(OlmError::EventError(EventError::MismatchedSender(
            "@eve:localhost".to_owned(),
            "@bob:localhost".to_owned()
        ))))
    );
}

#[test]
fn wrong_recipient_key() {
    let account = alice();
    let mut d = OlmDecryption::start(&account, &event_from_bob(0, "body"), 0).unwrap();
    d.on_session_created(true);
    d.on_new_session_decrypted(true);
    d.on_saved();
    d.on_envelope(Some(envelope("@bob:localhost", "@alice:localhost", "other_ed")));
    let error = OlmError::EventError(EventError::MismatchedKeys(
        "alice_ed".to_owned(),
        "other_ed".to_owned(),
    ));
    assert_eq!(d.step(), &DecryptStep::SaveThenFail(SessionType::New(0), error.clone()));
    d.on_saved();
    assert_eq!(d.finish(), Some(Err(error)));
}

#[test]
fn unreadable_plaintext() {
    let account = alice();
    let mut d = OlmDecryption::start(&account, &event_from_bob(1, "body"), 1).unwrap();
    d.on_decrypted(true);
    d.on_envelope(None);
    assert_eq!(d.step(), &DecryptStep::SaveThenFail(SessionType::Existing(0), OlmError::JsonError));
    d.on_saved();
    assert_eq!(d.finish(), Some(Err(OlmError::JsonError)));
}

#[test]
fn unsupported_algorithm() {
    let account = alice();
    let event = ToDeviceEncryptedEvent {
        sender: "@bob:localhost".to_owned(),
        content: EncryptedEventScheme::MegolmV1AesSha2,
    };
    assert_eq!(
        OlmDecryption::start(&account, &event, 0).err(),
        Some(OlmError::EventError(EventError::UnsupportedAlgorithm))
    );
}

#[test]
fn missing_ciphertext() {
    let account = ReadOnlyAccount::new(
        "@dave:localhost",
        "DAVEDEVICE",
        IdentityKeys::new("dave_curve".to_owned(), "dave_ed".to_owned()),
    );
    assert_eq!(
        OlmDecryption::start(&account, &event_from_bob(0, "body"), 0).err(),
        Some(OlmError::EventError(EventError::MissingCiphertext))
    );
}

#[test]
fn unsupported_message_type() {
    let account = alice();
    assert_eq!(
        OlmDecryption::start(&account, &event_from_bob(7, "body"), 0).err(),
        Some(OlmError::EventError(EventError::UnsupportedOlmType(7)))
    );
}

#[test]
fn events_out_of_turn_are_ignored() {
    let account = alice();
    let mut d = OlmDecryption::start(&account, &event_from_bob(0, "body"), 1).unwrap();
    d.on_decrypted(true);
    d.on_saved();
    d.on_replay_checked(true);
    assert_eq!(d.step(), &DecryptStep::CheckMatch(0));
    assert!(d.finish().is_none());
}
