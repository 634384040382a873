use matrix_sdk_crypto::account::{
    AccountPickle, DeviceKeyAlgorithm, EventEncryptionAlgorithm, IdentityKeys, OlmKeys,
    ReadOnlyAccount,
};

const MAX_KEYS: usize = 100;

fn alice() -> ReadOnlyAccount {
    ReadOnlyAccount::new(
        "@alice:localhost",
        "DEVICEID",
        IdentityKeys::new("alice_curve".to_owned(), "alice_ed".to_owned()),
    )
}

fn snapshot(ids: std::ops::Range<u32>, fallback: Option<u32>) -> OlmKeys {
    OlmKeys {
        one_time_keys: ids.map(|i| (format!("AAAA{}", i), format!("key{}", i))).collect(),
        fallback_key: fallback.map(|i| (format!("FB{}", i), format!("fallback{}", i))),
        max_one_time_keys: MAX_KEYS,
    }
}

fn ids(list: &[(String, String)]) -> Vec<String> {
    let mut v: Vec<String> = list.iter().map(|(id, _)| id.clone()).collect();
    v.sort();
    v
}

#[test]
fn new_account_state() {
    let account = alice();
    assert_eq!(account.user_id(), "@alice:localhost");
    assert_eq!(account.device_id(), "DEVICEID");
    assert_eq!(account.identity_keys().curve25519(), "alice_curve");
    assert_eq!(account.identity_keys().ed25519(), "alice_ed");
    assert!(!account.shared());
    assert_eq!(account.uploaded_key_count(), 0);
}

#[test]
fn initial_upload() {
    let mut account = alice();
    let empty = snapshot(0..0, None);
    assert_eq!(account.generate_one_time_keys(&empty), Ok(50));
    let generated = snapshot(0..50, None);
    let upload = account.keys_for_upload(&generated).unwrap();
    let device_keys = upload.device_keys.unwrap();
    assert_eq!(device_keys.user_id, "@alice:localhost");
    assert_eq!(upload.one_time_keys.len(), 50);
    assert!(upload.fallback_keys.is_empty());

    account.receive_keys_upload_response(&vec![(DeviceKeyAlgorithm::SignedCurve25519, 0)]);
    assert!(account.shared());
    let published = snapshot(0..0, None);
    assert_eq!(account.generate_one_time_keys(&published), Ok(50));
    let fresh = snapshot(50..100, None);
    let upload = account.keys_for_upload(&fresh).unwrap();
    assert!(upload.device_keys.is_none());
    assert_eq!(upload.one_time_keys.len(), MAX_KEYS / 2);
    assert!(upload.fallback_keys.is_empty());
}

#[test]
fn one_time_key_creation() {
    let mut account = alice();
    let first = snapshot(0..0, None);
    let n = account.generate_one_time_keys(&first).unwrap();
    let after = snapshot(0..n as u32, None);
    let one_time_keys = account.keys_for_upload(&after).unwrap().one_time_keys;

    assert_eq!(account.generate_one_time_keys(&after), Ok(0));
    let second_one_time_keys = account.keys_for_upload(&after).unwrap().one_time_keys;
    assert_eq!(ids(&one_time_keys), ids(&second_one_time_keys));

    let published = snapshot(0..0, None);
    account.update_uploaded_key_count(50);
    assert_eq!(account.generate_one_time_keys(&published), Err(()));
    let third = account.keys_for_upload(&published).unwrap();
    assert!(third.one_time_keys.is_empty());

    account.update_uploaded_key_count(0);
    let n = account.generate_one_time_keys(&published).unwrap();
    assert_eq!(n, 50);
    let fresh = snapshot(50..100, None);
    let fourth_one_time_keys = account.keys_for_upload(&fresh).unwrap().one_time_keys;
    assert_eq!(fourth_one_time_keys.len(), 50);
    for id in ids(&fourth_one_time_keys) {
        assert!(!ids(&one_time_keys).contains(&id));
    }
}

#[test]
fn fallback_key_creation() {
    let mut account = alice();
    account.mark_as_shared();
    let counts = vec![(DeviceKeyAlgorithm::SignedCurve25519, 50)];
    let keys = snapshot(0..0, None);

    assert!(!account.update_key_counts(&counts, None, &keys));
    assert_eq!(account.uploaded_key_count(), 50);
    assert!(account.keys_for_upload(&keys).unwrap().fallback_keys.is_empty());

    assert!(account.update_key_counts(&counts, Some(&vec![]), &keys));
    let with_fallback = snapshot(0..0, Some(7));
    let upload = account.keys_for_upload(&with_fallback).unwrap();
    assert_eq!(
        upload.fallback_keys,
        vec![("signed_curve25519:FB7".to_owned(), "fallback7".to_owned())]
    );

    let published = snapshot(0..0, None);
    assert!(!account.update_key_counts(
        &counts,
        Some(&vec![DeviceKeyAlgorithm::SignedCurve25519]),
        &published
    ));
    assert!(account.keys_for_upload(&published).unwrap().fallback_keys.is_empty());
}

#[test]
fn pending_fallback_key_is_not_generated_again() {
    let mut account = alice();
    let pending = snapshot(0..0, Some(1));
    assert!(!account.update_key_counts(&vec![], Some(&vec![]), &pending));
    assert!(account.should_upload_keys(&pending));
}

#[test]
fn key_counts_take_the_signed_curve25519_entry() {
    let mut account = alice();
    let counts = vec![
        (DeviceKeyAlgorithm::Custom("other".to_owned()), 3),
        (DeviceKeyAlgorithm::Curve25519, 4),
        (DeviceKeyAlgorithm::SignedCurve25519, 17),
    ];
    let keys = snapshot(0..0, None);
    assert!(!account.update_key_counts(&counts, None, &keys));
    assert_eq!(account.uploaded_key_count(), 17);
    assert!(!account.update_key_counts(&vec![(DeviceKeyAlgorithm::Ed25519, 9)], None, &keys));
    assert_eq!(account.uploaded_key_count(), 17);
}

#[test]
fn upload_due_up_to_half_the_capacity() {
    let mut account = alice();
    let keys = snapshot(0..0, None);
    assert!(account.should_upload_keys(&keys));
    account.mark_as_shared();
    account.update_uploaded_key_count(50);
    assert!(account.should_upload_keys(&keys));
    account.update_uploaded_key_count(51);
    assert!(!account.should_upload_keys(&keys));
    assert!(account.keys_for_upload(&keys).is_none());
    assert_eq!(account.generate_one_time_keys(&keys), Err(()));
    account.update_uploaded_key_count(10);
    assert_eq!(account.generate_one_time_keys(&keys), Ok(40));
}

#[test]
fn unsigned_device_keys_layout() {
    let account = alice();
    let device_keys = account.unsigned_device_keys();
    assert_eq!(device_keys.device_id, "DEVICEID");
    assert_eq!(
        device_keys.algorithms,
        vec![
            EventEncryptionAlgorithm::OlmV1Curve25519AesSha2,
            EventEncryptionAlgorithm::MegolmV1AesSha2
        ]
    );
    assert_eq!(
        device_keys.keys,
        vec![
            ("curve25519:DEVICEID".to_owned(), "alice_curve".to_owned()),
            ("ed25519:DEVICEID".to_owned(), "alice_ed".to_owned()),
        ]
    );
}

#[test]
fn one_time_key_ids_are_prefixed() {
    let account = alice();
    let keys = snapshot(0..2, None);
    let upload = account.keys_for_upload(&keys).unwrap();
    assert_eq!(
        upload.one_time_keys,
        vec![
            ("signed_curve25519:AAAA0".to_owned(), "key0".to_owned()),
            ("signed_curve25519:AAAA1".to_owned(), "key1".to_owned()),
        ]
    );
}

#[test]
fn pickle_round_trip() {
    let mut account = alice();
    account.mark_as_shared();
    account.update_uploaded_key_count(23);
    let pickled = account.pickle(AccountPickle::from("olm pickle".to_owned()));
    assert_eq!(pickled.pickle.as_str(), "olm pickle");
    assert_eq!(pickled.uploaded_signed_key_count, 23);
    let restored = ReadOnlyAccount::from_pickle(
        pickled,
        IdentityKeys::new("alice_curve".to_owned(), "alice_ed".to_owned()),
    );
    assert!(restored == account);
    assert_eq!(restored.user_id(), "@alice:localhost");
    assert_eq!(restored.device_id(), "DEVICEID");
    assert_eq!(restored.uploaded_key_count(), 23);
    assert!(restored.shared());
}

#[test]
fn accounts_differ_by_shared_flag() {
    let mut account = alice();
    let other = alice();
    assert!(account == other);
    account.mark_as_shared();
    assert!(account != other);
}
