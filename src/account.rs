use vstd::prelude::*;

verus! {

/// The public halves of an account's identity key pair.
#[derive(Debug, Clone)]
pub struct IdentityKeys {
    /// The Curve25519 key, used for key agreement.
    pub curve25519: String,
    /// The Ed25519 key, used for signatures.
    pub ed25519: String,
}

impl IdentityKeys {
    pub fn new(curve25519: String, ed25519: String) -> (r: Self)
        ensures
            r.curve25519 == curve25519,
            r.ed25519 == ed25519,
    {
        IdentityKeys { curve25519, ed25519 }
    }

    /// The Curve25519 key.
    pub fn curve25519(&self) -> (r: &str)
        ensures
            r@ == self.curve25519@,
    {
        self.curve25519.as_str()
    }

    /// The Ed25519 key.
    pub fn ed25519(&self) -> (r: &str)
        ensures
            r@ == self.ed25519@,
    {
        self.ed25519.as_str()
    }
}

impl PartialEq for IdentityKeys {
    fn eq(&self, other: &IdentityKeys) -> (r: bool) {
        self.curve25519 == other.curve25519 && self.ed25519 == other.ed25519
    }
}

impl vstd::std_specs::cmp::PartialEqSpecImpl for IdentityKeys {
    open spec fn obeys_eq_spec() -> bool {
        true
    }

    open spec fn eq_spec(&self, other: &IdentityKeys) -> bool {
        self.curve25519@ == other.curve25519@ && self.ed25519@ == other.ed25519@
    }
}

/// A key algorithm as named in key counts and key ids.
#[derive(Debug, Clone, PartialEq, Eq)]
pub enum DeviceKeyAlgorithm {
    Ed25519,
    Curve25519,
    SignedCurve25519,
    Custom(String),
}

/// An event encryption algorithm that a device announces.
#[derive(Debug, Clone, Copy, PartialEq, Eq, Structural)]
pub enum EventEncryptionAlgorithm {
    OlmV1Curve25519AesSha2,
    MegolmV1AesSha2,
}

/// What the Olm account holds that the key upload rules read: its unpublished
/// one-time keys and fallback key, each as key id and Curve25519 key, and how many
/// one-time keys it can hold.
#[derive(Debug, Clone)]
pub struct OlmKeys {
    pub one_time_keys: Vec<(String, String)>,
    pub fallback_key: Option<(String, String)>,
    pub max_one_time_keys: usize,
}

/// The device keys of an account, before they are signed.
#[derive(Debug, Clone)]
pub struct DeviceKeys {
    pub user_id: String,
    pub device_id: String,
    pub algorithms: Vec<EventEncryptionAlgorithm>,
    /// Key id (`<algorithm>:<device id>`) and key.
    pub keys: Vec<(String, String)>,
}

/// The keys to upload, before they are signed: the device keys on the first upload,
/// and the one-time and fallback keys, each under its key id
/// `signed_curve25519:<key id>`.
#[derive(Debug, Clone)]
pub struct KeysForUpload {
    pub device_keys: Option<DeviceKeys>,
    pub one_time_keys: Vec<(String, String)>,
    pub fallback_keys: Vec<(String, String)>,
}

/// A typed representation of a base64 encoded string containing the account
/// pickle.
#[derive(Debug, Clone)]
pub struct AccountPickle(pub String);

impl AccountPickle {
    /// Get the string representation of the pickle.
    pub fn as_str(&self) -> (r: &str)
        ensures
            r@ == self.0@,
    {
        self.0.as_str()
    }
}

impl From<String> for AccountPickle {
    fn from(value: String) -> (r: AccountPickle) {
        AccountPickle(value)
    }
}

impl vstd::std_specs::convert::FromSpecImpl<String> for AccountPickle {
    open spec fn obeys_from_spec() -> bool {
        true
    }

    open spec fn from_spec(value: String) -> AccountPickle {
        AccountPickle(value)
    }
}

/// A pickled version of an account.
///
/// Holds all the information that needs to be stored in a database to restore
/// an account.
#[derive(Debug, Clone)]
pub struct PickledAccount {
    /// The user id of the account owner.
    pub user_id: String,
    /// The device id of the account owner.
    pub device_id: String,
    /// The pickled version of the Olm account.
    pub pickle: AccountPickle,
    /// Was the account shared.
    pub shared: bool,
    /// The number of uploaded one-time keys we have on the server.
    pub uploaded_signed_key_count: u64,
}

/// The state of an account as the rules see it.
pub struct AccountView {
    pub user_id: Seq<char>,
    pub device_id: Seq<char>,
    pub curve25519: Seq<char>,
    pub ed25519: Seq<char>,
    pub shared: bool,
    pub uploaded_signed_key_count: u64,
}

/// Account holding identity keys for which sessions can be created: who owns it,
/// whether the server has its device keys, and how many of its one-time keys the
/// server holds.
#[derive(Debug, Clone)]
pub struct ReadOnlyAccount {
    user_id: String,
    device_id: String,
    identity_keys: IdentityKeys,
    shared: bool,
    uploaded_signed_key_count: u64,
}

impl View for ReadOnlyAccount {
    type V = AccountView;

    closed spec fn view(&self) -> AccountView {
        AccountView {
            user_id: self.user_id@,
            device_id: self.device_id@,
            curve25519: self.identity_keys.curve25519@,
            ed25519: self.identity_keys.ed25519@,
            shared: self.shared,
            uploaded_signed_key_count: self.uploaded_signed_key_count,
        }
    }
}

impl ReadOnlyAccount {
    /// A fresh account of the given device, with the identity keys of its newly
    /// created Olm account; not yet shared, with no key known on the server.
    pub fn new(user_id: &str, device_id: &str, identity_keys: IdentityKeys) -> (r: Self)
        ensures
            r@ == (AccountView {
                user_id: user_id@,
                device_id: device_id@,
                curve25519: identity_keys.curve25519@,
                ed25519: identity_keys.ed25519@,
                shared: false,
                uploaded_signed_key_count: 0,
            }),
    {
        ReadOnlyAccount {
            user_id: user_id.to_owned(),
            device_id: device_id.to_owned(),
            identity_keys,
            shared: false,
            uploaded_signed_key_count: 0,
        }
    }

    /// Get the user id of the owner of the account.
    pub fn user_id(&self) -> (r: &str)
        ensures
            r@ == self@.user_id,
    {
        self.user_id.as_str()
    }

    /// Get the device id that owns this account.
    pub fn device_id(&self) -> (r: &str)
        ensures
            r@ == self@.device_id,
    {
        self.device_id.as_str()
    }

    /// Get the public parts of the identity keys for the account.
    pub fn identity_keys(&self) -> (r: &IdentityKeys)
        ensures
            r.curve25519@ == self@.curve25519,
            r.ed25519@ == self@.ed25519,
    {
        &self.identity_keys
    }

    /// Update the uploaded key count.
    pub fn update_uploaded_key_count(&mut self, new_count: u64)
        ensures
            final(self)@ == (AccountView { uploaded_signed_key_count: new_count, ..old(self)@ }),
    {
        self.uploaded_signed_key_count = new_count;
    }

    /// Get the currently known uploaded key count.
    pub fn uploaded_key_count(&self) -> (r: u64)
        ensures
            r == self@.uploaded_signed_key_count,
    {
        self.uploaded_signed_key_count
    }

    /// Has the account been shared with the server.
    pub fn shared(&self) -> (r: bool)
        ensures
            r == self@.shared,
    {
        self.shared
    }

    /// Mark the account as shared.
    pub fn mark_as_shared(&mut self)
        ensures
            final(self)@ == (AccountView { shared: true, ..old(self)@ }),
    {
        self.shared = true;
    }
}

impl PartialEq for ReadOnlyAccount {
    fn eq(&self, other: &ReadOnlyAccount) -> (r: bool) {
        self.identity_keys == other.identity_keys && self.shared == other.shared
    }
}

impl vstd::std_specs::cmp::PartialEqSpecImpl for ReadOnlyAccount {
    open spec fn obeys_eq_spec() -> bool {
        true
    }

    open spec fn eq_spec(&self, other: &ReadOnlyAccount) -> bool {
        same_account(self@, other@)
    }
}

/// Two accounts are the same when their identity keys and their shared flag agree.
pub open spec fn same_account(a: AccountView, b: AccountView) -> bool {
    a.curve25519 == b.curve25519 && a.ed25519 == b.ed25519 && a.shared == b.shared
}

/// The count of signed Curve25519 keys that the entries from `i` on report: the
/// first such entry's count.
pub open spec fn signed_count_from(counts: Seq<(DeviceKeyAlgorithm, u64)>, i: int) -> Option<u64>
    decreases counts.len() - i,
{
    if i < 0 || i >= counts.len() {
        None
    } else if counts[i].0 is SignedCurve25519 {
        Some(counts[i].1)
    } else {
        signed_count_from(counts, i + 1)
    }
}

/// Whether an algorithm list names signed Curve25519.
pub open spec fn names_signed_curve25519(algorithms: Seq<DeviceKeyAlgorithm>) -> bool {
    exists|j: int| 0 <= j < algorithms.len() && #[trigger] algorithms[j] is SignedCurve25519
}

/// How many one-time keys the server should hold: half of what the account can hold.
pub open spec fn max_on_server(keys: OlmKeys) -> int {
    keys.max_one_time_keys as int / 2
}

/// Keys are due for upload while the device keys were never accepted, while a
/// fallback key waits, or while the server holds at most half of the one-time keys
/// that the account can hold.
pub open spec fn should_upload_spec(a: AccountView, keys: OlmKeys) -> bool {
    !a.shared || keys.fallback_key is Some || a.uploaded_signed_key_count <= max_on_server(keys)
}

/// How many one-time keys to generate: none while unpublished ones wait, else as
/// many as bring the server's count up to half the capacity, or an error where the
/// server already holds that many.
pub open spec fn generation_spec(a: AccountView, keys: OlmKeys) -> Result<u64, ()> {
    if keys.one_time_keys@.len() > 0 {
        Ok(0)
    } else if a.uploaded_signed_key_count >= max_on_server(keys) {
        Err(())
    } else {
        Ok((max_on_server(keys) - a.uploaded_signed_key_count) as u64)
    }
}

/// The key id under which a one-time or fallback key is uploaded.
pub open spec fn upload_key_id(id: Seq<char>) -> Seq<char> {
    "signed_curve25519:"@ + id
}

/// `out` lists the keys of `keys`, in order, each under its upload key id.
pub open spec fn lists_for_upload(out: Seq<(String, String)>, keys: Seq<(String, String)>) -> bool {
    &&& out.len() == keys.len()
    &&& forall|i: int|
        0 <= i < keys.len() ==> (#[trigger] out[i]).0@ == upload_key_id(keys[i].0@) && out[i].1@
            == keys[i].1@
}

/// The unsigned device keys of an account.
pub open spec fn device_keys_spec(d: DeviceKeys, a: AccountView) -> bool {
    &&& d.user_id@ == a.user_id
    &&& d.device_id@ == a.device_id
    &&& d.algorithms@ == seq![
        EventEncryptionAlgorithm::OlmV1Curve25519AesSha2,
        EventEncryptionAlgorithm::MegolmV1AesSha2,
    ]
    &&& d.keys@.len() == 2
    &&& d.keys@[0].0@ == "curve25519:"@ + a.device_id
    &&& d.keys@[0].1@ == a.curve25519
    &&& d.keys@[1].0@ == "ed25519:"@ + a.device_id
    &&& d.keys@[1].1@ == a.ed25519
}

/// What the account is when restored from `p`, with the identity keys of the
/// unpickled Olm account.
pub open spec fn restored_view(p: PickledAccount, identity_keys: IdentityKeys) -> AccountView {
    AccountView {
        user_id: p.user_id@,
        device_id: p.device_id@,
        curve25519: identity_keys.curve25519@,
        ed25519: identity_keys.ed25519@,
        shared: p.shared,
        uploaded_signed_key_count: p.uploaded_signed_key_count,
    }
}

/// `p` records account `a` with the Olm account pickled as `pickle`.
pub open spec fn pickles(p: PickledAccount, a: AccountView, pickle: AccountPickle) -> bool {
    &&& p.user_id@ == a.user_id
    &&& p.device_id@ == a.device_id
    &&& p.pickle == pickle
    &&& p.shared == a.shared
    &&& p.uploaded_signed_key_count == a.uploaded_signed_key_count
}

fn joined(prefix: &str, rest: &str) -> (r: String)
    ensures
        r@ == prefix@ + rest@,
{
    prefix.to_owned().concat(rest)
}

fn list_for_upload(keys: &Vec<(String, String)>) -> (r: Vec<(String, String)>)
    ensures
        lists_for_upload(r@, keys@),
{
    let mut out: Vec<(String, String)> = Vec::new();
    let mut i: usize = 0;
    while i < keys.len()
        invariant
            i <= keys@.len(),
            out@.len() == i,
            forall|j: int|
                0 <= j < i ==> (#[trigger] out@[j]).0@ == upload_key_id(keys@[j].0@) && out@[j].1@
                    == keys@[j].1@,
        decreases keys@.len() - i,
    {
        let id = joined("signed_curve25519:", keys[i].0.as_str());
        out.push((id, keys[i].1.clone()));
        i = i + 1;
    }
    out
}

impl ReadOnlyAccount {
    fn take_one_time_key_count(&mut self, one_time_key_counts: &Vec<(DeviceKeyAlgorithm, u64)>)
        ensures
            final(self)@ == (AccountView {
                uploaded_signed_key_count: match signed_count_from(one_time_key_counts@, 0) {
                    Some(c) => c,
                    None => old(self)@.uploaded_signed_key_count,
                },
                ..old(self)@
            }),
    {
        let mut i: usize = 0;
        let mut found: Option<u64> = None;
        while i < one_time_key_counts.len()
            invariant
                i <= one_time_key_counts@.len(),
                found is None ==> signed_count_from(one_time_key_counts@, 0) == signed_count_from(
                    one_time_key_counts@,
                    i as int,
                ),
                found is Some ==> signed_count_from(one_time_key_counts@, 0) == found,
            decreases one_time_key_counts@.len() - i,
        {
            if found.is_none() {
                if let DeviceKeyAlgorithm::SignedCurve25519 = one_time_key_counts[i].0 {
                    found = Some(one_time_key_counts[i].1);
                }
            }
            i = i + 1;
        }
        if let Some(count) = found {
            self.update_uploaded_key_count(count);
        }
    }

    /// Takes in the key counts of a sync response.
    ///
    /// The count of signed Curve25519 keys, where reported, becomes the uploaded
    /// key count. Where the server reports its unused fallback key types (it
    /// supports fallback keys) and signed Curve25519 is not among them, a fallback
    /// key is needed: returns whether one must be generated, that is, whether none
    /// is waiting already.
    pub fn update_key_counts(
        &mut self,
        one_time_key_counts: &Vec<(DeviceKeyAlgorithm, u64)>,
        fallback_key_counts: Option<&Vec<DeviceKeyAlgorithm>>,
        keys: &OlmKeys,
    ) -> (generate_fallback: bool)
        ensures
            final(self)@ == (AccountView {
                uploaded_signed_key_count: match signed_count_from(one_time_key_counts@, 0) {
                    Some(c) => c,
                    None => old(self)@.uploaded_signed_key_count,
                },
                ..old(self)@
            }),
            generate_fallback == (fallback_key_counts is Some && !names_signed_curve25519(
                fallback_key_counts->Some_0@,
            ) && keys.fallback_key is None),
    {
        self.take_one_time_key_count(one_time_key_counts);
        match fallback_key_counts {
            None => false,
            Some(unused) => {
                let mut j: usize = 0;
                let mut named = false;
                while j < unused.len()
                    invariant
                        j <= unused@.len(),
                        named == exists|k: int| 0 <= k < j && #[trigger] unused@[k] is SignedCurve25519,
                    decreases unused@.len() - j,
                {
                    if let DeviceKeyAlgorithm::SignedCurve25519 = unused[j] {
                        named = true;
                    }
                    j = j + 1;
                }
                !named && keys.fallback_key.is_none()
            }
        }
    }

    /// Takes in the server's answer to a key upload: the device keys are now known
    /// to the server, and the reported count of signed Curve25519 keys, where there
    /// is one, becomes the uploaded key count.
    pub fn receive_keys_upload_response(
        &mut self,
        one_time_key_counts: &Vec<(DeviceKeyAlgorithm, u64)>,
    )
        ensures
            final(self)@ == (AccountView {
                shared: true,
                uploaded_signed_key_count: match signed_count_from(one_time_key_counts@, 0) {
                    Some(c) => c,
                    None => old(self)@.uploaded_signed_key_count,
                },
                ..old(self)@
            }),
    {
        self.mark_as_shared();
        self.take_one_time_key_count(one_time_key_counts);
    }

    /// Should account or one-time keys be uploaded to the server.
    pub fn should_upload_keys(&self, keys: &OlmKeys) -> (r: bool)
        ensures
            r == should_upload_spec(self@, *keys),
    {
        if !self.shared || keys.fallback_key.is_some() {
            true
        } else {
            let max_keys = keys.max_one_time_keys as u64;
            self.uploaded_signed_key_count <= max_keys / 2
        }
    }

    /// How many one-time keys the Olm account must generate before an upload.
    ///
    /// Only generates where none are waiting, otherwise the caller might have
    /// failed to upload them the last time; returns an empty error where the
    /// server already holds enough.
    pub fn generate_one_time_keys(&self, keys: &OlmKeys) -> (r: Result<u64, ()>)
        ensures
            r == generation_spec(self@, *keys),
            !should_upload_spec(self@, *keys) ==> r != Ok::<u64, ()>(0u64) ==> r is Err,
    {
        if keys.one_time_keys.len() == 0 {
            let max_on_server = (keys.max_one_time_keys as u64) / 2;
            if self.uploaded_signed_key_count >= max_on_server {
                return Err(());
            }
            Ok(max_on_server - self.uploaded_signed_key_count)
        } else {
            Ok(0)
        }
    }

    /// The device keys of the account, before they are signed: its user and device
    /// ids, the Olm and Megolm algorithms, and its two identity keys under the key
    /// ids `curve25519:<device id>` and `ed25519:<device id>`.
    pub fn unsigned_device_keys(&self) -> (r: DeviceKeys)
        ensures
            device_keys_spec(r, self@),
    {
        let mut algorithms: Vec<EventEncryptionAlgorithm> = Vec::new();
        algorithms.push(EventEncryptionAlgorithm::OlmV1Curve25519AesSha2);
        algorithms.push(EventEncryptionAlgorithm::MegolmV1AesSha2);
        let mut keys: Vec<(String, String)> = Vec::new();
        keys.push(
            (
                joined("curve25519:", self.device_id.as_str()),
                self.identity_keys.curve25519.clone(),
            ),
        );
        keys.push(
            (joined("ed25519:", self.device_id.as_str()), self.identity_keys.ed25519.clone()),
        );
        assert(algorithms@ =~= seq![
            EventEncryptionAlgorithm::OlmV1Curve25519AesSha2,
            EventEncryptionAlgorithm::MegolmV1AesSha2,
        ]);
        DeviceKeys {
            user_id: self.user_id.clone(),
            device_id: self.device_id.clone(),
            algorithms,
            keys,
        }
    }

    /// The keys to upload, given what the Olm account holds once the one-time keys
    /// that `generate_one_time_keys` asked for exist; `None` where no upload is due.
    ///
    /// The device keys come along until the account is shared. Every unpublished
    /// one-time key is listed, and the unpublished fallback key where there is one.
    pub fn keys_for_upload(&self, keys: &OlmKeys) -> (r: Option<KeysForUpload>)
        ensures
            r is Some <==> should_upload_spec(self@, *keys),
            r is Some ==> {
                let u = r->Some_0;
                &&& (u.device_keys is Some <==> !self@.shared)
                &&& (u.device_keys is Some ==> device_keys_spec(u.device_keys->Some_0, self@))
                &&& lists_for_upload(u.one_time_keys@, keys.one_time_keys@)
                &&& lists_for_upload(
                    u.fallback_keys@,
                    match keys.fallback_key {
                        Some(k) => seq![k],
                        None => seq![],
                    },
                )
            },
    {
        if !self.should_upload_keys(keys) {
            return None;
        }
        let device_keys = if !self.shared {
            Some(self.unsigned_device_keys())
        } else {
            None
        };
        let one_time_keys = list_for_upload(&keys.one_time_keys);
        let mut pending: Vec<(String, String)> = Vec::new();
        match &keys.fallback_key {
            Some(k) => pending.push((k.0.clone(), k.1.clone())),
            None => {},
        }
        let fallback_keys = list_for_upload(&pending);
        proof {
            if keys.fallback_key is Some {
                assert(pending@ =~= seq![keys.fallback_key->Some_0]);
            } else {
                assert(pending@ =~= Seq::<(String, String)>::empty());
            }
        }
        Some(KeysForUpload { device_keys, one_time_keys, fallback_keys })
    }

    /// Stores the account, with its Olm account pickled as `pickle`.
    pub fn pickle(&self, pickle: AccountPickle) -> (r: PickledAccount)
        ensures
            pickles(r, self@, pickle),
    {
        PickledAccount {
            user_id: self.user_id.clone(),
            device_id: self.device_id.clone(),
            pickle,
            shared: self.shared,
            uploaded_signed_key_count: self.uploaded_signed_key_count,
        }
    }

    /// Restores an account from a previously pickled one, given the identity keys
    /// of the Olm account unpickled from it.
    pub fn from_pickle(pickle: PickledAccount, identity_keys: IdentityKeys) -> (r: Self)
        ensures
            r@ == restored_view(pickle, identity_keys),
    {
        ReadOnlyAccount {
            user_id: pickle.user_id,
            device_id: pickle.device_id,
            identity_keys,
            shared: pickle.shared,
            uploaded_signed_key_count: pickle.uploaded_signed_key_count,
        }
    }
}

/// How many one-time keys the planner has the Olm account generate.
pub open spec fn generated_count(a: AccountView, keys: OlmKeys) -> nat {
    match generation_spec(a, keys) {
        Ok(n) => n as nat,
        Err(_) => 0,
    }
}

/// Pickling an account and restoring it, with the identity keys of the Olm account
/// unpickled from that pickle, gives the same account back.
pub proof fn lemma_pickle_round_trip(
    a: AccountView,
    pickle: AccountPickle,
    p: PickledAccount,
    identity_keys: IdentityKeys,
)
    requires
        pickles(p, a, pickle),
        identity_keys.curve25519@ == a.curve25519,
        identity_keys.ed25519@ == a.ed25519,
    ensures
        restored_view(p, identity_keys) == a,
        same_account(restored_view(p, identity_keys), a),
{
}

/// Asking twice for the keys to upload, with nothing published in between, lists
/// the same one-time keys: once the keys that the first request had generated
/// exist, the second request generates none, so what the Olm account holds, and
/// with it the listing, stays as it was.
pub proof fn lemma_upload_twice_same_keys(a: AccountView, before: OlmKeys, after: OlmKeys)
    requires
        after.max_one_time_keys == before.max_one_time_keys,
        after.one_time_keys@.len() == before.one_time_keys@.len() + generated_count(a, before),
    ensures
        generated_count(a, after) == 0,
{
}

/// Once the one-time keys are published and the server holds half of what the
/// account can hold, no one-time key is generated, and none is listed for upload.
pub proof fn lemma_no_keys_when_server_holds_enough(
    a: AccountView,
    keys: OlmKeys,
    listed: Seq<(String, String)>,
)
    requires
        keys.one_time_keys@.len() == 0,
        a.uploaded_signed_key_count == max_on_server(keys),
        lists_for_upload(listed, keys.one_time_keys@),
    ensures
        generation_spec(a, keys) is Err,
        generated_count(a, keys) == 0,
        listed.len() == 0,
{
}

/// Once the one-time keys are published and the server reports none left, the
/// planner has half of the capacity generated afresh; the listing then holds the
/// unpublished keys only, that is, those new ones.
pub proof fn lemma_fresh_keys_when_server_is_empty(a: AccountView, keys: OlmKeys)
    requires
        keys.one_time_keys@.len() == 0,
        a.uploaded_signed_key_count == 0,
        keys.max_one_time_keys >= 2,
    ensures
        generation_spec(a, keys) == Ok::<u64, ()>((keys.max_one_time_keys / 2) as u64),
        generated_count(a, keys) > 0,
{
}

} // verus!
