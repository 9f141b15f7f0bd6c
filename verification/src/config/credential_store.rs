//! Credential store backends for the API token.
//!
//! `Unavailable` means the backend is not present at all, so resolution may
//! fall through to `credentials.toml`. `Backend` means a real access failure,
//! and resolution must not fall back to the plaintext file.

use vstd::prelude::*;
use vstd::string::*;
use crate::text::{lowercase, contains_str};

verus! {

/// Keychain service name used by [`KeychainStore`].
pub const KEYCHAIN_SERVICE: &'static str = "dev.cloudapps-cli";

/// Logical key of the API token.
pub const KEY_API_TOKEN: &'static str = "api_token";

/// `errSecNoDefaultKeychain`.
pub const ERR_SEC_NO_DEFAULT_KEYCHAIN: i32 = -25307;

/// `errSecInvalidKeychain`.
pub const ERR_SEC_INVALID_KEYCHAIN: i32 = -25295;

/// Error classes produced by a credential store.
#[derive(Debug)]
pub enum StoreError {
    Unavailable(String),
    Backend(String),
}

impl StoreError {
    pub open spec fn is_unavailable(&self) -> bool {
        self is Unavailable
    }

    /// The text that the error carries.
    pub open spec fn detail(&self) -> Seq<char> {
        match self {
            StoreError::Unavailable(m) => m@,
            StoreError::Backend(m) => m@,
        }
    }

    /// The text of the error.
    pub open spec fn text(&self) -> Seq<char> {
        match self {
            StoreError::Unavailable(m) => "credential store unavailable: "@ + m@,
            StoreError::Backend(m) => "credential store error: "@ + m@,
        }
    }

    pub fn message(&self) -> (r: String)
        ensures
            r@ == self.text(),
    {
        match self {
            StoreError::Unavailable(m) => {
                let mut s = String::from_str("credential store unavailable: ");
                s.append(m.as_str());
                s
            },
            StoreError::Backend(m) => {
                let mut s = String::from_str("credential store error: ");
                s.append(m.as_str());
                s
            },
        }
    }
}

/// A credential store backend.
pub trait CredentialStore {
    fn get(&self, key: &str) -> Result<Option<String>, StoreError>;

    fn set(&mut self, key: &str, value: &str) -> Result<(), StoreError>;

    fn delete(&mut self, key: &str) -> Result<(), StoreError>;
}

/// The message of [`UnsupportedStore`]'s errors.
pub open spec fn unsupported_text() -> Seq<char> {
    "keychain backend is only compiled on macOS"@
}

fn unsupported_error() -> (e: StoreError)
    ensures
        e matches StoreError::Unavailable(m) && m@ == unsupported_text(),
{
    StoreError::Unavailable(String::from_str("keychain backend is only compiled on macOS"))
}

/// The store of platforms without a keychain backend: every call reports
/// `Unavailable`, so resolution falls through to the toml.
pub struct UnsupportedStore;

impl CredentialStore for UnsupportedStore {
    fn get(&self, key: &str) -> (r: Result<Option<String>, StoreError>)
        ensures
            r matches Err(StoreError::Unavailable(m)) && m@ == unsupported_text(),
    {
        Err(unsupported_error())
    }

    fn set(&mut self, key: &str, value: &str) -> (r: Result<(), StoreError>)
        ensures
            r matches Err(StoreError::Unavailable(m)) && m@ == unsupported_text(),
    {
        Err(unsupported_error())
    }

    fn delete(&mut self, key: &str) -> (r: Result<(), StoreError>)
        ensures
            r matches Err(StoreError::Unavailable(m)) && m@ == unsupported_text(),
    {
        Err(unsupported_error())
    }
}

/// Whether a lowercased error text names a missing credential store.
pub open spec fn names_missing_store(lower: Seq<char>) -> bool {
    ||| crate::text::contains_seq(lower, "no default keychain"@)
    ||| crate::text::contains_seq(lower, "no platform credential store"@)
    ||| crate::text::contains_seq(lower, "keychain not found"@)
}

/// The class of a keychain failure: by its OSStatus code where one is known,
/// otherwise by its (lowercased) text; unknown shapes count as `Backend`.
pub open spec fn failure_is_unavailable(os_status: Option<i32>, message: Seq<char>) -> bool {
    match os_status {
        Some(code) => code == ERR_SEC_NO_DEFAULT_KEYCHAIN || code == ERR_SEC_INVALID_KEYCHAIN,
        None => names_missing_store(crate::text::unicode_lowercase(message)),
    }
}

/// Classify a keychain failure into `Unavailable` (the store as a whole is not
/// present) or `Backend` (a real access failure); the error keeps the text.
pub fn classify_keyring_failure(os_status: Option<i32>, message: String) -> (r: StoreError)
    ensures
        r.is_unavailable() == failure_is_unavailable(os_status, message@),
        match r {
            StoreError::Unavailable(m) => m@ == message@,
            StoreError::Backend(m) => m@ == message@,
        },
{
    let unavailable = match os_status {
        Some(code) => code == ERR_SEC_NO_DEFAULT_KEYCHAIN || code == ERR_SEC_INVALID_KEYCHAIN,
        None => {
            let lower = lowercase(message.as_str());
            let l = lower.as_str();
            contains_str(l, "no default keychain") || contains_str(l, "no platform credential store")
                || contains_str(l, "keychain not found")
        },
    };
    if unavailable {
        StoreError::Unavailable(message)
    } else {
        StoreError::Backend(message)
    }
}

#[verifier::external_type_specification]
#[verifier::external_body]
pub struct ExKeyringEntry(keyring::Entry);

#[verifier::external_type_specification]
#[verifier::external_body]
pub struct ExKeyringError(keyring::Error);

/// A keyring failure, told apart as the store needs it.
pub enum KeyringFailure {
    /// `keyring::Error::NoEntry`: there is no credential for the entry; with
    /// the error's text.
    NoEntry { message: String },
    /// Any other failure, with the OSStatus code where it can be read and the
    /// error's text.
    Other { os_status: Option<i32>, message: String },
}

/// A keyring entry together with the service and account it was made for.
pub struct KeychainEntry {
    service: String,
    account: String,
    entry: keyring::Entry,
}

impl KeychainEntry {
    /// The service the entry was made for.
    pub closed spec fn service(&self) -> Seq<char> {
        self.service@
    }

    /// The account the entry was made for.
    pub closed spec fn account(&self) -> Seq<char> {
        self.account@
    }
}

/// `keyring::Entry::new(service, account)`, which makes the entry for that
/// service and account (keyring's `Entry::new` hands both on to the platform
/// builder). The entry is returned with the two names it was made for. Whether
/// the call succeeds depends on the platform store, so nothing is stated of that.
#[verifier::external_body]
fn keyring_entry(service: &str, account: &str) -> (r: Result<KeychainEntry, keyring::Error>)
    ensures
        r matches Ok(e) ==> e.service() == service@ && e.account() == account@,
{
    match keyring::Entry::new(service, account) {
        Ok(entry) => Ok(KeychainEntry { service: service.to_string(), account: account.to_string(), entry }),
        Err(e) => Err(e),
    }
}

/// `keyring::Entry::get_password`. The outcome depends on the platform store.
#[verifier::external_body]
fn keyring_get_password(entry: &KeychainEntry) -> Result<String, keyring::Error> {
    entry.entry.get_password()
}

/// `keyring::Entry::set_password`. The outcome depends on the platform store.
#[verifier::external_body]
fn keyring_set_password(entry: &KeychainEntry, password: &str) -> Result<(), keyring::Error> {
    entry.entry.set_password(password)
}

/// `keyring::Entry::delete_credential`. The outcome depends on the platform store.
#[verifier::external_body]
fn keyring_delete_credential(entry: &KeychainEntry) -> Result<(), keyring::Error> {
    entry.entry.delete_credential()
}

/// Tells `keyring::Error::NoEntry` apart from every other failure, and keeps the
/// `Display` text of the others. The OSStatus code of an Apple keychain failure
/// is carried inside a `security_framework` error, a crate that is only built on
/// Apple platforms; it is not read here, so no code is handed on, and nothing is
/// stated of the text.
#[verifier::external_body]
fn keyring_failure(e: keyring::Error) -> (r: KeyringFailure)
    ensures
        r matches KeyringFailure::Other { os_status, .. } ==> os_status is None,
{
    match &e {
        keyring::Error::NoEntry => KeyringFailure::NoEntry { message: e.to_string() },
        _ => KeyringFailure::Other { os_status: None, message: e.to_string() },
    }
}

/// No OSStatus code is carried by the failure.
pub open spec fn code_unread(f: KeyringFailure) -> bool {
    f matches KeyringFailure::Other { os_status, .. } ==> os_status is None
}

/// A keychain error classified by its own text alone, as every keychain
/// failure is here (no OSStatus code is read).
pub open spec fn classified_by_text(e: StoreError) -> bool {
    e.is_unavailable() == failure_is_unavailable(None, e.detail())
}

/// The class and text of a keyring failure as the store reports it.
pub open spec fn classified(f: KeyringFailure, e: StoreError) -> bool {
    match f {
        KeyringFailure::NoEntry { message } => e.is_unavailable() == failure_is_unavailable(
            None,
            message@,
        ) && e.detail() == message@,
        KeyringFailure::Other { os_status, message } => e.is_unavailable()
            == failure_is_unavailable(os_status, message@) && e.detail() == message@,
    }
}

fn classify(f: KeyringFailure) -> (r: StoreError)
    ensures
        classified(f, r),
{
    match f {
        KeyringFailure::NoEntry { message } => classify_keyring_failure(None, message),
        KeyringFailure::Other { os_status, message } => classify_keyring_failure(os_status, message),
    }
}

fn failure_of<T>(r: Result<T, keyring::Error>) -> (o: Result<T, KeyringFailure>)
    ensures
        match r {
            Ok(v) => o == Ok::<T, KeyringFailure>(v),
            Err(_) => o matches Err(f) && code_unread(f),
        },
{
    match r {
        Ok(v) => Ok(v),
        Err(e) => Err(keyring_failure(e)),
    }
}

/// What a read of the keychain answers, from what the keyring gave: the
/// password; `Ok(None)` where there is no entry; else the classified failure.
pub fn get_outcome(r: Result<String, KeyringFailure>) -> (o: Result<Option<String>, StoreError>)
    ensures
        match r {
            Ok(v) => o matches Ok(Some(s)) && s@ == v@,
            Err(KeyringFailure::NoEntry { .. }) => o matches Ok(None),
            Err(f) => o matches Err(e) && classified(f, e),
        },
{
    match r {
        Ok(v) => Ok(Some(v)),
        Err(KeyringFailure::NoEntry { .. }) => Ok(None),
        Err(f) => Err(classify(f)),
    }
}

/// What a write to the keychain answers, from what the keyring gave: success,
/// or the classified failure (a missing entry too is a failure of a write).
pub fn set_outcome(r: Result<(), KeyringFailure>) -> (o: Result<(), StoreError>)
    ensures
        match r {
            Ok(()) => o is Ok,
            Err(f) => o matches Err(e) && classified(f, e),
        },
{
    match r {
        Ok(()) => Ok(()),
        Err(f) => Err(classify(f)),
    }
}

/// What a delete from the keychain answers, from what the keyring gave:
/// success, also where there was no entry; else the classified failure.
pub fn delete_outcome(r: Result<(), KeyringFailure>) -> (o: Result<(), StoreError>)
    ensures
        match r {
            Ok(()) => o is Ok,
            Err(KeyringFailure::NoEntry { .. }) => o is Ok,
            Err(f) => o matches Err(e) && classified(f, e),
        },
{
    match r {
        Ok(()) => Ok(()),
        Err(KeyringFailure::NoEntry { .. }) => Ok(()),
        Err(f) => Err(classify(f)),
    }
}

/// The macOS Keychain, one entry per key under a fixed service name.
pub struct KeychainStore {
    service: String,
}

impl KeychainStore {
    pub closed spec fn service(&self) -> Seq<char> {
        self.service@
    }

    pub fn new(service: &str) -> (r: Self)
        ensures
            r.service() == service@,
    {
        KeychainStore { service: String::from_str(service) }
    }

    /// The entry of `key` under the store's service.
    fn entry(&self, key: &str) -> (r: Result<KeychainEntry, StoreError>)
        ensures
            r matches Ok(e) ==> e.service() == self.service() && e.account() == key@,
            r matches Err(e) ==> classified_by_text(e),
    {
        match keyring_entry(self.service.as_str(), key) {
            Ok(e) => Ok(e),
            Err(e) => Err(classify(keyring_failure(e))),
        }
    }
}

impl CredentialStore for KeychainStore {
    /// Reads the entry of `key`; a missing entry is `Ok(None)` (see
    /// [`get_outcome`]). What the platform store holds is not stated.
    fn get(&self, key: &str) -> (r: Result<Option<String>, StoreError>)
        ensures
            r matches Err(e) ==> classified_by_text(e),
    {
        match self.entry(key) {
            Ok(entry) => get_outcome(failure_of(keyring_get_password(&entry))),
            Err(e) => Err(e),
        }
    }

    /// Writes the entry of `key` (see [`set_outcome`]); the handle is unchanged.
    fn set(&mut self, key: &str, value: &str) -> (r: Result<(), StoreError>)
        ensures
            *final(self) == *old(self),
            r matches Err(e) ==> classified_by_text(e),
    {
        match self.entry(key) {
            Ok(entry) => set_outcome(failure_of(keyring_set_password(&entry, value))),
            Err(e) => Err(e),
        }
    }

    /// Deletes the entry of `key`; deleting a missing entry succeeds (see
    /// [`delete_outcome`]); the handle is unchanged.
    fn delete(&mut self, key: &str) -> (r: Result<(), StoreError>)
        ensures
            *final(self) == *old(self),
            r matches Err(e) ==> classified_by_text(e),
    {
        match self.entry(key) {
            Ok(entry) => delete_outcome(failure_of(keyring_delete_credential(&entry))),
            Err(e) => Err(e),
        }
    }
}

} // verus!

verus! {

/// The map that a list of entries stands for: a later entry for a key wins.
pub open spec fn entries_map(e: Seq<(String, String)>) -> Map<Seq<char>, Seq<char>>
    decreases e.len(),
{
    if e.len() == 0 {
        Map::empty()
    } else {
        entries_map(e.drop_last()).insert(e.last().0@, e.last().1@)
    }
}

proof fn lemma_entries_map_tail(e: Seq<(String, String)>, i: int, k: Seq<char>)
    requires
        0 <= i <= e.len(),
        forall|j: int| i <= j < e.len() ==> e[j].0@ != k,
    ensures
        entries_map(e).contains_key(k) == entries_map(e.take(i)).contains_key(k),
        entries_map(e).contains_key(k) ==> entries_map(e)[k] == entries_map(e.take(i))[k],
    decreases e.len() - i,
{
    if i < e.len() {
        assert(e.drop_last().take(i) =~= e.take(i));
        lemma_entries_map_tail(e.drop_last(), i, k);
    } else {
        assert(e.take(i) =~= e);
    }
}

/// An in-memory store, for tests and for callers that keep secrets only for
/// the life of the process.
pub struct MemoryStore {
    entries: Vec<(String, String)>,
}

impl MemoryStore {
    /// The key/value map the store holds.
    pub closed spec fn contents(&self) -> Map<Seq<char>, Seq<char>> {
        entries_map(self.entries@)
    }

    pub fn new() -> (r: Self)
        ensures
            r.contents() == Map::<Seq<char>, Seq<char>>::empty(),
    {
        MemoryStore { entries: Vec::new() }
    }

    /// The entries without any entry for `key`.
    fn without(entries: &Vec<(String, String)>, key: &str) -> (r: Vec<(String, String)>)
        ensures
            entries_map(r@) == entries_map(entries@).remove(key@),
    {
        let mut out: Vec<(String, String)> = Vec::new();
        let mut i: usize = 0;
        while i < entries.len()
            invariant
                i <= entries.len(),
                entries_map(out@) == entries_map(entries@.take(i as int)).remove(key@),
            decreases entries.len() - i,
        {
            let ghost before = out@;
            let ghost prefix = entries@.take(i as int);
            assert(entries@.take(i + 1).drop_last() =~= prefix);
            if entries[i].0 != String::from_str(key) {
                let k = entries[i].0.clone();
                let v = entries[i].1.clone();
                out.push((k, v));
                assert(out@.drop_last() =~= before);
                assert(entries_map(out@) =~= entries_map(entries@.take(i + 1)).remove(key@));
            } else {
                assert(entries_map(out@) =~= entries_map(entries@.take(i + 1)).remove(key@));
            }
            i = i + 1;
        }
        assert(entries@.take(entries.len() as int) =~= entries@);
        out
    }
}

impl CredentialStore for MemoryStore {
    /// The value stored for `key`, or `None`.
    fn get(&self, key: &str) -> (r: Result<Option<String>, StoreError>)
        ensures
            r matches Ok(o) && match o {
                Some(v) => self.contents().contains_key(key@) && v@ == self.contents()[key@],
                None => !self.contents().contains_key(key@),
            },
    {
        let k = String::from_str(key);
        let mut i = self.entries.len();
        while i > 0
            invariant
                i <= self.entries.len(),
                k@ == key@,
                forall|j: int| i <= j < self.entries@.len() ==> self.entries@[j].0@ != key@,
            decreases i,
        {
            if self.entries[i - 1].0 == k {
                proof {
                    lemma_entries_map_tail(self.entries@, i as int, key@);
                    let t = self.entries@.take(i as int);
                    assert(t.last() == self.entries@[i - 1]);
                }
                return Ok(Some(self.entries[i - 1].1.clone()));
            }
            i = i - 1;
        }
        proof {
            lemma_entries_map_tail(self.entries@, 0, key@);
            assert(entries_map(self.entries@.take(0)) == Map::<Seq<char>, Seq<char>>::empty());
        }
        Ok(None)
    }

    /// Store `value` under `key`, replacing any earlier value.
    fn set(&mut self, key: &str, value: &str) -> (r: Result<(), StoreError>)
        ensures
            r is Ok,
            final(self).contents() == old(self).contents().insert(key@, value@),
    {
        let mut e = Self::without(&self.entries, key);
        let ghost before = e@;
        e.push((String::from_str(key), String::from_str(value)));
        assert(e@.drop_last() =~= before);
        assert(entries_map(e@) =~= entries_map(self.entries@).insert(key@, value@));
        self.entries = e;
        Ok(())
    }

    /// Remove `key`; removing a key that is not there succeeds.
    fn delete(&mut self, key: &str) -> (r: Result<(), StoreError>)
        ensures
            r is Ok,
            final(self).contents() == old(self).contents().remove(key@),
    {
        self.entries = Self::without(&self.entries, key);
        Ok(())
    }
}

/// After `set(k, v)`, `get(k)` gives back `v`; every other key keeps its value,
/// and after `delete(k)` the key is gone while every other key keeps its value;
/// deleting a missing key, or deleting twice, changes nothing.
pub proof fn memory_store_read_after_write(
    before: Map<Seq<char>, Seq<char>>,
    k: Seq<char>,
    v: Seq<char>,
    other: Seq<char>,
)
    requires
        other != k,
    ensures
        before.insert(k, v).contains_key(k) && before.insert(k, v)[k] == v,
        before.insert(k, v).contains_key(other) == before.contains_key(other),
        before.contains_key(other) ==> before.insert(k, v)[other] == before[other],
        !before.remove(k).contains_key(k),
        before.remove(k).contains_key(other) == before.contains_key(other),
        before.contains_key(other) ==> before.remove(k)[other] == before[other],
        !before.contains_key(k) ==> before.remove(k) == before,
        before.remove(k).remove(k) == before.remove(k),
{
    if !before.contains_key(k) {
        assert(before.remove(k) =~= before);
    }
    assert(before.remove(k).remove(k) =~= before.remove(k));
}

/// The credential store of the platform: the macOS Keychain where that backend
/// is available, otherwise a store that reports every call as `Unavailable`.
pub enum DefaultStore {
    Keychain(KeychainStore),
    Unsupported(UnsupportedStore),
}

/// The platform-default credential store. Whether the keychain backend exists
/// on this platform is decided by the caller.
pub fn default_store(keychain_available: bool) -> (r: DefaultStore)
    ensures
        keychain_available ==> (r matches DefaultStore::Keychain(k) && k.service()
            == KEYCHAIN_SERVICE@),
        !keychain_available ==> r is Unsupported,
{
    if keychain_available {
        DefaultStore::Keychain(KeychainStore::new(KEYCHAIN_SERVICE))
    } else {
        DefaultStore::Unsupported(UnsupportedStore)
    }
}

impl CredentialStore for DefaultStore {
    fn get(&self, key: &str) -> (r: Result<Option<String>, StoreError>)
        ensures
            self is Unsupported ==> (r matches Err(StoreError::Unavailable(m)) && m@
                == unsupported_text()),
            self is Keychain ==> (r matches Err(e) ==> classified_by_text(e)),
    {
        match self {
            DefaultStore::Keychain(k) => k.get(key),
            DefaultStore::Unsupported(u) => u.get(key),
        }
    }

    fn set(&mut self, key: &str, value: &str) -> (r: Result<(), StoreError>)
        ensures
            *final(self) == *old(self),
            *old(self) is Unsupported ==> (r matches Err(StoreError::Unavailable(m)) && m@
                == unsupported_text()),
            *old(self) is Keychain ==> (r matches Err(e) ==> classified_by_text(e)),
    {
        match self {
            DefaultStore::Keychain(k) => k.set(key, value),
            DefaultStore::Unsupported(u) => u.set(key, value),
        }
    }

    fn delete(&mut self, key: &str) -> (r: Result<(), StoreError>)
        ensures
            *final(self) == *old(self),
            *old(self) is Unsupported ==> (r matches Err(StoreError::Unavailable(m)) && m@
                == unsupported_text()),
            *old(self) is Keychain ==> (r matches Err(e) ==> classified_by_text(e)),
    {
        match self {
            DefaultStore::Keychain(k) => k.delete(key),
            DefaultStore::Unsupported(u) => u.delete(key),
        }
    }
}

} // verus!
