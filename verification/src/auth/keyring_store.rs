//! The store that keeps secrets in the platform's secure storage.

use crate::auth::codec::{payload_of_secret, secret_from_payload};
use crate::auth::codec::{json_members_of, secret_matches, secret_problem};
use crate::auth::error::AuthError;
use crate::auth::key::{CredentialDomain, CredentialKey};
use crate::auth::secret::CredentialSecret;
use crate::auth::store::CredentialStore;
use vstd::prelude::*;

verus! {

/// An entry of the `keyring` crate: the handle of one item in the platform's
/// storage. Carried through unopened.
#[verifier::external_type_specification]
#[verifier::external_body]
pub struct ExKeyringEntry(keyring::Entry);

/// What the platform's storage answered to a call on one entry.
#[derive(Debug)]
pub enum KeyringAnswer<T> {
    /// The call did its work.
    Done(T),
    /// The storage holds nothing for the entry.
    NoEntry,
    /// The storage refused or failed.
    Failed(keyring::Error),
}

/// `keyring::Entry::new`: the entry for a service and a user in the default
/// store. It fails where the platform finds the two names invalid. Nothing
/// is claimed of the outcome. The crate panics here only where its own lock
/// was poisoned by a panic in another thread.
#[verifier::external_body]
fn open_entry(service: &str, user: &str) -> (r: Result<keyring::Entry, keyring::Error>) {
    keyring::Entry::new(service, user)
}

/// `keyring::Entry::set_password`: asks the platform to keep `payload` for
/// the entry. Whether it does is the platform's to say.
#[verifier::external_body]
fn write_entry(entry: &keyring::Entry, payload: &str) -> (r: Result<(), keyring::Error>) {
    entry.set_password(payload)
}

/// `keyring::Entry::get_password`: asks the platform for what it keeps for
/// the entry. The crate's error `NoEntry` is told apart from its other
/// errors; which answer comes is the platform's to say.
#[verifier::external_body]
fn read_entry(entry: &keyring::Entry) -> (r: KeyringAnswer<String>) {
    match entry.get_password() {
        Ok(payload) => KeyringAnswer::Done(payload),
        Err(keyring::Error::NoEntry) => KeyringAnswer::NoEntry,
        Err(e) => KeyringAnswer::Failed(e),
    }
}

/// `keyring::Entry::delete_credential`: asks the platform to forget what it
/// keeps for the entry. The crate's error `NoEntry` is told apart from its
/// other errors; which answer comes is the platform's to say.
#[verifier::external_body]
fn erase_entry(entry: &keyring::Entry) -> (r: KeyringAnswer<()>) {
    match entry.delete_credential() {
        Ok(()) => KeyringAnswer::Done(()),
        Err(keyring::Error::NoEntry) => KeyringAnswer::NoEntry,
        Err(e) => KeyringAnswer::Failed(e),
    }
}

/// Whether the stored text `payload` holds the secret `secret`: it is a JSON
/// object whose members describe it.
pub open spec fn holds_secret(payload: Seq<char>, secret: CredentialSecret) -> bool {
    json_members_of(payload) matches Some(members) && secret_problem(members) is None
        && secret_matches(secret, members)
}

/// What a read of the platform's storage means for the caller: the secret
/// that the stored text holds, nothing where the storage has no entry, and
/// an error where the storage failed or the text holds no secret.
pub fn lookup_outcome(answer: KeyringAnswer<String>) -> (r: Result<
    Option<CredentialSecret>,
    AuthError,
>)
    ensures
        match answer {
            KeyringAnswer::Done(payload) => match r {
                Ok(found) => found matches Some(secret) && json_members_of(payload@) matches Some(
                    members,
                ) && secret_problem(members) is None && secret_matches(secret, members),
                Err(e) => e is Serialization && (json_members_of(payload@) matches Some(members)
                    ==> secret_problem(members) is Some),
            },
            KeyringAnswer::NoEntry => r matches Ok(None),
            KeyringAnswer::Failed(cause) => r matches Err(AuthError::Keyring(e)) && e == cause,
        },
{
    match answer {
        KeyringAnswer::Done(payload) => match secret_from_payload(payload.as_str()) {
            Ok(secret) => Ok(Some(secret)),
            Err(e) => Err(e),
        },
        KeyringAnswer::NoEntry => Ok(None),
        KeyringAnswer::Failed(cause) => Err(AuthError::Keyring(cause)),
    }
}

/// What an erasure in the platform's storage means for the caller: success
/// where the entry was erased and where there was none, an error where the
/// storage failed.
pub fn removal_outcome(answer: KeyringAnswer<()>) -> (r: Result<(), AuthError>)
    ensures
        match answer {
            KeyringAnswer::Done(_) => r is Ok,
            KeyringAnswer::NoEntry => r is Ok,
            KeyringAnswer::Failed(cause) => r matches Err(AuthError::Keyring(e)) && e == cause,
        },
{
    match answer {
        KeyringAnswer::Done(_) => Ok(()),
        KeyringAnswer::NoEntry => Ok(()),
        KeyringAnswer::Failed(cause) => Err(AuthError::Keyring(cause)),
    }
}

/// What opening an entry means for the caller: the entry, or the storage's
/// error as an error of the credentials.
pub fn entry_outcome(opened: Result<keyring::Entry, keyring::Error>) -> (r: Result<
    keyring::Entry,
    AuthError,
>)
    ensures
        match opened {
            Ok(entry) => r == Ok::<keyring::Entry, AuthError>(entry),
            Err(cause) => r matches Err(AuthError::Keyring(e)) && e == cause,
        },
{
    match opened {
        Ok(entry) => Ok(entry),
        Err(cause) => Err(AuthError::Keyring(cause)),
    }
}

/// What a write to the platform's storage means for the caller: success
/// where the storage kept the text, and its error as an error of the
/// credentials where it did not.
pub fn write_outcome(written: Result<(), keyring::Error>) -> (r: Result<(), AuthError>)
    ensures
        match written {
            Ok(_) => r is Ok,
            Err(cause) => r matches Err(AuthError::Keyring(e)) && e == cause,
        },
{
    match written {
        Ok(()) => Ok(()),
        Err(cause) => Err(AuthError::Keyring(cause)),
    }
}

/// The store that keeps each secret as one item of the platform's secure
/// storage, under a service name and the key's storage text.
pub struct KeyringCredentialStore {
    service_name: String,
}

impl KeyringCredentialStore {
    /// The service name that the store files its items under.
    pub closed spec fn service_text(&self) -> Seq<char> {
        self.service_name@
    }

    /// The store that files its items under `service_name`.
    pub fn new(service_name: &str) -> (r: Self)
        ensures
            r.service_text() == service_name@,
            r.contents() is None,
    {
        KeyringCredentialStore { service_name: service_name.to_owned() }
    }

    /// The service name that the store files its items under.
    pub fn service_name(&self) -> (r: &str)
        ensures
            r@ == self.service_text(),
    {
        self.service_name.as_str()
    }

    fn entry(&self, key: &CredentialKey) -> (r: Result<keyring::Entry, AuthError>)
        ensures
            r matches Err(e) ==> e is Keyring,
    {
        let user = key.storage_key();
        entry_outcome(open_entry(self.service_name.as_str(), user.as_str()))
    }
}

impl CredentialStore for KeyringCredentialStore {
    /// The secrets lie in the platform's storage, outside the program.
    open spec fn contents(&self) -> Option<Map<(CredentialDomain, Seq<char>), CredentialSecret>> {
        None
    }

    /// Writes the secret as text and asks the platform to keep it. The store
    /// itself does not change.
    fn save(&mut self, key: &CredentialKey, secret: &CredentialSecret) -> (r: Result<
        (),
        AuthError,
    >)
        ensures
            final(self).service_text() == old(self).service_text(),
            r matches Err(e) ==> e is Serialization || e is Keyring,
    {
        let payload = match payload_of_secret(secret) {
            Ok(text) => text,
            Err(e) => { return Err(e); },
        };
        let entry = match self.entry(key) {
            Ok(entry) => entry,
            Err(e) => { return Err(e); },
        };
        write_outcome(write_entry(&entry, payload.as_str()))
    }

    /// Asks the platform for the key's item and reads the secret from it. A
    /// secret that comes back is what some stored text holds.
    fn get(&self, key: &CredentialKey) -> (r: Result<Option<CredentialSecret>, AuthError>)
        ensures
            r matches Err(e) ==> e is Serialization || e is Keyring,
            r matches Ok(Some(secret)) ==> exists|payload: Seq<char>|
                holds_secret(payload, secret),
    {
        let entry = match self.entry(key) {
            Ok(entry) => entry,
            Err(e) => { return Err(e); },
        };
        let answer = read_entry(&entry);
        let ghost asked = answer;
        let r = lookup_outcome(answer);
        proof {
            if r is Ok && r->Ok_0 is Some {
                assert(holds_secret(asked->Done_0@, r->Ok_0->0));
            }
        }
        r
    }

    /// Asks the platform to forget the key's item. The store itself does not
    /// change.
    fn delete(&mut self, key: &CredentialKey) -> (r: Result<(), AuthError>)
        ensures
            final(self).service_text() == old(self).service_text(),
            r matches Err(e) ==> e is Keyring,
    {
        let entry = match self.entry(key) {
            Ok(entry) => entry,
            Err(e) => { return Err(e); },
        };
        removal_outcome(erase_entry(&entry))
    }
}

} // verus!
