//! Where secrets are kept: the interface of a store, and a store in memory.

use crate::auth::error::AuthError;
use crate::auth::key::{CredentialDomain, CredentialKey};
use crate::auth::keyed::KeyedEntries;
use crate::auth::secret::CredentialSecret;
use vstd::prelude::*;

verus! {

/// What a map of secrets holds under `key`, if anything.
pub open spec fn secret_under(
    secrets: Map<(CredentialDomain, Seq<char>), CredentialSecret>,
    key: (CredentialDomain, Seq<char>),
) -> Option<CredentialSecret> {
    if secrets.contains_key(key) {
        Some(secrets[key])
    } else {
        None
    }
}

/// A place that keeps one secret per credential key.
///
/// A store that is itself the whole of what it keeps says so by `contents`,
/// and then its methods never fail and do to the contents what their names
/// say. A store that hands each call on to a facility outside the program
/// has no contents to speak of, and each of its calls may give any answer.
pub trait CredentialStore {
    /// The secrets that the store holds, by key, or `None` where they lie
    /// outside the program.
    spec fn contents(&self) -> Option<Map<(CredentialDomain, Seq<char>), CredentialSecret>>;

    /// Keeps `secret` under `key`, in place of what was there.
    fn save(&mut self, key: &CredentialKey, secret: &CredentialSecret) -> (r: Result<
        (),
        AuthError,
    >)
        ensures
            old(self).contents() is None ==> final(self).contents() is None,
            old(self).contents() matches Some(before) ==> r is Ok && final(self).contents()
                == Some(before.insert(key@, *secret)),
    ;

    /// The secret kept under `key`, if there is one.
    fn get(&self, key: &CredentialKey) -> (r: Result<Option<CredentialSecret>, AuthError>)
        ensures
            self.contents() matches Some(secrets) ==> r matches Ok(found) && found
                == secret_under(secrets, key@),
    ;

    /// Forgets the secret kept under `key`. Forgetting what is not there is
    /// no error.
    fn delete(&mut self, key: &CredentialKey) -> (r: Result<(), AuthError>)
        ensures
            old(self).contents() is None ==> final(self).contents() is None,
            old(self).contents() matches Some(before) ==> r is Ok && final(self).contents()
                == Some(before.remove(key@)),
    ;
}

/// A store that keeps its secrets in memory and nowhere else.
pub struct MemoryCredentialStore {
    secrets: KeyedEntries<CredentialSecret>,
}

impl View for MemoryCredentialStore {
    type V = Map<(CredentialDomain, Seq<char>), CredentialSecret>;

    closed spec fn view(&self) -> Map<(CredentialDomain, Seq<char>), CredentialSecret> {
        self.secrets@
    }
}

impl MemoryCredentialStore {
    /// The store that holds nothing.
    pub fn new() -> (r: Self)
        ensures
            r@ == Map::<(CredentialDomain, Seq<char>), CredentialSecret>::empty(),
            r.contents() == Some(r@),
    {
        MemoryCredentialStore { secrets: KeyedEntries::new() }
    }
}

impl CredentialStore for MemoryCredentialStore {
    open spec fn contents(&self) -> Option<Map<(CredentialDomain, Seq<char>), CredentialSecret>> {
        Some(self@)
    }

    fn save(&mut self, key: &CredentialKey, secret: &CredentialSecret) -> (r: Result<
        (),
        AuthError,
    >)
        ensures
            r is Ok,
            final(self)@ == old(self)@.insert(key@, *secret),
    {
        self.secrets.put(key.clone(), secret.clone());
        Ok(())
    }

    fn get(&self, key: &CredentialKey) -> (r: Result<Option<CredentialSecret>, AuthError>)
        ensures
            r == Ok::<Option<CredentialSecret>, AuthError>(secret_under(self@, key@)),
    {
        match self.secrets.find(key) {
            Some(secret) => Ok(Some(secret.clone())),
            None => Ok(None),
        }
    }

    fn delete(&mut self, key: &CredentialKey) -> (r: Result<(), AuthError>)
        ensures
            r is Ok,
            final(self)@ == old(self)@.remove(key@),
    {
        self.secrets.discard(key);
        Ok(())
    }
}

/// What a store that holds `secrets` answers when it is asked for `key`
/// after `saved` was kept under `key`: that secret.
pub proof fn lemma_get_after_save(
    secrets: Map<(CredentialDomain, Seq<char>), CredentialSecret>,
    key: (CredentialDomain, Seq<char>),
    saved: CredentialSecret,
)
    ensures
        secret_under(secrets.insert(key, saved), key) == Some(saved),
        forall|other: (CredentialDomain, Seq<char>)|
            other != key ==> #[trigger] secret_under(secrets.insert(key, saved), other)
                == secret_under(secrets, other),
{
}

/// After the secret under `key` was forgotten, a store answers that nothing
/// is there, whether or not something was; the other keys keep what they
/// had, and forgetting a key that has nothing changes nothing.
pub proof fn lemma_get_after_delete(
    secrets: Map<(CredentialDomain, Seq<char>), CredentialSecret>,
    key: (CredentialDomain, Seq<char>),
)
    ensures
        secret_under(secrets.remove(key), key) is None,
        forall|other: (CredentialDomain, Seq<char>)|
            other != key ==> #[trigger] secret_under(secrets.remove(key), other) == secret_under(
                secrets,
                other,
            ),
        !secrets.contains_key(key) ==> secrets.remove(key) == secrets,
{
}

} // verus!
