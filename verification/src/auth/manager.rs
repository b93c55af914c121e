//! The one authority on whether a domain has credentials and on what a
//! request to it carries.

use crate::api::http::AuthContext;
use crate::auth::error::AuthError;
use crate::auth::key::{key_label_text, CredentialDomain, CredentialKey};
use crate::auth::keyring_store::KeyringCredentialStore;
use crate::auth::secret::CredentialSecret;
use crate::auth::store::{secret_under, CredentialStore};
use crate::auth::token::{after_lookup, lookup_at, CachedToken, TokenCache};
use crate::clock::now_millis;
use vstd::prelude::*;

verus! {

/// What a request carries, given what the token cache gave for its key and
/// what the store answered: the cached token as a bearer token where there
/// is one; else what the stored secret gives; nothing where there is
/// neither; the store's error where it failed.
pub open spec fn resolve_spec(
    cached: Option<String>,
    answer: Result<Option<CredentialSecret>, AuthError>,
) -> Result<Option<AuthContext>, AuthError> {
    match cached {
        Some(token) => Ok(Some(AuthContext { bearer_token: Some(token), basic: None })),
        None => match answer {
            Ok(Some(secret)) => Ok(Some(secret.auth_context_spec())),
            Ok(None) => Ok(None),
            Err(e) => Err(e),
        },
    }
}

/// What a request carries, given a store's answer and no cached token.
pub fn context_from_answer(answer: Result<Option<CredentialSecret>, AuthError>) -> (r: Result<
    Option<AuthContext>,
    AuthError,
>)
    ensures
        r == resolve_spec(None, answer),
        r matches Ok(Some(context)) ==> context.is_set(),
{
    match answer {
        Ok(Some(secret)) => Ok(Some(secret.as_auth_context())),
        Ok(None) => Ok(None),
        Err(e) => Err(e),
    }
}

/// Whether a store's answer shows a secret.
pub fn presence_from_answer(answer: Result<Option<CredentialSecret>, AuthError>) -> (r: Result<
    bool,
    AuthError,
>)
    ensures
        match answer {
            Ok(found) => r == Ok::<bool, AuthError>(found is Some),
            Err(e) => r == Err::<bool, AuthError>(e),
        },
{
    match answer {
        Ok(found) => Ok(found.is_some()),
        Err(e) => Err(e),
    }
}

/// A cached token wins over whatever the store holds or answers.
pub proof fn lemma_cached_token_wins(
    token: String,
    answer: Result<Option<CredentialSecret>, AuthError>,
)
    ensures
        resolve_spec(Some(token), answer) == Ok::<Option<AuthContext>, AuthError>(
            Some(AuthContext { bearer_token: Some(token), basic: None }),
        ),
{
}

/// Without a cached token, a secret with an API token gives that token as a
/// bearer token and no user name; a secret without one gives its user name
/// and password and no bearer token.
pub proof fn lemma_secret_decides_scheme(secret: CredentialSecret)
    ensures
        resolve_spec(None, Ok(Some(secret))) matches Ok(Some(context)) && match secret.api_token {
            Some(token) => context.bearer_token == Some(token) && context.basic is None,
            None => context.bearer_token is None && context.basic == Some(
                (secret.username, secret.password),
            ),
        },
{
}

/// Whether `r` and the cache `after` are what resolving `key` at the time
/// `now` makes of the cache `before` and of what the store holds: the look
/// into the cache leaves `after`; a token found valid is the bearer token
/// of the result; without one, the secret that a store holds under the key
/// decides, where the store is itself the whole of what it keeps.
pub open spec fn resolution_at(
    before: Map<(CredentialDomain, Seq<char>), CachedToken>,
    stored: Option<Map<(CredentialDomain, Seq<char>), CredentialSecret>>,
    key: (CredentialDomain, Seq<char>),
    now: u64,
    after: Map<(CredentialDomain, Seq<char>), CachedToken>,
    r: Result<Option<AuthContext>, AuthError>,
) -> bool {
    &&& after == after_lookup(before, key, now)
    &&& match lookup_at(before, key, now) {
        Some(token) => r == resolve_spec(Some(token), Ok(None)),
        None => stored is Some ==> r == resolve_spec(None, Ok(secret_under(stored->0, key))),
    }
}

/// A store of secrets with a cache of tokens in front of it.
pub struct CredentialManager<S: CredentialStore> {
    store: S,
    token_cache: TokenCache,
    interactive: bool,
}

impl<S: CredentialStore> CredentialManager<S> {
    /// What the manager's store holds, or `None` where that lies outside the
    /// program.
    pub closed spec fn stored(&self) -> Option<
        Map<(CredentialDomain, Seq<char>), CredentialSecret>,
    > {
        self.store.contents()
    }

    /// The tokens in the manager's cache.
    pub closed spec fn tokens(&self) -> Map<(CredentialDomain, Seq<char>), CachedToken> {
        self.token_cache@
    }

    /// Whether the manager may ask the operator for a missing secret.
    pub closed spec fn interactive(&self) -> bool {
        self.interactive
    }

    /// A manager over `store`, with an empty cache, that may ask the
    /// operator.
    pub fn new(store: S) -> (r: Self)
        ensures
            r.stored() == store.contents(),
            r.tokens() == Map::<(CredentialDomain, Seq<char>), CachedToken>::empty(),
            r.interactive(),
    {
        CredentialManager { store, token_cache: TokenCache::default(), interactive: true }
    }

    /// The same manager, with asking the operator switched on or off.
    pub fn with_interactive(self, interactive: bool) -> (r: Self)
        ensures
            r.stored() == self.stored(),
            r.tokens() == self.tokens(),
            r.interactive() == interactive,
    {
        let mut out = self;
        out.interactive = interactive;
        out
    }

    /// The secret of `key`: the stored one where there is one; else, where
    /// asking is switched on, the one that `prompt` gives, which is then
    /// stored; else an error that names the key. `prompt` is called only in
    /// the second case, and once.
    pub fn ensure_credentials<F>(&mut self, key: &CredentialKey, prompt: F) -> (r: Result<
        CredentialSecret,
        AuthError,
    >) where F: FnOnce(&CredentialKey) -> Result<CredentialSecret, AuthError>
        requires
            call_requires(prompt, (key,)),
        ensures
            final(self).tokens() == old(self).tokens(),
            final(self).interactive() == old(self).interactive(),
            old(self).stored() is None ==> final(self).stored() is None,
            old(self).stored() matches Some(before) ==> match secret_under(before, key@) {
                Some(secret) => r == Ok::<CredentialSecret, AuthError>(secret)
                    && final(self).stored() == Some(before),
                None => if old(self).interactive() {
                    match r {
                        Ok(secret) => call_ensures(
                            prompt,
                            (key,),
                            Ok::<CredentialSecret, AuthError>(secret),
                        ) && final(self).stored() == Some(before.insert(key@, secret)),
                        Err(e) => call_ensures(
                            prompt,
                            (key,),
                            Err::<CredentialSecret, AuthError>(e),
                        ) && final(self).stored() == Some(before),
                    }
                } else {
                    r matches Err(AuthError::InteractiveDisabled(label)) && label@
                        == key_label_text(key@) && final(self).stored() == Some(before)
                },
            },
    {
        match self.store.get(key) {
            Ok(Some(secret)) => { return Ok(secret); },
            Ok(None) => {},
            Err(e) => { return Err(e); },
        }
        if !self.interactive {
            return Err(AuthError::InteractiveDisabled(key.to_string()));
        }
        let secret = match prompt(key) {
            Ok(secret) => secret,
            Err(e) => { return Err(e); },
        };
        match self.store.save(key, &secret) {
            Ok(()) => Ok(secret),
            Err(e) => Err(e),
        }
    }

    /// The stored secret of `key`, if there is one.
    pub fn get_credentials(&self, key: &CredentialKey) -> (r: Result<
        Option<CredentialSecret>,
        AuthError,
    >)
        ensures
            self.stored() matches Some(secrets) ==> r == Ok::<
                Option<CredentialSecret>,
                AuthError,
            >(secret_under(secrets, key@)),
    {
        self.store.get(key)
    }

    /// Stores `secret` under `key`.
    pub fn set_credentials(&mut self, key: &CredentialKey, secret: &CredentialSecret) -> (r:
        Result<(), AuthError>)
        ensures
            final(self).tokens() == old(self).tokens(),
            final(self).interactive() == old(self).interactive(),
            old(self).stored() is None ==> final(self).stored() is None,
            old(self).stored() matches Some(before) ==> r is Ok && final(self).stored() == Some(
                before.insert(key@, *secret),
            ),
    {
        self.store.save(key, secret)
    }

    /// Forgets the stored secret of `key`; no error where there is none.
    pub fn delete_credentials(&mut self, key: &CredentialKey) -> (r: Result<(), AuthError>)
        ensures
            final(self).tokens() == old(self).tokens(),
            final(self).interactive() == old(self).interactive(),
            old(self).stored() is None ==> final(self).stored() is None,
            old(self).stored() matches Some(before) ==> r is Ok && final(self).stored() == Some(
                before.remove(key@),
            ),
    {
        self.store.delete(key)
    }

    /// Puts `token` into the cache under `key`.
    pub fn cache_token(&mut self, key: CredentialKey, token: CachedToken)
        ensures
            final(self).tokens() == old(self).tokens().insert(key@, token),
            final(self).stored() == old(self).stored(),
            final(self).interactive() == old(self).interactive(),
    {
        self.token_cache.insert(key, token);
    }

    /// The cached token of `key` that is valid at the time `now`, if there
    /// is one. A token found expired leaves the cache.
    pub fn cached_token_at(&mut self, key: &CredentialKey, now: u64) -> (r: Option<String>)
        ensures
            r == lookup_at(old(self).tokens(), key@, now),
            final(self).tokens() == after_lookup(old(self).tokens(), key@, now),
            final(self).stored() == old(self).stored(),
            final(self).interactive() == old(self).interactive(),
    {
        self.token_cache.get_at(key, now)
    }

    /// The cached token of `key` that is valid now, if there is one:
    /// `cached_token_at` at the clock's reading, whatever that is.
    pub fn cached_token(&mut self, key: &CredentialKey) -> (r: Option<String>)
        ensures
            exists|now: u64|
                r == lookup_at(old(self).tokens(), key@, now) && final(self).tokens()
                    == after_lookup(old(self).tokens(), key@, now),
            final(self).stored() == old(self).stored(),
            final(self).interactive() == old(self).interactive(),
    {
        let now = now_millis();
        let r = self.cached_token_at(key, now);
        r
    }

    /// Empties the cache.
    pub fn clear_cache(&mut self)
        ensures
            final(self).tokens() == Map::<(CredentialDomain, Seq<char>), CachedToken>::empty(),
            final(self).stored() == old(self).stored(),
            final(self).interactive() == old(self).interactive(),
    {
        self.token_cache.clear();
    }

    /// Whether a secret is stored under `key`.
    pub fn has_credentials(&self, key: &CredentialKey) -> (r: Result<bool, AuthError>)
        ensures
            self.stored() matches Some(secrets) ==> r == Ok::<bool, AuthError>(
                secrets.contains_key(key@),
            ),
    {
        presence_from_answer(self.store.get(key))
    }

    /// What a request to the domain of `key` carries at the time `now`: the
    /// cached token where one is valid, else what the stored secret gives,
    /// else nothing. The operator is never asked. Only the cache can change:
    /// a token found expired leaves it.
    pub fn auth_context_at(&mut self, key: &CredentialKey, now: u64) -> (r: Result<
        Option<AuthContext>,
        AuthError,
    >)
        ensures
            final(self).tokens() == after_lookup(old(self).tokens(), key@, now),
            final(self).stored() == old(self).stored(),
            final(self).interactive() == old(self).interactive(),
            lookup_at(old(self).tokens(), key@, now) matches Some(token) ==> r == resolve_spec(
                Some(token),
                Ok(None),
            ),
            lookup_at(old(self).tokens(), key@, now) is None ==> (old(self).stored() matches Some(
                secrets,
            ) ==> r == resolve_spec(None, Ok(secret_under(secrets, key@)))),
            r matches Ok(Some(context)) ==> context.is_set(),
    {
        match self.token_cache.get_at(key, now) {
            Some(token) => Ok(Some(AuthContext::bearer(token))),
            None => context_from_answer(self.store.get(key)),
        }
    }

    /// What a request to the domain of `key` carries now: `auth_context_at`
    /// at the clock's reading, whatever that is. A cached token without an
    /// expiry always wins; without a cached token the stored secret decides.
    pub fn auth_context(&mut self, key: &CredentialKey) -> (r: Result<
        Option<AuthContext>,
        AuthError,
    >)
        ensures
            exists|now: u64|
                resolution_at(
                    old(self).tokens(),
                    old(self).stored(),
                    key@,
                    now,
                    final(self).tokens(),
                    r,
                ),
            final(self).stored() == old(self).stored(),
            final(self).interactive() == old(self).interactive(),
            old(self).tokens().contains_key(key@) && old(self).tokens()[key@].expires_at is None
                ==> r == resolve_spec(Some(old(self).tokens()[key@].value), Ok(None)),
            !old(self).tokens().contains_key(key@) ==> (old(self).stored() matches Some(secrets)
                ==> r == resolve_spec(None, Ok(secret_under(secrets, key@)))),
            r matches Ok(Some(context)) ==> context.is_set(),
    {
        let now = now_millis();
        let r = self.auth_context_at(key, now);
        assert(resolution_at(
            old(self).tokens(),
            old(self).stored(),
            key@,
            now,
            self.tokens(),
            r,
        ));
        r
    }
}

impl CredentialManager<KeyringCredentialStore> {
    /// A manager over the platform's secure storage, under the service name
    /// `FabreXLens`.
    pub fn with_default_keyring() -> (r: Self)
        ensures
            r.stored() is None,
            r.tokens() == Map::<(CredentialDomain, Seq<char>), CachedToken>::empty(),
            r.interactive(),
    {
        Self::new(KeyringCredentialStore::new("FabreXLens"))
    }
}

} // verus!
