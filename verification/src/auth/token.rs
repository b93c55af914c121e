//! Bearer tokens that are kept in memory for a while.
//!
//! Times are whole milliseconds since the Unix epoch.

use crate::auth::key::{CredentialDomain, CredentialKey};
use crate::auth::keyed::KeyedEntries;
use crate::clock::now_millis;
use vstd::prelude::*;

verus! {

/// A bearer token and, where it has one, the time at which it stops being
/// valid.
#[derive(Debug, PartialEq, Eq)]
pub struct CachedToken {
    pub value: String,
    pub expires_at: Option<u64>,
}

impl Clone for CachedToken {
    fn clone(&self) -> (r: Self)
        ensures
            r == *self,
    {
        CachedToken { value: self.value.clone(), expires_at: self.expires_at }
    }
}

/// The time at which a token issued at `now` for `ttl` milliseconds expires;
/// a time past what 64 bits hold counts as the largest one.
pub open spec fn expiry_of(now: u64, ttl: Option<u64>) -> Option<u64> {
    match ttl {
        Some(t) => Some(
            if now + t > u64::MAX {
                u64::MAX
            } else {
                (now + t) as u64
            },
        ),
        None => None,
    }
}

impl CachedToken {
    /// Whether the token is valid at the time `now`: it has no expiry, or
    /// `now` is before it.
    pub open spec fn valid_at(self, now: u64) -> bool {
        match self.expires_at {
            Some(expiry) => now < expiry,
            None => true,
        }
    }

    /// The token `value`, issued at the time `now` for `ttl_millis`
    /// milliseconds, or for good where no lifetime is given.
    pub fn issued_at(value: &str, ttl_millis: Option<u64>, now: u64) -> (r: Self)
        ensures
            r.value@ == value@,
            r.expires_at == expiry_of(now, ttl_millis),
    {
        let expires_at = match ttl_millis {
            Some(ttl) => Some(
                if ttl > u64::MAX - now {
                    u64::MAX
                } else {
                    now + ttl
                },
            ),
            None => None,
        };
        CachedToken { value: value.to_owned(), expires_at }
    }

    /// The token `value`, issued now. Its expiry lies `ttl_millis` after the
    /// clock's reading, whatever that is.
    pub fn new(value: &str, ttl_millis: Option<u64>) -> (r: Self)
        ensures
            r.value@ == value@,
            ttl_millis is None ==> r.expires_at is None,
            ttl_millis matches Some(ttl) ==> r.expires_at is Some && r.expires_at->0 >= ttl,
            exists|now: u64| r.expires_at == expiry_of(now, ttl_millis),
    {
        let now = now_millis();
        Self::issued_at(value, ttl_millis, now)
    }

    /// Whether the token is valid at the time `now`.
    pub fn is_valid_at(&self, now: u64) -> (r: bool)
        ensures
            r == self.valid_at(now),
    {
        match self.expires_at {
            Some(expiry) => now < expiry,
            None => true,
        }
    }

    /// Whether the token is valid now. One without an expiry always is.
    pub fn is_valid(&self) -> (r: bool)
        ensures
            self.expires_at is None ==> r,
            exists|now: u64| r == self.valid_at(now),
    {
        let now = now_millis();
        let r = self.is_valid_at(now);
        r
    }
}

/// What a look into the map `tokens` under `key` gives at the time `now`: the
/// value of the token there, if one is there and valid.
pub open spec fn lookup_at(
    tokens: Map<(CredentialDomain, Seq<char>), CachedToken>,
    key: (CredentialDomain, Seq<char>),
    now: u64,
) -> Option<String> {
    if tokens.contains_key(key) && tokens[key].valid_at(now) {
        Some(tokens[key].value)
    } else {
        None
    }
}

/// What is left of the map `tokens` after a look under `key` at the time
/// `now`: all of it after a hit, and all but `key` after a miss.
pub open spec fn after_lookup(
    tokens: Map<(CredentialDomain, Seq<char>), CachedToken>,
    key: (CredentialDomain, Seq<char>),
    now: u64,
) -> Map<(CredentialDomain, Seq<char>), CachedToken> {
    if tokens.contains_key(key) && tokens[key].valid_at(now) {
        tokens
    } else {
        tokens.remove(key)
    }
}

/// The tokens in memory, one per credential key. Its view is the map from
/// keys to tokens. A token that has expired stays until someone looks for
/// it; the look that finds it expired takes it out.
pub struct TokenCache {
    tokens: KeyedEntries<CachedToken>,
}

impl View for TokenCache {
    type V = Map<(CredentialDomain, Seq<char>), CachedToken>;

    closed spec fn view(&self) -> Map<(CredentialDomain, Seq<char>), CachedToken> {
        self.tokens@
    }
}

impl Default for TokenCache {
    fn default() -> (r: Self)
        ensures
            r@ == Map::<(CredentialDomain, Seq<char>), CachedToken>::empty(),
    {
        TokenCache { tokens: KeyedEntries::new() }
    }
}

impl TokenCache {
    /// Puts `token` under `key`, in place of any token that was there.
    pub fn insert(&mut self, key: CredentialKey, token: CachedToken)
        ensures
            final(self)@ == old(self)@.insert(key@, token),
    {
        self.tokens.put(key, token);
    }

    /// Looks for a valid token under `key` at the time `now`. A token found
    /// expired is taken out.
    pub fn get_at(&mut self, key: &CredentialKey, now: u64) -> (r: Option<String>)
        ensures
            r == lookup_at(old(self)@, key@, now),
            final(self)@ == after_lookup(old(self)@, key@, now),
    {
        let hit = match self.tokens.find(key) {
            Some(token) => {
                if token.is_valid_at(now) {
                    Some(token.value.clone())
                } else {
                    None
                }
            },
            None => None,
        };
        if hit.is_none() {
            self.tokens.discard(key);
        }
        hit
    }

    /// Looks for a valid token under `key` now: `get_at` at the clock's
    /// reading, whatever that is. A key without a token gives none; a token
    /// without an expiry is always found.
    pub fn get(&mut self, key: &CredentialKey) -> (r: Option<String>)
        ensures
            exists|now: u64|
                r == lookup_at(old(self)@, key@, now) && final(self)@ == after_lookup(
                    old(self)@,
                    key@,
                    now,
                ),
            !old(self)@.contains_key(key@) ==> r is None,
            old(self)@.contains_key(key@) && old(self)@[key@].expires_at is None ==> r == Some(
                old(self)@[key@].value,
            ) && final(self)@ == old(self)@,
    {
        let now = now_millis();
        let r = self.get_at(key, now);
        r
    }

    /// Takes every token out.
    pub fn clear(&mut self)
        ensures
            final(self)@ == Map::<(CredentialDomain, Seq<char>), CachedToken>::empty(),
    {
        self.tokens.clear();
    }
}

/// A token put in is found under its key for as long as it is valid, and the
/// look leaves the cache as it is.
pub proof fn lemma_valid_token_is_found(
    tokens: Map<(CredentialDomain, Seq<char>), CachedToken>,
    key: (CredentialDomain, Seq<char>),
    token: CachedToken,
    now: u64,
)
    requires
        token.valid_at(now),
    ensures
        lookup_at(tokens.insert(key, token), key, now) == Some(token.value),
        after_lookup(tokens.insert(key, token), key, now) == tokens.insert(key, token),
{
}

/// A token put in with an expiry that has passed is not found again: the
/// look under its key gives nothing and takes the entry out, and what is
/// filed under every other key stays as it was.
pub proof fn lemma_expired_token_is_evicted(
    tokens: Map<(CredentialDomain, Seq<char>), CachedToken>,
    key: (CredentialDomain, Seq<char>),
    token: CachedToken,
    now: u64,
)
    requires
        token.expires_at matches Some(expiry) && expiry <= now,
    ensures
        lookup_at(tokens.insert(key, token), key, now) is None,
        after_lookup(tokens.insert(key, token), key, now) == tokens.remove(key),
        forall|other: (CredentialDomain, Seq<char>)|
            other != key ==> (#[trigger] after_lookup(
                tokens.insert(key, token),
                key,
                now,
            ).contains_key(other) <==> tokens.contains_key(other)),
        forall|other: (CredentialDomain, Seq<char>)|
            other != key && tokens.contains_key(other) ==> #[trigger] after_lookup(
                tokens.insert(key, token),
                key,
                now,
            )[other] == tokens[other],
{
}

/// A look under one key leaves every other key as it was, and a token put in
/// afterwards under another key is there to be found while it is valid.
pub proof fn lemma_lookup_leaves_others(
    tokens: Map<(CredentialDomain, Seq<char>), CachedToken>,
    key: (CredentialDomain, Seq<char>),
    other: (CredentialDomain, Seq<char>),
    token: CachedToken,
    now: u64,
    later: u64,
)
    requires
        other != key,
        token.valid_at(later),
    ensures
        lookup_at(after_lookup(tokens, key, now), other, later) == lookup_at(tokens, other, later),
        lookup_at(after_lookup(tokens, key, now).insert(other, token), other, later) == Some(
            token.value,
        ),
{
}

/// A session that the out-of-band service opened, with the token that stands
/// for it.
#[derive(Debug)]
pub struct RedfishSession {
    pub session_id: String,
    pub auth_token: String,
    pub expires_at: Option<u64>,
}

impl Clone for RedfishSession {
    fn clone(&self) -> (r: Self)
        ensures
            r == *self,
    {
        RedfishSession {
            session_id: self.session_id.clone(),
            auth_token: self.auth_token.clone(),
            expires_at: self.expires_at,
        }
    }
}

impl RedfishSession {
    /// Whether the session is over at the time `now`: it has an expiry and
    /// `now` has reached it.
    pub open spec fn expired_at(self, now: u64) -> bool {
        match self.expires_at {
            Some(expiry) => now >= expiry,
            None => false,
        }
    }

    /// Whether the session is over at the time `now`.
    pub fn is_expired_at(&self, now: u64) -> (r: bool)
        ensures
            r == self.expired_at(now),
    {
        match self.expires_at {
            Some(expiry) => now >= expiry,
            None => false,
        }
    }

    /// Whether the session is over now. One without an expiry never is.
    pub fn is_expired(&self) -> (r: bool)
        ensures
            self.expires_at is None ==> !r,
            exists|now: u64| r == self.expired_at(now),
    {
        let now = now_millis();
        let r = self.is_expired_at(now);
        r
    }

    /// The session's token as one to cache, with the session's expiry. It is
    /// valid exactly as long as the session is not over.
    pub fn into_cached_token(self) -> (r: CachedToken)
        ensures
            r == (CachedToken { value: self.auth_token, expires_at: self.expires_at }),
            forall|now: u64| r.valid_at(now) == !self.expired_at(now),
    {
        CachedToken { value: self.auth_token, expires_at: self.expires_at }
    }
}

} // verus!
