//! What a refresh needs before its first request: for each backend service,
//! the authentication material and the address.

use crate::api::http::{url_text_of, ApiClientConfig, AuthContext, DEFAULT_TIMEOUT_SECS};
use crate::auth::error::AuthError;
use crate::auth::key::{CredentialDomain, CredentialKey};
use crate::auth::manager::{resolution_at, CredentialManager};
use crate::auth::secret::CredentialSecret;
use crate::auth::store::{secret_under, CredentialStore};
use crate::auth::token::{after_lookup, lookup_at, CachedToken};
use crate::config::AppConfig;
use crate::text::{join2, lemma_join_starts_with, lemma_prefixed_starts_with, starts_with};
use vstd::prelude::*;

verus! {

/// The message for a domain without credentials.
pub open spec fn missing_credentials_text(domain: CredentialDomain) -> Seq<char> {
    "Missing credentials for "@ + domain.name_text()
}

/// The words before the message of an error of `domain`'s credentials.
pub open spec fn credentials_failure_head(domain: CredentialDomain) -> Seq<char> {
    domain.name_text() + " credentials: "@
}

/// The words before the message of an error of `domain`'s address.
pub open spec fn address_failure_head(domain: CredentialDomain) -> Seq<char> {
    domain.name_text() + " base URL: "@
}

/// The authentication material for `domain`, given what the manager resolved
/// for it: the material itself; where the manager failed, the domain's name
/// and the error in its own words; and, where the manager found nothing, a
/// message that names the domain.
pub fn context_or_message(
    domain: CredentialDomain,
    resolved: Result<Option<AuthContext>, AuthError>,
) -> (r: Result<AuthContext, String>)
    ensures
        match resolved {
            Ok(Some(context)) => r == Ok::<AuthContext, String>(context),
            Ok(None) => r matches Err(message) && message@ == missing_credentials_text(domain),
            Err(e) => r matches Err(message) && starts_with(
                message@,
                credentials_failure_head(domain) + e.prefix(),
            ) && (e matches AuthError::InteractiveDisabled(key) ==> message@
                == credentials_failure_head(domain) + e.prefix() + key@),
        },
{
    match resolved {
        Ok(Some(context)) => Ok(context),
        Ok(None) => Err(join2("Missing credentials for ", domain.name())),
        Err(e) => {
            let cause = e.to_string();
            let head = join2(domain.name(), " credentials: ");
            proof {
                lemma_prefixed_starts_with(head@, cause@, e.prefix());
            }
            Err(join2(head.as_str(), cause.as_str()))
        },
    }
}

/// What a client of one backend service is made from.
#[derive(Debug)]
pub struct ClientSetup {
    pub auth: AuthContext,
    pub config: ApiClientConfig,
}

/// The settings, from which the clients of a refresh are set up.
#[derive(Debug)]
pub struct ServiceContext {
    config: AppConfig,
}

impl ServiceContext {
    /// The settings that the context was made with.
    pub closed spec fn settings(&self) -> AppConfig {
        self.config
    }

    /// The context for these settings.
    pub fn new(config: AppConfig) -> (r: Self)
        ensures
            r.settings() == config,
    {
        ServiceContext { config }
    }

    /// The base URL that the settings give for `domain`. The session service
    /// has none of its own and is reached at the fabric service's.
    pub open spec fn base_url_of(config: AppConfig, domain: CredentialDomain) -> String {
        match domain {
            CredentialDomain::FabreX => config.fabrex_base_url,
            CredentialDomain::Gryf => config.gryf_base_url,
            CredentialDomain::Supernode => config.supernode_base_url,
            CredentialDomain::Redfish => config.fabrex_base_url,
        }
    }

    /// The authentication material for requests to `domain`, under its
    /// default key, or the message of what stands in the way. The operator
    /// is never asked. It is what the manager resolves at the clock's
    /// reading, whatever that is: a cached token that is valid then; else
    /// what the stored secret gives; else the message that credentials are
    /// missing.
    pub fn auth_context<S: CredentialStore>(
        &self,
        manager: &mut CredentialManager<S>,
        domain: CredentialDomain,
    ) -> (r: Result<AuthContext, String>)
        ensures
            final(manager).stored() == old(manager).stored(),
            final(manager).interactive() == old(manager).interactive(),
            exists|now: u64|
                auth_at(
                    old(manager).tokens(),
                    old(manager).stored(),
                    domain,
                    now,
                    final(manager).tokens(),
                    r,
                ),
            r matches Ok(context) ==> context.is_set(),
            r matches Err(message) ==> message@ == missing_credentials_text(domain) || starts_with(
                message@,
                credentials_failure_head(domain),
            ),
            old(manager).tokens().contains_key((domain, "default"@)) && old(manager).tokens()[(
                domain,
                "default"@,
            )].expires_at is None ==> r == Ok::<AuthContext, String>(
                AuthContext {
                    bearer_token: Some(old(manager).tokens()[(domain, "default"@)].value),
                    basic: None,
                },
            ),
            !old(manager).tokens().contains_key((domain, "default"@)) ==> (old(
                manager,
            ).stored() matches Some(secrets) ==> match secret_under(secrets, (domain, "default"@)) {
                Some(secret) => r == Ok::<AuthContext, String>(secret.auth_context_spec()),
                None => r matches Err(message) && message@ == missing_credentials_text(domain),
            }),
    {
        let key = CredentialKey::default(domain);
        let resolved = manager.auth_context(&key);
        let ghost answer = resolved;
        let r = context_or_message(domain, resolved);
        proof {
            if answer is Err {
                let head = credentials_failure_head(domain);
                let long = head + answer->Err_0.prefix();
                let message = r->Err_0@;
                lemma_join_starts_with(head, answer->Err_0.prefix());
                assert(message.subrange(0, head.len() as int) =~= long.subrange(
                    0,
                    head.len() as int,
                ));
            }
            let now = choose|now: u64|
                resolution_at(
                    old(manager).tokens(),
                    old(manager).stored(),
                    (domain, "default"@),
                    now,
                    manager.tokens(),
                    answer,
                );
            assert(auth_at(
                old(manager).tokens(),
                old(manager).stored(),
                domain,
                now,
                manager.tokens(),
                r,
            ));
        }
        r
    }

    /// What the client of `domain` is made from: the authentication material
    /// first, then the address. The first of the two that fails ends it, with
    /// its message; where neither fails, the setup holds the material and the
    /// address in the form in which the `url` crate writes it, with the
    /// default timeout and client name.
    pub fn client_setup<S: CredentialStore>(
        &self,
        manager: &mut CredentialManager<S>,
        domain: CredentialDomain,
    ) -> (r: Result<ClientSetup, String>)
        ensures
            final(manager).stored() == old(manager).stored(),
            final(manager).interactive() == old(manager).interactive(),
            client_outcome(
                self.settings(),
                domain,
                old(manager).tokens(),
                old(manager).stored(),
                final(manager).tokens(),
                r,
            ),
            r matches Ok(setup) ==> setup.auth.is_set() && url_text_of(
                Self::base_url_of(self.settings(), domain)@,
            ) == Some(setup.config.base_url@) && setup.config.timeout_secs
                == DEFAULT_TIMEOUT_SECS,
            r matches Err(message) ==> message@ == missing_credentials_text(domain) || starts_with(
                message@,
                credentials_failure_head(domain),
            ) || (url_text_of(Self::base_url_of(self.settings(), domain)@) is None && starts_with(
                message@,
                address_failure_head(domain) + "invalid URL: "@,
            )),
            !old(manager).tokens().contains_key((domain, "default"@)) ==> (old(
                manager,
            ).stored() matches Some(secrets) ==> (!secrets.contains_key((domain, "default"@))
                ==> (r matches Err(message) && message@ == missing_credentials_text(domain)))),
    {
        let resolved = self.auth_context(manager, domain);
        let ghost found = resolved;
        let ghost now = choose|now: u64|
            auth_at(
                old(manager).tokens(),
                old(manager).stored(),
                domain,
                now,
                manager.tokens(),
                found,
            );
        let auth = match resolved {
            Ok(auth) => auth,
            Err(message) => {
                let r = Err(message);
                assert(client_outcome_at(
                    self.settings(),
                    domain,
                    old(manager).tokens(),
                    old(manager).stored(),
                    manager.tokens(),
                    r,
                    now,
                    found,
                ));
                return r;
            },
        };
        let base_url = match domain {
            CredentialDomain::FabreX => self.config.fabrex_base_url.as_str(),
            CredentialDomain::Gryf => self.config.gryf_base_url.as_str(),
            CredentialDomain::Supernode => self.config.supernode_base_url.as_str(),
            CredentialDomain::Redfish => self.config.fabrex_base_url.as_str(),
        };
        let r = match ApiClientConfig::try_from_url(base_url) {
            Ok(config) => Ok(ClientSetup { auth, config }),
            Err(e) => {
                let cause = e.to_string();
                let head = join2(domain.name(), " base URL: ");
                proof {
                    lemma_prefixed_starts_with(head@, cause@, "invalid URL: "@);
                }
                Err(join2(head.as_str(), cause.as_str()))
            },
        };
        assert(client_outcome_at(
            self.settings(),
            domain,
            old(manager).tokens(),
            old(manager).stored(),
            manager.tokens(),
            r,
            now,
            found,
        ));
        r
    }

    /// What the fabric service's client is made from: `client_setup` for the
    /// fabric service.
    pub fn fabrex_client<S: CredentialStore>(&self, manager: &mut CredentialManager<S>) -> (r:
        Result<ClientSetup, String>)
        ensures
            final(manager).stored() == old(manager).stored(),
            final(manager).interactive() == old(manager).interactive(),
            client_outcome(
                self.settings(),
                CredentialDomain::FabreX,
                old(manager).tokens(),
                old(manager).stored(),
                final(manager).tokens(),
                r,
            ),
            r matches Ok(setup) ==> setup.auth.is_set() && url_text_of(
                self.settings().fabrex_base_url@,
            ) == Some(setup.config.base_url@),
    {
        self.client_setup(manager, CredentialDomain::FabreX)
    }

    /// What the workload service's client is made from: `client_setup` for
    /// the workload service.
    pub fn gryf_client<S: CredentialStore>(&self, manager: &mut CredentialManager<S>) -> (r:
        Result<ClientSetup, String>)
        ensures
            final(manager).stored() == old(manager).stored(),
            final(manager).interactive() == old(manager).interactive(),
            client_outcome(
                self.settings(),
                CredentialDomain::Gryf,
                old(manager).tokens(),
                old(manager).stored(),
                final(manager).tokens(),
                r,
            ),
            r matches Ok(setup) ==> setup.auth.is_set() && url_text_of(
                self.settings().gryf_base_url@,
            ) == Some(setup.config.base_url@),
    {
        self.client_setup(manager, CredentialDomain::Gryf)
    }

    /// What the node service's client is made from: `client_setup` for the
    /// node service.
    pub fn supernode_client<S: CredentialStore>(&self, manager: &mut CredentialManager<S>) -> (r:
        Result<ClientSetup, String>)
        ensures
            final(manager).stored() == old(manager).stored(),
            final(manager).interactive() == old(manager).interactive(),
            client_outcome(
                self.settings(),
                CredentialDomain::Supernode,
                old(manager).tokens(),
                old(manager).stored(),
                final(manager).tokens(),
                r,
            ),
            r matches Ok(setup) ==> setup.auth.is_set() && url_text_of(
                self.settings().supernode_base_url@,
            ) == Some(setup.config.base_url@),
    {
        self.client_setup(manager, CredentialDomain::Supernode)
    }
}

/// Whether `r` and the cache `after` are what resolving the authentication
/// material of `domain` at the time `now` comes to. A cached token that is
/// valid then is the bearer token of the result. Without one, a store that
/// is itself the whole of what it keeps decides: its secret gives the
/// material, and without a secret the message says that credentials are
/// missing. A store outside the program may give any material that is set,
/// or fail with a message that names the domain.
pub open spec fn auth_at(
    before: Map<(CredentialDomain, Seq<char>), CachedToken>,
    stored: Option<Map<(CredentialDomain, Seq<char>), CredentialSecret>>,
    domain: CredentialDomain,
    now: u64,
    after: Map<(CredentialDomain, Seq<char>), CachedToken>,
    r: Result<AuthContext, String>,
) -> bool {
    let key = (domain, "default"@);
    &&& after == after_lookup(before, key, now)
    &&& match lookup_at(before, key, now) {
        Some(token) => r == Ok::<AuthContext, String>(
            AuthContext { bearer_token: Some(token), basic: None },
        ),
        None => match stored {
            Some(secrets) => match secret_under(secrets, key) {
                Some(secret) => r == Ok::<AuthContext, String>(secret.auth_context_spec()),
                None => r is Err && r->Err_0@ == missing_credentials_text(domain),
            },
            None => match r {
                Ok(context) => context.is_set(),
                Err(message) => message@ == missing_credentials_text(domain) || starts_with(
                    message@,
                    credentials_failure_head(domain),
                ),
            },
        },
    }
}

/// Whether `r` is what a client's setup comes to once the authentication
/// material is resolved as `found`: its failure is the setup's failure; with
/// the material, an address that the `url` crate reads gives the setup, with
/// that material, the address as the crate writes it, and the default
/// timeout and client name; an address that it does not read gives a
/// message that names the domain and says that the URL is invalid.
pub open spec fn setup_from(
    settings: AppConfig,
    domain: CredentialDomain,
    found: Result<AuthContext, String>,
    r: Result<ClientSetup, String>,
) -> bool {
    let base = ServiceContext::base_url_of(settings, domain)@;
    match found {
        Err(message) => r == Err::<ClientSetup, String>(message),
        Ok(auth) => match url_text_of(base) {
            Some(url) => {
                &&& r is Ok
                &&& r->Ok_0.auth == auth
                &&& r->Ok_0.config.base_url@ == url
                &&& r->Ok_0.config.timeout_secs == DEFAULT_TIMEOUT_SECS
                &&& r->Ok_0.config.user_agent@ == ApiClientConfig::default_user_agent()
            },
            None => r is Err && starts_with(
                r->Err_0@,
                address_failure_head(domain) + "invalid URL: "@,
            ),
        },
    }
}

/// Whether `r` and the cache `after` are what setting a client up comes to
/// where the clock reads `now` and the authentication material resolves as
/// `found`.
pub open spec fn client_outcome_at(
    settings: AppConfig,
    domain: CredentialDomain,
    before: Map<(CredentialDomain, Seq<char>), CachedToken>,
    stored: Option<Map<(CredentialDomain, Seq<char>), CredentialSecret>>,
    after: Map<(CredentialDomain, Seq<char>), CachedToken>,
    r: Result<ClientSetup, String>,
    now: u64,
    found: Result<AuthContext, String>,
) -> bool {
    auth_at(before, stored, domain, now, after, found) && setup_from(settings, domain, found, r)
}

/// Whether `r` and the cache `after` are what setting a client up comes to,
/// whatever the clock reads.
pub open spec fn client_outcome(
    settings: AppConfig,
    domain: CredentialDomain,
    before: Map<(CredentialDomain, Seq<char>), CachedToken>,
    stored: Option<Map<(CredentialDomain, Seq<char>), CredentialSecret>>,
    after: Map<(CredentialDomain, Seq<char>), CachedToken>,
    r: Result<ClientSetup, String>,
) -> bool {
    exists|now: u64, found: Result<AuthContext, String>|
        client_outcome_at(settings, domain, before, stored, after, r, now, found)
}

/// Setting a client up succeeds wherever neither the clock nor a store
/// outside the program decides: with a cached token that never expires, or
/// with no cached token and a secret in a store that is itself the whole of
/// what it keeps, an address that the `url` crate reads gives a setup. With a
/// cached token that may have expired and such a secret it succeeds too,
/// with one of the two. Without token and secret it fails for want of
/// credentials.
pub proof fn lemma_setup_is_owed(
    settings: AppConfig,
    domain: CredentialDomain,
    before: Map<(CredentialDomain, Seq<char>), CachedToken>,
    stored: Option<Map<(CredentialDomain, Seq<char>), CredentialSecret>>,
    after: Map<(CredentialDomain, Seq<char>), CachedToken>,
    r: Result<ClientSetup, String>,
)
    requires
        client_outcome(settings, domain, before, stored, after, r),
    ensures
        ({
            let key = (domain, "default"@);
            let readable = url_text_of(ServiceContext::base_url_of(settings, domain)@) is Some;
            &&& before.contains_key(key) && before[key].expires_at is None && readable ==> r is Ok
                && r->Ok_0.auth == (AuthContext {
                bearer_token: Some(before[key].value),
                basic: None,
            })
            &&& !before.contains_key(key) && stored is Some && stored->0.contains_key(key)
                && readable ==> r is Ok && r->Ok_0.auth == stored->0[key].auth_context_spec()
            &&& stored is Some && stored->0.contains_key(key) && readable ==> r is Ok
            &&& !before.contains_key(key) && stored is Some && !stored->0.contains_key(key) ==> r is Err
                && r->Err_0@ == missing_credentials_text(domain)
            &&& r is Ok ==> r->Ok_0.auth.is_set() && readable
        }),
{
    let (now, found) = choose|now: u64, found: Result<AuthContext, String>|
        client_outcome_at(settings, domain, before, stored, after, r, now, found);
}

} // verus!
