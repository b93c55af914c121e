//! The command line as the application understands it.

use crate::auth::error::AuthError;
use crate::auth::key::{key_label_text, CredentialDomain, CredentialKey};
use crate::auth::manager::CredentialManager;
use crate::auth::secret::CredentialSecret;
use crate::auth::store::CredentialStore;
use crate::text::join3;
use vstd::prelude::*;

verus! {

/// A domain as named on the command line.
#[derive(Debug, Clone, Copy, PartialEq, Eq, Structural)]
pub enum CredentialDomainArg {
    FabreX,
    Gryf,
    Supernode,
    Redfish,
}

impl CredentialDomainArg {
    /// The domain that the argument names.
    pub open spec fn domain(self) -> CredentialDomain {
        match self {
            CredentialDomainArg::FabreX => CredentialDomain::FabreX,
            CredentialDomainArg::Gryf => CredentialDomain::Gryf,
            CredentialDomainArg::Supernode => CredentialDomain::Supernode,
            CredentialDomainArg::Redfish => CredentialDomain::Redfish,
        }
    }
}

impl From<CredentialDomainArg> for CredentialDomain {
    fn from(value: CredentialDomainArg) -> (r: Self) {
        match value {
            CredentialDomainArg::FabreX => CredentialDomain::FabreX,
            CredentialDomainArg::Gryf => CredentialDomain::Gryf,
            CredentialDomainArg::Supernode => CredentialDomain::Supernode,
            CredentialDomainArg::Redfish => CredentialDomain::Redfish,
        }
    }
}

impl vstd::std_specs::convert::FromSpecImpl<CredentialDomainArg> for CredentialDomain {
    open spec fn obeys_from_spec() -> bool {
        true
    }

    open spec fn from_spec(value: CredentialDomainArg) -> Self {
        value.domain()
    }
}

/// What the operator asks for on the command line.
#[derive(Debug, Clone, PartialEq, Eq)]
pub enum Command {
    /// Take the credentials of a domain and store them.
    AuthInit { domain: CredentialDomainArg, scope: String },
}

/// The command line: where the settings are, which profile to load, whether
/// to run without the interface, and the command, if one is given.
#[derive(Debug, Clone, PartialEq, Eq)]
pub struct Cli {
    pub config: Option<String>,
    pub profile: Option<String>,
    pub headless: bool,
    pub command: Option<Command>,
}

/// The line that reports stored credentials.
pub open spec fn stored_line_text(key: (CredentialDomain, Seq<char>), secret: CredentialSecret)
    -> Seq<char> {
    "Credentials stored for "@ + key_label_text(key) + " ("@ + secret.redacted_summary_spec()
        + ")"@
}

/// The line that reports that the credentials of `key` are stored, with a
/// summary of the secret that shows nothing secret.
pub fn stored_line(key: &CredentialKey, secret: &CredentialSecret) -> (r: String)
    ensures
        r@ == stored_line_text(key@, *secret),
{
    let label = key.to_string();
    let summary = secret.redacted_summary();
    let head = join3("Credentials stored for ", label.as_str(), " (");
    join3(head.as_str(), summary.as_str(), ")")
}

/// What taking the credentials of `key` comes to over a store that holds
/// `before`. With a secret there, the store stays and the line reports that
/// secret. Without one and with asking switched off, the store stays and
/// the error says that asking is off. Without one and with asking switched
/// on, success means that the operator's secret is now stored under the
/// key and reported, and failure leaves the store as it was.
pub open spec fn auth_init_outcome(
    before: Map<(CredentialDomain, Seq<char>), CredentialSecret>,
    key: (CredentialDomain, Seq<char>),
    interactive: bool,
    after: Option<Map<(CredentialDomain, Seq<char>), CredentialSecret>>,
    r: Result<String, AuthError>,
) -> bool {
    if before.contains_key(key) {
        &&& after == Some(before)
        &&& r is Ok
        &&& r->Ok_0@ == stored_line_text(key, before[key])
    } else if !interactive {
        &&& after == Some(before)
        &&& r is Err
        &&& r->Err_0 is InteractiveDisabled
    } else {
        match r {
            Ok(line) => {
                &&& after is Some
                &&& after->0.contains_key(key)
                &&& after->0 == before.insert(key, after->0[key])
                &&& line@ == stored_line_text(key, after->0[key])
            },
            Err(_) => after == Some(before),
        }
    }
}

/// Carries a command out and gives the line to print. Taking credentials
/// makes sure that the key has a secret, asking the operator through
/// `prompt` where it has none and asking is switched on.
pub fn handle_command<S: CredentialStore, F>(
    manager: &mut CredentialManager<S>,
    command: Command,
    prompt: F,
) -> (r: Result<String, AuthError>) where F: FnOnce(&CredentialKey) -> Result<CredentialSecret, AuthError>
    requires
        forall|key: &CredentialKey| call_requires(prompt, (key,)),
    ensures
        final(manager).tokens() == old(manager).tokens(),
        final(manager).interactive() == old(manager).interactive(),
        old(manager).stored() is None ==> final(manager).stored() is None,
        match command {
            Command::AuthInit { domain, scope } => old(manager).stored() matches Some(before)
                ==> auth_init_outcome(
                before,
                (domain.domain(), scope@),
                old(manager).interactive(),
                final(manager).stored(),
                r,
            ),
        },
{
    match command {
        Command::AuthInit { domain, scope } => {
            let key = CredentialKey::new(CredentialDomain::from(domain), scope.as_str());
            match manager.ensure_credentials(&key, prompt) {
                Ok(secret) => Ok(stored_line(&key, &secret)),
                Err(e) => Err(e),
            }
        },
    }
}

} // verus!
