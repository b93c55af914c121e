//! The secret of one credential key and what a request makes of it.

use crate::api::http::AuthContext;
use crate::text::{is_blank, join3, trim, trimmed};
use vstd::prelude::*;

verus! {

/// A user name with its password and, where the service issues one, an API
/// token.
#[derive(Debug, PartialEq, Eq)]
pub struct CredentialSecret {
    pub username: String,
    pub password: String,
    pub api_token: Option<String>,
}

impl Clone for CredentialSecret {
    fn clone(&self) -> (r: Self)
        ensures
            r == *self,
    {
        let api_token = match &self.api_token {
            Some(token) => Some(token.clone()),
            None => None,
        };
        CredentialSecret {
            username: self.username.clone(),
            password: self.password.clone(),
            api_token,
        }
    }
}

impl CredentialSecret {
    /// Whether the secret can sign a request at all: it has a password or an
    /// API token that is not empty. The stores keep any secret; the form
    /// that takes credentials gives only such ones.
    pub open spec fn usable(self) -> bool {
        self.password@.len() > 0 || (self.api_token matches Some(token) && token@.len() > 0)
    }

    /// The authentication material that this secret gives a request: its API
    /// token as a bearer token where it has one, else its user name and
    /// password.
    pub open spec fn auth_context_spec(self) -> AuthContext {
        match self.api_token {
            Some(token) => AuthContext { bearer_token: Some(token), basic: None },
            None => AuthContext {
                bearer_token: None,
                basic: Some((self.username, self.password)),
            },
        }
    }

    /// The secret's summary without anything secret in it.
    pub open spec fn redacted_summary_spec(self) -> Seq<char> {
        self.username@ + " / "@ + if self.api_token is Some {
            "•••• API token"@
        } else {
            "no API token"@
        }
    }

    /// A summary that can be shown: the user name, and whether there is an API
    /// token.
    pub fn redacted_summary(&self) -> (r: String)
        ensures
            r@ == self.redacted_summary_spec(),
    {
        let token_note = if self.api_token.is_some() {
            "•••• API token"
        } else {
            "no API token"
        };
        join3(self.username.as_str(), " / ", token_note)
    }

    /// The authentication material that this secret gives a request.
    pub fn as_auth_context(&self) -> (r: AuthContext)
        ensures
            r == self.auth_context_spec(),
    {
        match &self.api_token {
            Some(token) => AuthContext::bearer(token.clone()),
            None => AuthContext::basic(self.username.clone(), self.password.clone()),
        }
    }

    /// The secret that an operator's three answers make: the API token
    /// without the white space round it, and no API token where nothing is
    /// left of it.
    pub fn from_prompt(username: String, password: String, api_token: &str) -> (r: Self)
        ensures
            r.username == username,
            r.password == password,
            is_blank(api_token@) ==> r.api_token is None,
            !is_blank(api_token@) ==> r.api_token is Some && r.api_token->0@ == trimmed(
                api_token@,
            ),
    {
        let token = trim(api_token);
        let api_token = if token.as_str().is_empty() {
            None
        } else {
            Some(token)
        };
        CredentialSecret { username, password, api_token }
    }
}

/// What is wrong with a user name typed at the prompt: a blank one is
/// refused, any other is taken.
pub fn username_problem(input: &str) -> (r: Option<&'static str>)
    ensures
        is_blank(input@) ==> r is Some && r->0@ == "username cannot be empty"@,
        !is_blank(input@) ==> r is None,
{
    let rest = trim(input);
    if rest.as_str().is_empty() {
        Some("username cannot be empty")
    } else {
        None
    }
}

} // verus!
