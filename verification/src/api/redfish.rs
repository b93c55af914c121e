//! The out-of-band session service: how a session is opened.

use crate::auth::token::RedfishSession;
use vstd::prelude::*;

verus! {

/// The path at which a session is opened.
pub fn sessions_path() -> (r: &'static str)
    ensures
        r@ == "/redfish/v1/Sessions"@,
{
    "/redfish/v1/Sessions"
}

/// The name of the response header that carries a new session's token.
pub fn token_header() -> (r: &'static str)
    ensures
        r@ == "X-Auth-Token"@,
{
    "X-Auth-Token"
}

/// The members of the body that opens a session, in order.
pub fn session_body(username: &str, password: &str) -> (r: Vec<(String, String)>)
    ensures
        r@.len() == 2,
        r@[0].0@ == "UserName"@,
        r@[0].1@ == username@,
        r@[1].0@ == "Password"@,
        r@[1].1@ == password@,
{
    let mut out: Vec<(String, String)> = Vec::new();
    out.push(("UserName".to_owned(), username.to_owned()));
    out.push(("Password".to_owned(), password.to_owned()));
    out
}

/// The session that a response opens: the identifier from its body and the
/// token from its header, without an expiry. A response without the token
/// header opens none.
pub fn session_from_response(session_id: String, token: Option<String>) -> (r: Option<
    RedfishSession,
>)
    ensures
        match token {
            Some(t) => r == Some(
                RedfishSession { session_id: session_id, auth_token: t, expires_at: None },
            ),
            None => r is None,
        },
{
    match token {
        Some(t) => Some(RedfishSession { session_id, auth_token: t, expires_at: None }),
        None => None,
    }
}

} // verus!
