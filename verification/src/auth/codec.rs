//! The text that a secret is stored as: a JSON object with the members
//! `username`, `password` and `api_token`.

use crate::assoc::{as_map, lemma_absent_is_unmapped, lemma_first_is_mapped};
use crate::auth::error::AuthError;
use crate::auth::secret::CredentialSecret;
use vstd::prelude::*;

verus! {

/// The members of an object as plain texts: each name with its text, or with
/// nothing where the member holds no text.
pub open spec fn members_view(members: Seq<(String, Option<String>)>) -> Seq<
    (Seq<char>, Option<Seq<char>>),
> {
    members.map_values(
        |m: (String, Option<String>)|
            (
                m.0@,
                match m.1 {
                    Some(text) => Some(text@),
                    None => None,
                },
            ),
    )
}

/// The text that `serde_json::to_string` writes for the object with these
/// members, a member without a text being written as `null`.
pub uninterp spec fn json_object_text_of(members: Seq<(Seq<char>, Option<Seq<char>>)>) -> Seq<
    char,
>;

/// The members that `serde_json::from_str` reads from `text` as an object,
/// each with its text where it holds one; `None` where `text` is no JSON
/// object.
pub uninterp spec fn json_members_of(text: Seq<char>) -> Option<
    Seq<(Seq<char>, Option<Seq<char>>)>,
>;

/// `serde_json::to_string`, given a `serde_json::Map` made of the members:
/// each text as a JSON string, each missing text as `null`. What it writes
/// depends on the members alone; the contract gives that text its name and
/// promises no success.
#[verifier::external_body]
fn write_json_object(members: &Vec<(String, Option<String>)>) -> (r: Result<
    String,
    serde_json::Error,
>)
    ensures
        r matches Ok(text) ==> text@ == json_object_text_of(members_view(members@)),
{
    let object: serde_json::Map<String, serde_json::Value> = members.iter().map(
        |m| (m.0.clone(), serde_json::Value::from(m.1.clone())),
    ).collect();
    serde_json::to_string(&serde_json::Value::Object(object))
}

/// `serde_json::from_str`, asked for a `serde_json::Map`: the members of the
/// object that `text` holds, a member that is a JSON string with its text
/// and any other without one. It fails exactly where `text` is no JSON
/// object. What it reads depends on the text alone; the contract gives the
/// members their name.
#[verifier::external_body]
fn read_json_object(text: &str) -> (r: Result<Vec<(String, Option<String>)>, serde_json::Error>)
    ensures
        match r {
            Ok(members) => json_members_of(text@) == Some(members_view(members@)),
            Err(_) => json_members_of(text@) is None,
        },
{
    let object = serde_json::from_str::<serde_json::Map<String, serde_json::Value>>(text)?;
    Ok(
        object.into_iter().map(
            |m| match m.1 {
                serde_json::Value::String(text) => (m.0, Some(text)),
                _ => (m.0, None),
            },
        ).collect(),
    )
}

/// `serde::de::Error::custom` as `serde_json::Error` implements it: an error
/// of that crate whose text is `message`. The error is carried through
/// unopened, so nothing is claimed of it.
#[verifier::external_body]
fn json_error(message: &str) -> (r: serde_json::Error) {
    <serde_json::Error as serde::de::Error>::custom(message)
}

/// The text of the member `name`, where the object has that member and it
/// holds a text.
pub open spec fn text_member(members: Seq<(Seq<char>, Option<Seq<char>>)>, name: Seq<char>)
    -> Option<Seq<char>> {
    if as_map(members).contains_key(name) {
        as_map(members)[name]
    } else {
        None
    }
}

/// What keeps the members from being a secret: a user name or a password
/// that is not there as a text.
pub open spec fn secret_problem(members: Seq<(Seq<char>, Option<Seq<char>>)>) -> Option<
    Seq<char>,
> {
    if text_member(members, "username"@) is None {
        Some("missing field `username`"@)
    } else if text_member(members, "password"@) is None {
        Some("missing field `password`"@)
    } else {
        None
    }
}

/// Whether `secret` is the secret that the members describe.
pub open spec fn secret_matches(
    secret: CredentialSecret,
    members: Seq<(Seq<char>, Option<Seq<char>>)>,
) -> bool {
    &&& text_member(members, "username"@) == Some(secret.username@)
    &&& text_member(members, "password"@) == Some(secret.password@)
    &&& match secret.api_token {
        Some(token) => text_member(members, "api_token"@) == Some(token@),
        None => text_member(members, "api_token"@) is None,
    }
}

/// The members that a secret is written as.
pub open spec fn secret_members_spec(secret: CredentialSecret) -> Seq<
    (Seq<char>, Option<Seq<char>>),
> {
    seq![
        ("username"@, Some(secret.username@)),
        ("password"@, Some(secret.password@)),
        (
            "api_token"@,
            match secret.api_token {
                Some(token) => Some(token@),
                None => None,
            },
        ),
    ]
}

/// The members that `secret` is written as: its user name, its password and
/// its API token, the last without a text where the secret has none.
pub fn secret_members(secret: &CredentialSecret) -> (r: Vec<(String, Option<String>)>)
    ensures
        members_view(r@) == secret_members_spec(*secret),
{
    let mut out: Vec<(String, Option<String>)> = Vec::new();
    out.push(("username".to_owned(), Some(secret.username.clone())));
    out.push(("password".to_owned(), Some(secret.password.clone())));
    let token = match &secret.api_token {
        Some(token) => Some(token.clone()),
        None => None,
    };
    out.push(("api_token".to_owned(), token));
    out
}

fn find_member<'a>(members: &'a Vec<(String, Option<String>)>, name: &str) -> (r: Option<
    &'a String,
>)
    ensures
        match r {
            Some(text) => text_member(members_view(members@), name@) == Some(text@),
            None => text_member(members_view(members@), name@) is None,
        },
{
    let wanted = name.to_owned();
    let ghost view = members_view(members@);
    let mut i: usize = 0;
    while i < members.len()
        invariant
            i <= members.len(),
            wanted@ == name@,
            view == members_view(members@),
            forall|j: int| 0 <= j < i ==> (#[trigger] view[j]).0 != name@,
        decreases members.len() - i,
    {
        if members[i].0 == wanted {
            proof {
                lemma_first_is_mapped(view, name@, i as int);
            }
            return match &members[i].1 {
                Some(text) => Some(text),
                None => None,
            };
        }
        i += 1;
    }
    proof {
        lemma_absent_is_unmapped(view, name@);
    }
    None
}

/// The secret that the members of a stored object describe, or what keeps
/// them from being one. The user name and the password must be there as
/// texts; the API token may be missing or hold no text. Other members are
/// passed over.
pub fn secret_from_members(members: &Vec<(String, Option<String>)>) -> (r: Result<
    CredentialSecret,
    &'static str,
>)
    ensures
        match r {
            Ok(secret) => secret_problem(members_view(members@)) is None && secret_matches(
                secret,
                members_view(members@),
            ),
            Err(problem) => secret_problem(members_view(members@)) == Some(problem@),
        },
{
    let username = match find_member(members, "username") {
        Some(text) => text.clone(),
        None => { return Err("missing field `username`"); },
    };
    let password = match find_member(members, "password") {
        Some(text) => text.clone(),
        None => { return Err("missing field `password`"); },
    };
    let api_token = match find_member(members, "api_token") {
        Some(text) => Some(text.clone()),
        None => None,
    };
    Ok(CredentialSecret { username, password, api_token })
}

/// The members that a secret is written as describe that secret again.
pub proof fn lemma_members_round_trip(secret: CredentialSecret)
    ensures
        secret_problem(secret_members_spec(secret)) is None,
        secret_matches(secret, secret_members_spec(secret)),
{
    let members = secret_members_spec(secret);
    reveal_strlit("username");
    reveal_strlit("password");
    reveal_strlit("api_token");
    assert("username"@[0] != "password"@[0]);
    assert("username"@[0] != "api_token"@[0]);
    assert("password"@[0] != "api_token"@[0]);
    lemma_first_is_mapped(members, "username"@, 0);
    lemma_first_is_mapped(members, "password"@, 1);
    lemma_first_is_mapped(members, "api_token"@, 2);
}

/// The text that `secret` is stored as.
pub fn payload_of_secret(secret: &CredentialSecret) -> (r: Result<String, AuthError>)
    ensures
        match r {
            Ok(text) => text@ == json_object_text_of(secret_members_spec(*secret)),
            Err(e) => e is Serialization,
        },
{
    let members = secret_members(secret);
    match write_json_object(&members) {
        Ok(text) => Ok(text),
        Err(e) => Err(AuthError::Serialization(e)),
    }
}

/// The secret that the stored text `payload` holds. It is read where the
/// text is a JSON object whose members describe a secret; any other text is
/// a serialization error.
pub fn secret_from_payload(payload: &str) -> (r: Result<CredentialSecret, AuthError>)
    ensures
        match r {
            Ok(secret) => json_members_of(payload@) matches Some(members) && secret_problem(
                members,
            ) is None && secret_matches(secret, members),
            Err(e) => e is Serialization && (json_members_of(payload@) matches Some(members)
                ==> secret_problem(members) is Some),
        },
{
    match read_json_object(payload) {
        Ok(members) => match secret_from_members(&members) {
            Ok(secret) => Ok(secret),
            Err(problem) => Err(AuthError::Serialization(json_error(problem))),
        },
        Err(e) => Err(AuthError::Serialization(e)),
    }
}

} // verus!
