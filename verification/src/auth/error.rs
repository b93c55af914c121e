//! What can go wrong while credentials are resolved.

use crate::text::{join2, lemma_join_starts_with, starts_with};
use vstd::prelude::*;

verus! {

/// The error type of the `keyring` crate, carried through unopened.
#[verifier::external_type_specification]
#[verifier::external_body]
pub struct ExKeyringError(keyring::Error);

/// The error type of the `serde_json` crate, carried through unopened.
#[verifier::external_type_specification]
#[verifier::external_body]
pub struct ExJsonError(serde_json::Error);

/// The error type of the `dialoguer` crate, carried through unopened.
#[verifier::external_type_specification]
#[verifier::external_body]
pub struct ExPromptError(dialoguer::Error);

/// Why credentials could not be had.
#[derive(Debug)]
pub enum AuthError {
    /// The platform's secure storage refused or failed.
    Keyring(keyring::Error),
    /// A stored secret could not be written as, or read from, its text.
    Serialization(serde_json::Error),
    /// Asking the operator failed.
    Prompt(dialoguer::Error),
    /// A secret was missing and asking for it is switched off; holds the key
    /// as shown to a person.
    InteractiveDisabled(String),
}

impl AuthError {
    /// The words that the message of this kind of error begins with.
    pub open spec fn prefix(self) -> Seq<char> {
        match self {
            AuthError::Keyring(_) => "keyring error: "@,
            AuthError::Serialization(_) => "serialization error: "@,
            AuthError::Prompt(_) => "prompt error: "@,
            AuthError::InteractiveDisabled(_) =>
                "interactive prompts disabled; cannot create credentials for "@,
        }
    }

    /// The message for a person: the words of the error's kind, then its
    /// cause. The cause of an error from outside is that error's own text;
    /// for a disabled prompt it is the key.
    pub fn to_string(&self) -> (r: String)
        ensures
            starts_with(r@, self.prefix()),
            self matches AuthError::InteractiveDisabled(key) ==> r@ == self.prefix() + key@,
    {
        match self {
            AuthError::Keyring(err) => {
                let cause = err.to_string();
                proof {
                    lemma_join_starts_with("keyring error: "@, cause@);
                }
                join2("keyring error: ", cause.as_str())
            },
            AuthError::Serialization(err) => {
                let cause = err.to_string();
                proof {
                    lemma_join_starts_with("serialization error: "@, cause@);
                }
                join2("serialization error: ", cause.as_str())
            },
            AuthError::Prompt(err) => {
                let cause = err.to_string();
                proof {
                    lemma_join_starts_with("prompt error: "@, cause@);
                }
                join2("prompt error: ", cause.as_str())
            },
            AuthError::InteractiveDisabled(key) => {
                proof {
                    lemma_join_starts_with(
                        "interactive prompts disabled; cannot create credentials for "@,
                        key@,
                    );
                }
                join2(
                    "interactive prompts disabled; cannot create credentials for ",
                    key.as_str(),
                )
            },
        }
    }
}

} // verus!
