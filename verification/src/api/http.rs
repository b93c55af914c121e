//! The parts of a request that do not depend on the transport.

use crate::text::{decimal, decimal_text, join2, join3, lemma_join_starts_with, starts_with};
use vstd::prelude::*;

verus! {

/// The error type of the `url` crate's parser, carried through unopened.
#[verifier::external_type_specification]
#[verifier::external_body]
pub struct ExUrlParseError(url::ParseError);

/// The error type of the `reqwest` crate, carried through unopened.
#[verifier::external_type_specification]
#[verifier::external_body]
pub struct ExRequestError(reqwest::Error);

/// The URL that `url::Url::parse` reads from `text`, written out again as
/// that crate writes it; `None` where `text` is no absolute URL.
pub uninterp spec fn url_text_of(text: Seq<char>) -> Option<Seq<char>>;

/// `url::Url::parse`, with the URL written out again: the crate's own form
/// of the absolute URL that `text` holds. It fails exactly where the crate
/// reads no URL from `text`. The result depends on the text alone; the
/// contract gives it its name.
#[verifier::external_body]
fn parse_url(text: &str) -> (r: Result<String, url::ParseError>)
    ensures
        match r {
            Ok(url) => url_text_of(text@) == Some(url@),
            Err(_) => url_text_of(text@) is None,
        },
{
    url::Url::parse(text).map(String::from)
}

/// The seconds after which a request is given up, unless set otherwise.
pub const DEFAULT_TIMEOUT_SECS: u64 = 15;

/// Why a request to a backend service failed.
#[derive(Debug)]
pub enum ApiError {
    /// The address is no URL.
    Url(url::ParseError),
    /// The request could not be made, or no answer came in time.
    Request(reqwest::Error),
    /// The service answered with a status outside 200 to 299.
    HttpStatus { status: u16, body: String },
    /// The answer's body is not what was expected.
    Deserialize { source: serde_json::Error, body: String },
    /// A session was opened but its token is missing from the answer.
    MissingAuthToken,
}

impl ApiError {
    /// The words that the message of this kind of error begins with.
    pub open spec fn prefix(self) -> Seq<char> {
        match self {
            ApiError::Url(_) => "invalid URL: "@,
            ApiError::Request(_) => "request error: "@,
            ApiError::HttpStatus { status, .. } => "HTTP "@ + decimal_text(status as nat) + ": "@,
            ApiError::Deserialize { .. } => "failed to deserialize response: "@,
            ApiError::MissingAuthToken =>
                "missing expected authentication token in response headers"@,
        }
    }

    /// The message for a person: the words of the error's kind, then its
    /// cause. The cause of an error from outside is that error's own text;
    /// for a refused status it is the answer's body.
    pub fn to_string(&self) -> (r: String)
        ensures
            starts_with(r@, self.prefix()),
            self matches ApiError::HttpStatus { body, .. } ==> r@ == self.prefix() + body@,
            self is MissingAuthToken ==> r@ == self.prefix(),
    {
        match self {
            ApiError::Url(err) => {
                let cause = err.to_string();
                proof {
                    lemma_join_starts_with("invalid URL: "@, cause@);
                }
                join2("invalid URL: ", cause.as_str())
            },
            ApiError::Request(err) => {
                let cause = err.to_string();
                proof {
                    lemma_join_starts_with("request error: "@, cause@);
                }
                join2("request error: ", cause.as_str())
            },
            ApiError::HttpStatus { status, body } => {
                let code = decimal(*status as u64);
                let head = join3("HTTP ", code.as_str(), ": ");
                proof {
                    lemma_join_starts_with(head@, body@);
                }
                join2(head.as_str(), body.as_str())
            },
            ApiError::Deserialize { source, .. } => {
                let cause = source.to_string();
                proof {
                    lemma_join_starts_with("failed to deserialize response: "@, cause@);
                }
                join2("failed to deserialize response: ", cause.as_str())
            },
            ApiError::MissingAuthToken => {
                let text = "missing expected authentication token in response headers".to_owned();
                assert(text@.subrange(0, text@.len() as int) =~= text@);
                text
            },
        }
    }
}

/// Whether a status counts as success: 200 to 299.
pub open spec fn is_success(status: u16) -> bool {
    200 <= status < 300
}

/// What an answer with the status `status` and the body `body` is: its body
/// to read on where the status is a success, else an error that holds both.
pub fn check_status(status: u16, body: String) -> (r: Result<String, ApiError>)
    ensures
        r == if is_success(status) {
            Ok::<String, ApiError>(body)
        } else {
            Err::<String, ApiError>(ApiError::HttpStatus { status, body })
        },
{
    if 200 <= status && status < 300 {
        Ok(body)
    } else {
        Err(ApiError::HttpStatus { status, body })
    }
}

/// Where a backend service is and how it is talked to: its base URL, in the
/// form in which the `url` crate writes it, the seconds after which a
/// request is given up, and the name that the client gives itself.
#[derive(Debug)]
pub struct ApiClientConfig {
    pub base_url: String,
    pub timeout_secs: u64,
    pub user_agent: String,
}

impl ApiClientConfig {
    /// The name that the client gives itself unless set otherwise.
    pub open spec fn default_user_agent() -> Seq<char> {
        "FabreXLens/0.1.0"@
    }

    /// The configuration for the service at `url`, with the default timeout
    /// and name. A text that is no absolute URL is refused.
    pub fn try_from_url(url: &str) -> (r: Result<Self, ApiError>)
        ensures
            match r {
                Ok(config) => url_text_of(url@) == Some(config.base_url@) && config.timeout_secs
                    == DEFAULT_TIMEOUT_SECS && config.user_agent@ == Self::default_user_agent(),
                Err(e) => url_text_of(url@) is None && e is Url,
            },
    {
        match parse_url(url) {
            Ok(base_url) => Ok(
                ApiClientConfig {
                    base_url,
                    timeout_secs: DEFAULT_TIMEOUT_SECS,
                    user_agent: "FabreXLens/0.1.0".to_owned(),
                },
            ),
            Err(e) => Err(ApiError::Url(e)),
        }
    }

    /// The same configuration with another timeout.
    pub fn with_timeout(self, timeout_secs: u64) -> (r: Self)
        ensures
            r == (ApiClientConfig { timeout_secs, ..self }),
    {
        ApiClientConfig {
            base_url: self.base_url,
            timeout_secs,
            user_agent: self.user_agent,
        }
    }

    /// The same configuration with another name for the client.
    pub fn with_user_agent(self, agent: String) -> (r: Self)
        ensures
            r == (ApiClientConfig { user_agent: agent, ..self }),
    {
        ApiClientConfig {
            base_url: self.base_url,
            timeout_secs: self.timeout_secs,
            user_agent: agent,
        }
    }
}

/// The authentication material of one outgoing request: a bearer token, or a
/// user name with its password. Where both are set the bearer token is the
/// one that counts.
#[derive(Debug)]
pub struct AuthContext {
    pub bearer_token: Option<String>,
    pub basic: Option<(String, String)>,
}

impl Clone for AuthContext {
    fn clone(&self) -> (r: Self)
        ensures
            r == *self,
    {
        let bearer_token = match &self.bearer_token {
            Some(token) => Some(token.clone()),
            None => None,
        };
        let basic = match &self.basic {
            Some(pair) => Some((pair.0.clone(), pair.1.clone())),
            None => None,
        };
        AuthContext { bearer_token, basic }
    }
}

impl Default for AuthContext {
    fn default() -> (r: Self)
        ensures
            r.bearer_token is None,
            r.basic is None,
    {
        AuthContext { bearer_token: None, basic: None }
    }
}

impl AuthContext {
    /// The context that carries `token` as a bearer token and nothing else.
    pub fn bearer(token: String) -> (r: Self)
        ensures
            r == (AuthContext { bearer_token: Some(token), basic: None }),
    {
        AuthContext { bearer_token: Some(token), basic: None }
    }

    /// The context that carries a user name and a password and nothing else.
    pub fn basic(username: String, password: String) -> (r: Self)
        ensures
            r == (AuthContext { bearer_token: None, basic: Some((username, password)) }),
    {
        AuthContext { bearer_token: None, basic: Some((username, password)) }
    }

    /// Whether the context carries anything at all.
    pub open spec fn is_set(self) -> bool {
        self.bearer_token is Some || self.basic is Some
    }

    /// What a request is signed with: the bearer token where there is one,
    /// else the user name and password, else nothing.
    pub open spec fn header_spec(self) -> Option<AuthHeader> {
        match self.bearer_token {
            Some(token) => Some(AuthHeader::Bearer(token)),
            None => match self.basic {
                Some((username, password)) => Some(AuthHeader::Basic(username, password)),
                None => None,
            },
        }
    }

    /// What a request is signed with. The bearer token takes precedence.
    pub fn header(&self) -> (r: Option<AuthHeader>)
        ensures
            r == self.header_spec(),
            r is Some == self.is_set(),
    {
        match &self.bearer_token {
            Some(token) => Some(AuthHeader::Bearer(token.clone())),
            None => match &self.basic {
                Some(pair) => Some(AuthHeader::Basic(pair.0.clone(), pair.1.clone())),
                None => None,
            },
        }
    }
}

/// The one authorization that a request carries.
#[derive(Debug, PartialEq, Eq)]
pub enum AuthHeader {
    /// A bearer token.
    Bearer(String),
    /// A user name and its password.
    Basic(String, String),
}

/// One page of a listing, with the cursor of the next page where there is
/// one.
#[derive(Debug)]
pub struct Paginated<T> {
    pub items: Vec<T>,
    pub next: Option<String>,
}

impl<T> Paginated<T> {
    /// Whether another page follows.
    pub fn has_more(&self) -> (r: bool)
        ensures
            r == (self.next is Some),
    {
        self.next.is_some()
    }
}

/// How much of a listing to ask for, and from where on.
#[derive(Debug)]
pub struct Pagination {
    pub limit: Option<u32>,
    pub cursor: Option<String>,
}

impl Default for Pagination {
    fn default() -> (r: Self)
        ensures
            r.limit is None,
            r.cursor is None,
    {
        Pagination { limit: None, cursor: None }
    }
}

impl Pagination {
    /// The query parameters that this pagination adds to a request, as views:
    /// `limit` with its decimal numeral where a limit is set, then `cursor`
    /// where a cursor is set.
    pub open spec fn query_pairs_spec(self) -> Seq<(Seq<char>, Seq<char>)> {
        let limit = match self.limit {
            Some(n) => seq![("limit"@, decimal_text(n as nat))],
            None => Seq::<(Seq<char>, Seq<char>)>::empty(),
        };
        let cursor = match self.cursor {
            Some(c) => seq![("cursor"@, c@)],
            None => Seq::<(Seq<char>, Seq<char>)>::empty(),
        };
        limit + cursor
    }

    /// The query parameters that this pagination adds to a request, in the
    /// order in which they are appended. None where neither field is set.
    pub fn query_pairs(&self) -> (r: Vec<(String, String)>)
        ensures
            r@.len() == self.query_pairs_spec().len(),
            forall|i: int|
                0 <= i < r@.len() ==> (#[trigger] r@[i]).0@ == self.query_pairs_spec()[i].0
                    && r@[i].1@ == self.query_pairs_spec()[i].1,
    {
        let mut out: Vec<(String, String)> = Vec::new();
        if let Some(limit) = self.limit {
            out.push(("limit".to_owned(), decimal(limit as u64)));
        }
        if let Some(cursor) = &self.cursor {
            out.push(("cursor".to_owned(), cursor.clone()));
        }
        out
    }
}

} // verus!
