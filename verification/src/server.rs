//! What the server answers when something went wrong.

use crate::deno::loader::{spec_loader_message, LoaderError};
use crate::deno::runtime::{spec_message, RuntimeError};
use crate::invoker::{spec_invoker_message, InvokerError};
use crate::utils::{str_eq, text_view};
use vstd::prelude::*;
use vstd::string::*;

verus! {

/// An error as the API reports it: nothing but what it says.
#[derive(Debug)]
pub struct Error {
    pub message: String,
}

impl Error {
    /// An error that says `message`.
    pub fn new(message: &str) -> (error: Error)
        ensures
            error.message@ == message@,
    {
        Error { message: message.to_owned() }
    }

    /// The report of a loader's failure: what the failure says of itself.
    pub fn from_loader(error: &LoaderError) -> (report: Error)
        ensures
            report.message@ == spec_loader_message(error@),
    {
        Error { message: error.message() }
    }

    /// The report of a runtime's failure: what the failure says of itself.
    pub fn from_runtime(error: &RuntimeError) -> (report: Error)
        ensures
            report.message@ == spec_message(error@),
    {
        Error { message: error.message() }
    }

    /// The report of an invoker's failure: what the failure says of itself.
    pub fn from_invoker(error: &InvokerError) -> (report: Error)
        ensures
            report.message@ == spec_invoker_message(error@),
    {
        Error { message: error.message() }
    }

    /// What the error says.
    pub fn to_text(&self) -> (text: String)
        ensures
            text == self.message,
    {
        self.message.clone()
    }
}

/// Why a request is not let in.
#[derive(Clone, Copy, Debug, PartialEq, Eq, Structural)]
pub enum AuthError {
    /// The request has no `Authorization` header.
    Unauthorized,
    /// The header does not read `Bearer`, a space, and a token.
    MissingScheme,
}

impl AuthError {
    /// What the error says of itself.
    pub fn message(&self) -> (text: &'static str)
        ensures
            text@ == match self {
                AuthError::Unauthorized => "unauthorized"@,
                AuthError::MissingScheme => "Missing scheme in Authorization header."@,
            },
    {
        match self {
            AuthError::Unauthorized => "unauthorized",
            AuthError::MissingScheme => "Missing scheme in Authorization header.",
        }
    }
}

/// What opens the header of a request that carries a key of the API.
pub open spec fn bearer_prefix() -> Seq<char> {
    "Bearer "@
}

/// The API key that an `Authorization` header carries: what follows the
/// scheme `Bearer` and the one space behind it.
pub open spec fn spec_bearer_token(header: Option<Seq<char>>) -> Result<Seq<char>, AuthError> {
    match header {
        None => Err(AuthError::Unauthorized),
        Some(text) => if text.len() >= 7 && text.subrange(0, 7) == bearer_prefix() {
            Ok(text.subrange(7, text.len() as int))
        } else {
            Err(AuthError::MissingScheme)
        },
    }
}

/// The API key that the `Authorization` header of a request carries.
pub fn bearer_token(header: Option<&str>) -> (token: Result<String, AuthError>)
    ensures
        match token {
            Ok(key) => spec_bearer_token(text_view(header)) == Ok::<
                Seq<char>,
                AuthError,
            >(key@),
            Err(error) => spec_bearer_token(text_view(header)) == Err::<
                Seq<char>,
                AuthError,
            >(error),
        },
{
    match header {
        None => Err(AuthError::Unauthorized),
        Some(text) => {
            let len: usize = text.unicode_len();
            if len >= 7 && str_eq(text.substring_char(0, 7), "Bearer ") {
                Ok(text.substring_char(7, len).to_owned())
            } else {
                Err(AuthError::MissingScheme)
            }
        },
    }
}

} // verus!
