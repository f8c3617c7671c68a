//! The one error vocabulary shared by the template engine, the resolver,
//! the provider clients and the output layer.

use crate::text::{concat_str, decimal, push_decimal, push_str, string_of};
use vstd::prelude::*;

verus! {

/// Everything that can go wrong, each kind with its human-readable detail.
#[derive(Debug)]
pub enum RephraserError {
    /// The configuration cannot be used as it stands.
    Config(String),
    /// No action of the requested name is registered; carries that name.
    ActionNotFound(String),
    /// The provider answered with success but without usable content.
    Api(String),
    /// The provider rejected the credential.
    Auth(String),
    /// The provider throttled the request.
    RateLimit(String),
    /// The provider rejected the shape or the parameters of the request.
    BadRequest(String),
    /// The provider failed on its side, or answered with a status that has no kind of its own.
    ServiceError(String),
    /// The provider could not be reached, or its answer could not be read.
    Network(String),
    /// Reading or writing a file failed.
    Io(String),
    /// A JSON document could not be written or read.
    Serialization(String),
    /// A TOML document could not be read.
    Toml(String),
    /// The input text is longer than allowed.
    InputTooLong { max: usize, actual: usize },
    /// A template still names unbound variables after substitution.
    InvalidTemplate(String),
    /// The result could not be delivered.
    Output(String),
    /// Anything else.
    Other(String),
}

/// An error as a mathematical value: its kind, with the detail as a character sequence.
pub enum ErrorView {
    Config(Seq<char>),
    ActionNotFound(Seq<char>),
    Api(Seq<char>),
    Auth(Seq<char>),
    RateLimit(Seq<char>),
    BadRequest(Seq<char>),
    ServiceError(Seq<char>),
    Network(Seq<char>),
    Io(Seq<char>),
    Serialization(Seq<char>),
    Toml(Seq<char>),
    InputTooLong { max: nat, actual: nat },
    InvalidTemplate(Seq<char>),
    Output(Seq<char>),
    Other(Seq<char>),
}

impl ErrorView {
    /// The line shown to the user for this error.
    pub open spec fn message(self) -> Seq<char> {
        match self {
            ErrorView::Config(d) => "Configuration error: "@ + d,
            ErrorView::ActionNotFound(n) => "Action '"@ + n + "' not found"@,
            ErrorView::Api(d) => "LLM API error: "@ + d,
            ErrorView::Auth(d) => d,
            ErrorView::RateLimit(d) => d,
            ErrorView::BadRequest(d) => d,
            ErrorView::ServiceError(d) => d,
            ErrorView::Network(d) => "Network error: "@ + d,
            ErrorView::Io(d) => "IO error: "@ + d,
            ErrorView::Serialization(d) => "Serialization error: "@ + d,
            ErrorView::Toml(d) => "TOML error: "@ + d,
            ErrorView::InputTooLong { max, actual } => "Input too long (max "@ + decimal(max)
                + " characters, got "@ + decimal(actual) + ")"@,
            ErrorView::InvalidTemplate(d) => "Invalid template: "@ + d,
            ErrorView::Output(d) => d,
            ErrorView::Other(d) => d,
        }
    }
}

impl View for RephraserError {
    type V = ErrorView;

    open spec fn view(&self) -> ErrorView {
        match self {
            RephraserError::Config(d) => ErrorView::Config(d@),
            RephraserError::ActionNotFound(n) => ErrorView::ActionNotFound(n@),
            RephraserError::Api(d) => ErrorView::Api(d@),
            RephraserError::Auth(d) => ErrorView::Auth(d@),
            RephraserError::RateLimit(d) => ErrorView::RateLimit(d@),
            RephraserError::BadRequest(d) => ErrorView::BadRequest(d@),
            RephraserError::ServiceError(d) => ErrorView::ServiceError(d@),
            RephraserError::Network(d) => ErrorView::Network(d@),
            RephraserError::Io(d) => ErrorView::Io(d@),
            RephraserError::Serialization(d) => ErrorView::Serialization(d@),
            RephraserError::Toml(d) => ErrorView::Toml(d@),
            RephraserError::InputTooLong { max, actual } => ErrorView::InputTooLong {
                max: *max as nat,
                actual: *actual as nat,
            },
            RephraserError::InvalidTemplate(d) => ErrorView::InvalidTemplate(d@),
            RephraserError::Output(d) => ErrorView::Output(d@),
            RephraserError::Other(d) => ErrorView::Other(d@),
        }
    }
}

/// What a fallible text-producing operation came to, as a mathematical value.
pub open spec fn outcome(r: Result<String, RephraserError>) -> Result<Seq<char>, ErrorView> {
    match r {
        Ok(s) => Ok(s@),
        Err(e) => Err(e@),
    }
}

impl RephraserError {
    /// The line shown to the user for this error.
    pub fn message(&self) -> (out: String)
        ensures
            out@ == self@.message(),
    {
        match self {
            RephraserError::Config(d) => concat_str("Configuration error: ", d.as_str()),
            RephraserError::ActionNotFound(n) => {
                let mut buf: Vec<char> = Vec::new();
                push_str(&mut buf, "Action '");
                push_str(&mut buf, n.as_str());
                push_str(&mut buf, "' not found");
                string_of(&buf)
            },
            RephraserError::Api(d) => concat_str("LLM API error: ", d.as_str()),
            RephraserError::Auth(d) => d.clone(),
            RephraserError::RateLimit(d) => d.clone(),
            RephraserError::BadRequest(d) => d.clone(),
            RephraserError::ServiceError(d) => d.clone(),
            RephraserError::Network(d) => concat_str("Network error: ", d.as_str()),
            RephraserError::Io(d) => concat_str("IO error: ", d.as_str()),
            RephraserError::Serialization(d) => concat_str("Serialization error: ", d.as_str()),
            RephraserError::Toml(d) => concat_str("TOML error: ", d.as_str()),
            RephraserError::InputTooLong { max, actual } => {
                let mut buf: Vec<char> = Vec::new();
                push_str(&mut buf, "Input too long (max ");
                push_decimal(&mut buf, *max);
                push_str(&mut buf, " characters, got ");
                push_decimal(&mut buf, *actual);
                push_str(&mut buf, ")");
                string_of(&buf)
            },
            RephraserError::InvalidTemplate(d) => concat_str("Invalid template: ", d.as_str()),
            RephraserError::Output(d) => d.clone(),
            RephraserError::Other(d) => d.clone(),
        }
    }
}

} // verus!
