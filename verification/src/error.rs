//! The library's error type.
use vstd::prelude::*;

use crate::text::{copy_str, push_str};

verus! {

/// Every failure the library reports.
#[derive(Debug)]
pub enum ConfluenceCliError {
    /// Invalid configuration or arguments; the message says which.
    Config(String),
    /// A feature that is not available yet.
    NotImplemented(String),
    /// Text that is neither a numeric page id nor an http(s) URL.
    InvalidPageRef(String),
    /// A failed HTTP exchange, with the transport's description.
    Http(String),
    /// A failed local read or write, with the system's description.
    Io(String),
}

/// The result type used throughout the library.
pub type Result<T> = core::result::Result<T, ConfluenceCliError>;

/// A configuration error carrying the given message.
pub open spec fn is_config_error<T>(r: Result<T>, msg: Seq<char>) -> bool {
    r matches Err(ConfluenceCliError::Config(m)) && m@ == msg
}

/// A configuration error with the message `msg`.
pub fn config_error(msg: &str) -> (e: ConfluenceCliError)
    ensures
        e matches ConfluenceCliError::Config(m) && m@ == msg@,
{
    ConfluenceCliError::Config(copy_str(msg))
}

/// The human-readable description of an error: a configuration error's own message,
/// any other prefixed with its kind.
pub open spec fn spec_message(e: ConfluenceCliError) -> Seq<char> {
    match e {
        ConfluenceCliError::Config(m) => m@,
        ConfluenceCliError::NotImplemented(m) => "not implemented: "@ + m@,
        ConfluenceCliError::InvalidPageRef(m) => "invalid page reference: "@ + m@,
        ConfluenceCliError::Http(m) => "http error: "@ + m@,
        ConfluenceCliError::Io(m) => "io error: "@ + m@,
    }
}

impl ConfluenceCliError {
    /// The human-readable description of the error.
    pub fn message(&self) -> (s: String)
        ensures
            s@ == spec_message(*self),
    {
        match self {
            ConfluenceCliError::Config(m) => m.clone(),
            ConfluenceCliError::NotImplemented(m) => {
                let mut s = copy_str("not implemented: ");
                push_str(&mut s, m.as_str());
                s
            },
            ConfluenceCliError::InvalidPageRef(m) => {
                let mut s = copy_str("invalid page reference: ");
                push_str(&mut s, m.as_str());
                s
            },
            ConfluenceCliError::Http(m) => {
                let mut s = copy_str("http error: ");
                push_str(&mut s, m.as_str());
                s
            },
            ConfluenceCliError::Io(m) => {
                let mut s = copy_str("io error: ");
                push_str(&mut s, m.as_str());
                s
            },
        }
    }
}

} // verus!
