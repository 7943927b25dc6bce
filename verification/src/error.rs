//! The error record that a failed operation hands to the foreign runtime.

use vstd::prelude::*;

verus! {

/// An error record: the domain it belongs to, its code within that domain,
/// and a message for people.
#[derive(Debug)]
pub struct Error {
    domain: u32,
    code: i32,
    message: String,
}

/// What an [`Error`] holds, as a mathematical value.
pub struct ErrorContent {
    pub domain: u32,
    pub code: i32,
    pub message: Seq<char>,
}

impl View for Error {
    type V = ErrorContent;

    closed spec fn view(&self) -> ErrorContent {
        ErrorContent { domain: self.domain, code: self.code, message: self.message@ }
    }
}

impl Error {
    /// An error of the given domain and code with the given message.
    pub fn new(domain: u32, code: i32, message: &str) -> (e: Error)
        ensures
            e@ == (ErrorContent { domain, code, message: message@ }),
    {
        Error { domain, code, message: message.to_owned() }
    }

    /// The domain of this error.
    pub fn domain(&self) -> (d: u32)
        ensures
            d == self@.domain,
    {
        self.domain
    }

    /// The code of this error within its domain.
    pub fn code(&self) -> (c: i32)
        ensures
            c == self@.code,
    {
        self.code
    }

    /// The message of this error.
    pub fn message(&self) -> (m: &str)
        ensures
            m@ == self@.message,
    {
        self.message.as_str()
    }
}

} // verus!
