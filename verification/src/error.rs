//! The single failure type of the library.
//!
//! Every fallible operation reports failure as an `Error` carrying a
//! human-readable message; no codes or chained causes are modeled.

use vstd::prelude::*;

verus! {

/// A uniform error carrying a human-readable message.
#[derive(Debug)]
pub struct Error {
    message: String,
}

impl View for Error {
    type V = Seq<char>;

    closed spec fn view(&self) -> Seq<char> {
        self.message@
    }
}

impl Error {
    /// Builds an error from a message string.
    pub fn new(message: &str) -> (e: Error)
        ensures
            e@ == message@,
    {
        Error { message: message.to_owned() }
    }

    /// The message the error was built from.
    pub fn message(&self) -> (m: &str)
        ensures
            m@ == self@,
    {
        self.message.as_str()
    }
}

} // verus!
