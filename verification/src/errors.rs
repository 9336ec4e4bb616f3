//! The library's error.

use vstd::prelude::*;

verus! {

/// What went wrong, as a message.
#[derive(Debug)]
pub enum Error {
    Unknown(String),
}

/// An error with the given message.
pub open spec fn error_with(e: Error, message: Seq<char>) -> bool {
    match e {
        Error::Unknown(m) => m@ == message,
    }
}

impl Error {
    /// The message.
    pub fn message(&self) -> (m: &str)
        ensures
            error_with(*self, m@),
    {
        match self {
            Error::Unknown(m) => m.as_str(),
        }
    }
}

} // verus!

verus! {

/// The result of the library's fallible operations.
pub type Result<T> = std::result::Result<T, Error>;

} // verus!
