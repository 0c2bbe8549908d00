//! The error carried by every fallible operation of the library: a query error message.

use vstd::prelude::*;

verus! {

/// A query error: the message DuckDB reports for a failed call.
#[derive(Debug)]
pub struct DuckError {
    message: String,
}

/// The result type of the library's fallible operations.
pub type DuckResult<T> = Result<T, DuckError>;

/// A fallible, nullable result; `Ok(None)` stands for SQL NULL.
pub type DuckOptionResult<T> = Result<Option<T>, DuckError>;

impl DuckError {
    /// The message of this error, as the specification sees it.
    pub closed spec fn spec_message(&self) -> Seq<char> {
        self.message@
    }

    /// The message of this error.
    pub fn as_str(&self) -> (s: &str)
        ensures
            s@ == self.spec_message(),
    {
        self.message.as_str()
    }
}

/// Creates an error from a message.
pub fn duck_error(message: &str) -> (e: DuckError)
    ensures
        e.spec_message() == message@,
{
    DuckError { message: message.to_owned() }
}

/// Creates an error that takes ownership of an already built message.
pub fn duck_error_owned(message: String) -> (e: DuckError)
    ensures
        e.spec_message() == message@,
{
    DuckError { message }
}

} // verus!
