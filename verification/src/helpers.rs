//! Small shared helpers: borrowing a batch of optional values, and turning a panic into a query
//! error.

use vstd::prelude::*;
use crate::error::{DuckError, duck_error_owned};

verus! {

/// Turns `[Option<T>]` into `Vec<Option<&T>>`, used to write a batch of values by reference.
pub fn vec_option_to_ref<T>(vec: &[Option<T>]) -> (r: Vec<Option<&T>>)
    ensures
        r@.len() == vec@.len(),
        forall|i: int| 0 <= i < vec@.len() ==> #[trigger] r@[i] == match &vec@[i] {
            Some(x) => Some(x),
            None => None::<&T>,
        },
{
    let mut out: Vec<Option<&T>> = Vec::new();
    let mut i: usize = 0;
    while i < vec.len()
        invariant
            0 <= i <= vec@.len(),
            out@.len() == i,
            forall|j: int| 0 <= j < i ==> #[trigger] out@[j] == match &vec@[j] {
                Some(x) => Some(x),
                None => None::<&T>,
            },
        decreases vec@.len() - i,
    {
        out.push(vec[i].as_ref());
        i = i + 1;
    }
    out
}

/// What a caught panic carried.
#[derive(Debug)]
pub enum PanicPayload {
    /// A text (a `&str` or `String` payload, as `panic!` with a message gives).
    Text(String),
    /// Anything else.
    Other,
}

/// The message of a caught panic: its text, or `unknown panic` for any other payload.
pub open spec fn panic_message(p: PanicPayload) -> Seq<char> {
    match p {
        PanicPayload::Text(t) => t@,
        PanicPayload::Other => "unknown panic"@,
    }
}

/// Converts a panic payload into a string: a text payload gives its text, anything else
/// `"unknown panic"`.
pub fn panic_to_string(payload: PanicPayload) -> (s: String)
    ensures
        s@ == panic_message(payload),
{
    match payload {
        PanicPayload::Text(t) => t,
        PanicPayload::Other => String::from_str("unknown panic"),
    }
}

/// Converts a panic payload into a query error carrying its message.
pub fn panic_to_duck_error(payload: PanicPayload) -> (e: DuckError)
    ensures
        e.spec_message() == panic_message(payload),
{
    duck_error_owned(panic_to_string(payload))
}

} // verus!
