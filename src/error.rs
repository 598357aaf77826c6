//! Error types of the pool.
use vstd::prelude::*;

verus! {

/// An error carrying a human-readable message.
#[derive(Debug)]
pub struct TesserocrError(pub String);

impl TesserocrError {
    /// Wraps a message.
    pub fn new(message: String) -> (r: TesserocrError)
        ensures
            r.0@ == message@,
    {
        TesserocrError(message)
    }

    /// Builds the error from a string slice.
    pub fn from_message(message: &str) -> (r: TesserocrError)
        ensures
            r.0@ == message@,
    {
        TesserocrError(message.to_string())
    }

    /// The message.
    pub fn message(&self) -> (r: &str)
        ensures
            r@ == self.0@,
    {
        self.0.as_str()
    }

    /// A copy holding the same message.
    pub fn to_owned(&self) -> (r: TesserocrError)
        ensures
            r.0@ == self.0@,
    {
        TesserocrError(self.0.clone())
    }
}

impl From<String> for TesserocrError {
    fn from(value: String) -> (r: TesserocrError)
        ensures
            r.0@ == value@,
    {
        TesserocrError(value)
    }
}

impl vstd::std_specs::convert::FromSpecImpl<String> for TesserocrError {
    open spec fn obeys_from_spec() -> bool {
        true
    }

    open spec fn from_spec(v: String) -> TesserocrError {
        TesserocrError(v)
    }
}

} // verus!
