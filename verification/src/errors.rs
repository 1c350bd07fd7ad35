//! The failures that storing and hook handling can report.

use vstd::prelude::*;

verus! {

/// A failure, by the layer it arose in, with its message.
#[derive(Clone, Debug, PartialEq, Eq)]
pub enum Error {
    /// A template had bad syntax or named a missing field.
    Template(String),
    /// A hook process could not be started or fed.
    Process(String),
    /// A file could not be opened, read, written or synced.
    Io(String),
    /// Stored bytes could not be converted between encodings.
    Conversion(String),
    /// The platform refused a change of ownership.
    Ownership(String),
}

impl Error {
    /// The message's text.
    pub open spec fn spec_message(self) -> Seq<char> {
        match self {
            Error::Template(m) => m@,
            Error::Process(m) => m@,
            Error::Io(m) => m@,
            Error::Conversion(m) => m@,
            Error::Ownership(m) => m@,
        }
    }

    /// The message's text.
    pub fn message(&self) -> (r: &str)
        ensures
            r@ == self.spec_message(),
    {
        match self {
            Error::Template(m) => m.as_str(),
            Error::Process(m) => m.as_str(),
            Error::Io(m) => m.as_str(),
            Error::Conversion(m) => m.as_str(),
            Error::Ownership(m) => m.as_str(),
        }
    }
}

} // verus!
