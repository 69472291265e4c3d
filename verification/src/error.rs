//! Errors reported by the library.
use vstd::prelude::*;

verus! {

/// The errors a fuzzer component can report.
#[derive(Debug, Clone)]
pub enum Error {
    /// An argument was not acceptable.
    IllegalArgument(String),
    /// The component is not in a state that allows the operation.
    IllegalState(String),
    /// A key (for instance a testcase id) was not found.
    KeyNotFound(String),
    /// Something that should hold elements was empty.
    Empty(String),
    /// The operation is not supported by this component.
    Unsupported(String),
    /// The corpus does not suit the operation.
    InvalidCorpus(String),
    /// Something went wrong for a reason the library cannot tell apart.
    Unknown(String),
    /// A failure while running the target.
    Runtime(String),
}

impl Error {
    /// Whether this is an [`Error::IllegalArgument`].
    pub fn is_illegal_argument(&self) -> (r: bool)
        ensures
            r == (self is IllegalArgument),
    {
        matches!(self, Error::IllegalArgument(_))
    }

    /// Whether this is an [`Error::IllegalState`].
    pub fn is_illegal_state(&self) -> (r: bool)
        ensures
            r == (self is IllegalState),
    {
        matches!(self, Error::IllegalState(_))
    }

    /// Whether this is an [`Error::KeyNotFound`].
    pub fn is_key_not_found(&self) -> (r: bool)
        ensures
            r == (self is KeyNotFound),
    {
        matches!(self, Error::KeyNotFound(_))
    }

    /// Whether this is an [`Error::Empty`].
    pub fn is_empty_error(&self) -> (r: bool)
        ensures
            r == (self is Empty),
    {
        matches!(self, Error::Empty(_))
    }

    /// Whether this is an [`Error::Unsupported`].
    pub fn is_unsupported(&self) -> (r: bool)
        ensures
            r == (self is Unsupported),
    {
        matches!(self, Error::Unsupported(_))
    }
}

} // verus!
