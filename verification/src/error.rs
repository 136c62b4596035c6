//! The error type of the library.
use vstd::prelude::*;

verus! {

/// An error raised while enumerating or filtering capturable content.
#[derive(Debug, PartialEq, Eq)]
pub enum CapturableContentError {
    /// Any failure, described by a message.
    Other(String),
}

impl CapturableContentError {
    /// The characters of the message that describes this error.
    pub open spec fn message_view(&self) -> Seq<char> {
        match self {
            CapturableContentError::Other(m) => m@,
        }
    }

    /// The message that describes this error.
    pub fn message(&self) -> (m: &String)
        ensures
            m@ == self.message_view(),
    {
        match self {
            CapturableContentError::Other(m) => m,
        }
    }
}

} // verus!
