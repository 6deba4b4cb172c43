//! The ways in which an input can be malformed.

use vstd::prelude::*;

verus! {

/// A malformed input. Nothing is computed from such an input: the operation
/// that meets it reports it and leaves its output untouched.
#[derive(Clone, Copy, Debug, PartialEq, Eq, Structural)]
pub enum ValidationError {
    /// A buffer of interleaved I/Q values holds an odd number of values.
    OddLength,
    /// A buffer does not have the length that the operation expects.
    SizeMismatch,
    /// A value does not fit the machine type that has to carry it.
    OutOfRange,
    /// The sweep would never advance: half the bandwidth is less than 1 Hz.
    ZeroStep,
    /// An event arrived that does not answer the pending request.
    UnexpectedEvent,
    /// A series has no range to scale by: no two of its finite values differ.
    Flat,
}

impl ValidationError {
    /// The description of this error, as text.
    pub open spec fn text(self) -> Seq<char> {
        match self {
            ValidationError::OddLength => "odd number of values in an I/Q buffer"@,
            ValidationError::SizeMismatch => "buffer length differs from the expected size"@,
            ValidationError::OutOfRange => "value out of range"@,
            ValidationError::ZeroStep => "bandwidth too narrow to step the sweep"@,
            ValidationError::UnexpectedEvent => "event does not answer the pending request"@,
            ValidationError::Flat => "series has no range to scale by"@,
        }
    }

    /// Returns the description of this error.
    pub fn message(&self) -> (description: String)
        ensures
            description@ == self.text(),
    {
        match self {
            ValidationError::OddLength => "odd number of values in an I/Q buffer".to_owned(),
            ValidationError::SizeMismatch => "buffer length differs from the expected size".to_owned(),
            ValidationError::OutOfRange => "value out of range".to_owned(),
            ValidationError::ZeroStep => "bandwidth too narrow to step the sweep".to_owned(),
            ValidationError::UnexpectedEvent => "event does not answer the pending request".to_owned(),
            ValidationError::Flat => "series has no range to scale by".to_owned(),
        }
    }
}

} // verus!
