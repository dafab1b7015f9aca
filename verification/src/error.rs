//! Failures that an operation of the registry can end in.

use vstd::prelude::*;

verus! {

/// Why an operation was refused. A refused operation has changed nothing.
#[derive(Clone, Copy, Debug, PartialEq, Eq, Structural)]
pub enum SponsorError {
    /// The caller does not hold the tier that the operation asks for.
    AccessDenied,
    /// The operation names a key under which no record is stored.
    UnknownParam,
    /// A key or an encoded record is longer than the store accepts.
    SizeExceeded,
    /// The usage counter of the record cannot be raised any further.
    CountExhausted,
    /// A call to another service did not complete.
    TransportFailure,
}

impl SponsorError {
    /// The reason that the boundary hands to the caller when it aborts the call.
    pub fn reason(&self) -> (text: &'static str)
        ensures
            text@ == reason_text(*self),
    {
        match self {
            SponsorError::AccessDenied => "Access denied",
            SponsorError::UnknownParam => "Param is not defined",
            SponsorError::SizeExceeded => "Size exceeded",
            SponsorError::CountExhausted => "Usage count exhausted",
            SponsorError::TransportFailure => "Transport failure",
        }
    }
}

/// The text that stands for each failure.
pub open spec fn reason_text(error: SponsorError) -> Seq<char> {
    match error {
        SponsorError::AccessDenied => "Access denied"@,
        SponsorError::UnknownParam => "Param is not defined"@,
        SponsorError::SizeExceeded => "Size exceeded"@,
        SponsorError::CountExhausted => "Usage count exhausted"@,
        SponsorError::TransportFailure => "Transport failure"@,
    }
}

} // verus!
