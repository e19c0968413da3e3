//! The failures that the engine reports.

use vstd::prelude::*;

verus! {

/// Why a call to the engine failed. A failed call leaves the state as it
/// found it.
#[derive(Clone, Copy, Debug, PartialEq, Eq, Structural)]
pub enum StateError {
    /// The backing store could not be read or written. The engine works on
    /// state in memory and never raises this itself; it is the slot through
    /// which the layer that persists the state reports its own faults.
    StorageFailure,
    /// A counter would leave its numeric range.
    ArithmeticOverflow,
    /// The caster of a vote is not an accredited member.
    NotAccredited,
    /// The applicant is an accredited member already.
    AlreadyAccredited,
    /// The applicant has a pending application already.
    DuplicateApplication,
    /// The identity is neither an accredited member nor an applicant.
    UnknownReviewer,
    /// No application for accreditation is pending for the candidate.
    UnknownCandidate,
    /// No content submission is pending under the identifier.
    UnknownContent,
    /// No asset submission is pending under the collection.
    UnknownAsset,
    /// The caster has voted on this application before.
    AlreadyVoted,
}

impl StateError {
    /// The text that describes this failure.
    pub open spec fn spec_message(self) -> Seq<char> {
        match self {
            StateError::StorageFailure => "View error"@,
            StateError::ArithmeticOverflow => "Arithmetic error"@,
            StateError::NotAccredited => "Not accredited"@,
            StateError::AlreadyAccredited => "Already accredited"@,
            StateError::DuplicateApplication => "Application already pending"@,
            StateError::UnknownReviewer => "Invalid account"@,
            StateError::UnknownCandidate => "Invalid candidate"@,
            StateError::UnknownContent => "Invalid content"@,
            StateError::UnknownAsset => "Invalid asset"@,
            StateError::AlreadyVoted => "Already reviewed"@,
        }
    }

    /// The text that describes this failure, for display.
    pub fn message(&self) -> (text: String)
        ensures
            text@ == self.spec_message(),
    {
        match self {
            StateError::StorageFailure => "View error".to_owned(),
            StateError::ArithmeticOverflow => "Arithmetic error".to_owned(),
            StateError::NotAccredited => "Not accredited".to_owned(),
            StateError::AlreadyAccredited => "Already accredited".to_owned(),
            StateError::DuplicateApplication => "Application already pending".to_owned(),
            StateError::UnknownReviewer => "Invalid account".to_owned(),
            StateError::UnknownCandidate => "Invalid candidate".to_owned(),
            StateError::UnknownContent => "Invalid content".to_owned(),
            StateError::UnknownAsset => "Invalid asset".to_owned(),
            StateError::AlreadyVoted => "Already reviewed".to_owned(),
        }
    }
}

} // verus!
