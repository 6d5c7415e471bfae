//! The ways in which an instruction can fail.
use vstd::prelude::*;

verus! {

/// Why an instruction was refused. A refused instruction changes nothing.
#[derive(Clone, Copy, Debug, PartialEq, Eq, Structural)]
pub enum BountyError {
    /// The bounty is not in the status that the instruction starts from.
    InvalidBountyStatus,
    /// The caller is not the bounty's sponsor.
    UnauthorizedSponsor,
    /// The caller is not the bounty's worker.
    UnauthorizedWorker,
    /// Reserved: no instruction returns it.
    BountyAlreadyAccepted,
    /// Reserved: no instruction returns it.
    WorkNotSubmitted,
    /// Reserved: no instruction returns it.
    WorkNotConfirmed,
    /// A bounty was asked for with an amount of zero.
    InvalidAmount,
    /// The task id is longer than its cap in bytes.
    TaskIdTooLong,
    /// The task url is longer than its cap in bytes.
    TaskUrlTooLong,
    /// The submission url is longer than its cap in bytes.
    SubmissionUrlTooLong,
    /// The id counter, or a balance that receives funds, would wrap.
    ArithmeticOverflow,
    /// Reserved: no instruction returns it.
    UnauthorizedAuthority,
    /// The paying account holds less than the amount to move.
    InsufficientFunds,
    /// No bounty has the given id.
    BountyNotFound,
}

impl BountyError {
    /// The message that an observer is shown for this error.
    pub fn message(&self) -> (r: &'static str) {
        match self {
            BountyError::InvalidBountyStatus => "Invalid bounty status for this operation",
            BountyError::UnauthorizedSponsor => "Only the sponsor can perform this action",
            BountyError::UnauthorizedWorker => "Only the worker can perform this action",
            BountyError::BountyAlreadyAccepted => "Bounty has already been accepted by another worker",
            BountyError::WorkNotSubmitted => "Worker has not submitted work yet",
            BountyError::WorkNotConfirmed => "Work has not been confirmed by sponsor",
            BountyError::InvalidAmount => "Bounty amount must be greater than zero",
            BountyError::TaskIdTooLong => "Task ID exceeds maximum length",
            BountyError::TaskUrlTooLong => "Task URL exceeds maximum length",
            BountyError::SubmissionUrlTooLong => "Submission URL exceeds maximum length",
            BountyError::ArithmeticOverflow => "Arithmetic overflow occurred",
            BountyError::UnauthorizedAuthority => "Unauthorized authority",
            BountyError::InsufficientFunds => "Insufficient funds for transfer",
            BountyError::BountyNotFound => "No bounty has this id",
        }
    }
}

} // verus!
