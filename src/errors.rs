use vstd::prelude::*;

verus! {

/// Why an operation was rejected. A rejected operation changes nothing.
#[derive(Clone, Copy, Debug, PartialEq, Eq, Structural)]
pub enum BountyError {
    /// The operation needs the submission window to be open.
    TaskEnded,
    /// The operation needs the submission window to have closed.
    TaskNotEnded,
    /// The chosen participant has no submission for the task.
    NoSubmissions,
    /// The participant already has a submission for the task.
    AlreadySubmitted,
    /// The caller is not the recorded creator of the task.
    NotCreator,
    /// The winner is already set, or the caller is not the winner.
    InvalidWinner,
    /// Arithmetic overflow, a non-positive duration, or an empty vault.
    EscrowMismatch,
    /// A record to be created already exists under its key.
    AlreadyInUse,
    /// A record the operation works on does not exist.
    AccountMissing,
    /// A string is longer than its record allows.
    InputTooLong,
    /// The token transfer was refused: the payer holds too little, or the
    /// receiver's balance would overflow.
    TransferFailed,
}

impl BountyError {
    /// A short human-readable message for the error.
    pub fn message(&self) -> (r: &'static str)
        ensures
            *self == BountyError::TaskEnded ==> r@ == "Task has ended"@,
            *self == BountyError::TaskNotEnded ==> r@ == "Task not ended yet"@,
            *self == BountyError::NoSubmissions ==> r@ == "No submissions"@,
            *self == BountyError::AlreadySubmitted ==> r@ == "Already submitted"@,
            *self == BountyError::NotCreator ==> r@ == "Not creator"@,
            *self == BountyError::InvalidWinner ==> r@ == "Invalid winner"@,
            *self == BountyError::EscrowMismatch ==> r@ == "Escrow mismatch"@,
            *self == BountyError::AlreadyInUse ==> r@ == "Account already in use"@,
            *self == BountyError::AccountMissing ==> r@ == "Account does not exist"@,
            *self == BountyError::InputTooLong ==> r@ == "Input too long"@,
            *self == BountyError::TransferFailed ==> r@ == "Token transfer failed"@,
    {
        match self {
            BountyError::TaskEnded => "Task has ended",
            BountyError::TaskNotEnded => "Task not ended yet",
            BountyError::NoSubmissions => "No submissions",
            BountyError::AlreadySubmitted => "Already submitted",
            BountyError::NotCreator => "Not creator",
            BountyError::InvalidWinner => "Invalid winner",
            BountyError::EscrowMismatch => "Escrow mismatch",
            BountyError::AlreadyInUse => "Account already in use",
            BountyError::AccountMissing => "Account does not exist",
            BountyError::InputTooLong => "Input too long",
            BountyError::TransferFailed => "Token transfer failed",
        }
    }
}

} // verus!
