use vstd::prelude::*;

verus! {

/// An account identity (a signer, a wallet, a task's creator).
pub type Pubkey = u64;

/// Longest task identifier, in bytes.
pub const MAX_TASK_ID_LEN: usize = 32;

/// Longest task description, in bytes.
pub const MAX_DESCRIPTION_LEN: usize = 280;

/// Longest submission link, in bytes.
pub const MAX_LINK_LEN: usize = 100;

/// Length in bytes of the UTF-8 encoding of a string.
pub open spec fn byte_len(s: Seq<char>) -> nat {
    vstd::utf8::encode_utf8(s).len()
}

/// One bounty posting, keyed by its creator and `task_id`.
#[derive(Clone, Debug)]
pub struct Task {
    pub task_id: String,
    pub description: String,
    pub creator: Pubkey,
    /// The reward promised at creation (informational).
    pub reward: u64,
    pub start_time: i64,
    pub end_time: i64,
    pub winner: Option<Pubkey>,
    pub submission_count: u32,
}

/// One participant's work entry for a task.
#[derive(Clone, Debug)]
pub struct Submission {
    pub participant: Pubkey,
    /// Creator of the task this entry belongs to.
    pub task_creator: Pubkey,
    /// Identifier of the task this entry belongs to.
    pub task_id: String,
    pub link: String,
}

/// The custody record of one task: it owns the vault that holds the reward.
#[derive(Clone, Debug)]
pub struct Escrow {
    /// The task identifier the record is bound to.
    pub seed: String,
    pub creator: Pubkey,
    /// Balance of the vault owned by this record.
    pub reward_tokens: u64,
    pub start_time: i64,
    pub end_time: i64,
    pub winner: Option<Pubkey>,
}

/// A participant's declared intent to work on a task.
#[derive(Clone, Debug)]
pub struct Participation {
    pub participant: Pubkey,
    pub task_creator: Pubkey,
    pub task_id: String,
    pub status: ParticipationStatus,
}

#[derive(Clone, Copy, Debug, PartialEq, Eq, Structural)]
pub enum ParticipationStatus {
    Accepted,
    Submitted,
    Completed,
}

/// The accounts of a `create_task` call.
#[derive(Clone, Copy, Debug)]
pub struct CreateTask {
    /// Signer; pays the reward into the vault.
    pub creator: Pubkey,
}

/// The accounts of an `accept_task` call.
#[derive(Clone, Copy, Debug)]
pub struct AcceptTask {
    /// Signer.
    pub participant: Pubkey,
    /// Creator of the task, which keys it.
    pub creator: Pubkey,
}

/// The accounts of a `submit_work` call.
#[derive(Clone, Copy, Debug)]
pub struct SubmitWork {
    /// Signer.
    pub participant: Pubkey,
    /// Creator of the task, which keys it.
    pub creator: Pubkey,
}

/// The accounts of a `pick_winner` call.
#[derive(Clone, Copy, Debug)]
pub struct PickWinner {
    /// Signer; must be the task's creator.
    pub creator: Pubkey,
    /// The participant whose submission wins.
    pub participant: Pubkey,
}

/// The accounts of a `claim_reward` call.
#[derive(Clone, Copy, Debug)]
pub struct ClaimReward {
    /// Signer; receives the vault's balance.
    pub winner: Pubkey,
    /// Creator of the task, which keys it.
    pub creator: Pubkey,
}

/// The accounts of a `refund_escrow` call.
#[derive(Clone, Copy, Debug)]
pub struct RefundEscrow {
    /// Signer; receives the vault's balance.
    pub creator: Pubkey,
}

/// The accounts of a `close_task` call.
#[derive(Clone, Copy, Debug)]
pub struct CloseTask {
    /// Signer; must be the task's creator.
    pub creator: Pubkey,
}

} // verus!
