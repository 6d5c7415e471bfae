//! The records that the program keeps: the registry, one bounty record per id,
//! and the accounts that hold funds.
use vstd::prelude::*;
use vstd::utf8::encode_utf8;
use crate::identity::Identity;

verus! {

/// Length in bytes of a string once stored, as the ledger counts it.
pub open spec fn byte_len(s: Seq<char>) -> nat {
    encode_utf8(s).len()
}

/// The registry: the managing authority and the next id to hand out.
#[derive(Clone, Copy, Debug)]
pub struct BountyManager {
    /// Authority who set the registry up.
    pub authority: Identity,
    /// The id that the next bounty receives; starts at 1.
    pub next_bounty_id: u64,
    /// Address-derivation nonce of the registry's record.
    pub bump: u8,
}

impl BountyManager {
    /// Stored size of the registry: tag, authority, counter, nonce.
    pub const LEN: usize = 8 + 32 + 8 + 1;
}

/// Where a bounty stands in its lifecycle.
#[derive(Clone, Copy, Debug, PartialEq, Eq, Structural)]
pub enum BountyStatus {
    /// Created and funded, waiting for a worker.
    Open,
    /// A worker has been assigned.
    Accepted,
    /// The worker has handed in the work.
    Submitted,
    /// The sponsor has approved the work.
    Confirmed,
    /// The worker has been paid.
    Claimed,
    /// Declared for a cancellation that no instruction performs.
    Cancelled,
}

/// The position of a status along `Open → Accepted → Submitted → Confirmed → Claimed`.
pub open spec fn stage(s: BountyStatus) -> int {
    match s {
        BountyStatus::Open => 0,
        BountyStatus::Accepted => 1,
        BountyStatus::Submitted => 2,
        BountyStatus::Confirmed => 3,
        BountyStatus::Claimed => 4,
        BountyStatus::Cancelled => 5,
    }
}

/// One bounty.
#[derive(Debug)]
pub struct Bounty {
    /// Id handed out by the registry.
    pub bounty_id: u64,
    /// Task identifier, at most `MAX_TASK_ID_LEN` bytes.
    pub task_id: String,
    /// Task url, at most `MAX_TASK_URL_LEN` bytes.
    pub task_url: String,
    /// Digest of the task description.
    pub task_hash: [u8; 32],
    /// The party that funds the bounty.
    pub sponsor: Identity,
    /// The party that does the task; the system program until one is assigned.
    pub worker: Identity,
    /// Escrowed amount, in the native currency's smallest unit.
    pub amount: u64,
    /// The asset paid; the system program stands for the native currency.
    pub asset: Identity,
    pub status: BountyStatus,
    pub created_at: i64,
    pub accepted_at: i64,
    pub submitted_at: i64,
    /// Where the work was handed in, at most `MAX_SUBMISSION_URL_LEN` bytes.
    pub submission_url: String,
    pub confirmed_at: i64,
    pub claimed_at: i64,
    /// Address-derivation nonce of the record.
    pub bump: u8,
}

impl Bounty {
    pub const MAX_TASK_ID_LEN: usize = 200;
    pub const MAX_TASK_URL_LEN: usize = 500;
    pub const MAX_SUBMISSION_URL_LEN: usize = 500;

    /// Stored size of a record, with each string at its cap.
    pub const LEN: usize = 8 + 8 + 4 + 200 + 4 + 500 + 32 + 32 + 32 + 8 + 32 + 1 + 8 + 8 + 8
        + 4 + 500 + 8 + 8 + 1;

    /// The record's strings are within their caps and its amount is positive.
    pub open spec fn wf(&self) -> bool {
        &&& byte_len(self.task_id@) <= Self::MAX_TASK_ID_LEN
        &&& byte_len(self.task_url@) <= Self::MAX_TASK_URL_LEN
        &&& byte_len(self.submission_url@) <= Self::MAX_SUBMISSION_URL_LEN
        &&& self.amount > 0
    }
}

/// The custody account of one bounty. Only the claim instruction moves funds out.
#[derive(Clone, Copy, Debug)]
pub struct Vault {
    pub balance: u64,
}

/// An account of a party that signs an instruction, with the funds it holds.
#[derive(Clone, Copy, Debug)]
pub struct Wallet {
    pub key: Identity,
    pub lamports: u64,
}

} // verus!
