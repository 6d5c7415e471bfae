//! What each successful instruction reports to outside observers.
use vstd::prelude::*;
use crate::identity::Identity;

verus! {

/// Reported when a bounty is created.
#[derive(Debug)]
pub struct BountyCreatedEvent {
    pub bounty_id: u64,
    pub task_id: String,
    pub task_url: String,
    pub task_hash: [u8; 32],
    pub sponsor: Identity,
    pub amount: u64,
    pub asset: Identity,
    pub timestamp: i64,
}

/// Reported when the sponsor assigns a worker.
#[derive(Clone, Copy, Debug)]
pub struct BountyAcceptedEvent {
    pub bounty_id: u64,
    pub worker: Identity,
    pub accepted_at: i64,
}

/// Reported when the worker hands in the work.
#[derive(Debug)]
pub struct BountySubmittedEvent {
    pub bounty_id: u64,
    pub submission_url: String,
    pub submitted_at: i64,
}

/// Reported when the sponsor approves the work.
#[derive(Clone, Copy, Debug)]
pub struct BountyConfirmedEvent {
    pub bounty_id: u64,
    pub confirmed_at: i64,
}

/// Reported when the worker is paid.
#[derive(Clone, Copy, Debug)]
pub struct BountyClaimedEvent {
    pub bounty_id: u64,
    pub worker: Identity,
    pub amount: u64,
    pub claimed_at: i64,
}

/// Declared for a cancellation that no instruction performs.
#[derive(Clone, Copy, Debug)]
pub struct BountyCancelledEvent {
    pub bounty_id: u64,
    pub sponsor: Identity,
    pub cancelled_at: i64,
}

} // verus!
