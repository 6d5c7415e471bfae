//! Task-bounty escrow between a sponsor and a worker: a registry that hands out
//! bounty ids, one record and one custody vault per bounty, and the five
//! lifecycle transitions that move a bounty from `Open` to `Claimed`.
//!
//! Every instruction takes the accounts it touches and the ledger's clock
//! reading `now`, and either applies all of its effects or none of them.
pub mod error;
pub mod events;
pub mod identity;
pub mod instructions;
pub mod laws;
pub mod ledger;
pub mod state;

pub use error::BountyError;
pub use events::{
    BountyAcceptedEvent, BountyCancelledEvent, BountyClaimedEvent, BountyConfirmedEvent,
    BountyCreatedEvent, BountySubmittedEvent,
};
pub use identity::Identity;
pub use ledger::{BountyRecord, Ledger};
pub use instructions::accept_bounty::AcceptBounty;
pub use instructions::claim_bounty::ClaimBounty;
pub use instructions::confirm_bounty::ConfirmBounty;
pub use instructions::create_bounty::CreateBounty;
pub use instructions::initialize::Initialize;
pub use instructions::submit_bounty::SubmitBounty;
pub use state::{Bounty, BountyManager, BountyStatus, Vault, Wallet};

use vstd::prelude::*;
use instructions::accept_bounty::accept_post;
use instructions::claim_bounty::claim_post;
use instructions::confirm_bounty::confirm_post;
use instructions::create_bounty::create_post;
use instructions::submit_bounty::submit_post;

verus! {

/// Sets up the registry; the first bounty gets id 1.
pub fn initialize(ctx: &Initialize) -> (r: BountyManager)
    ensures
        r.authority == ctx.authority,
        r.next_bounty_id == 1,
        r.bump == ctx.bump,
{
    instructions::initialize::handler(ctx)
}

/// Creates a bounty and escrows `amount` in its vault.
pub fn create_bounty(
    ctx: &mut CreateBounty,
    task_id: String,
    task_url: String,
    task_hash: [u8; 32],
    amount: u64,
    now: i64,
) -> (r: Result<(Bounty, BountyCreatedEvent), BountyError>)
    ensures
        create_post(*old(ctx), *final(ctx), task_id, task_url, task_hash, amount, now, r),
{
    instructions::create_bounty::handler(ctx, task_id, task_url, task_hash, amount, now)
}

/// The sponsor assigns `worker` to an open bounty.
pub fn accept_bounty(ctx: &mut AcceptBounty, worker: Identity, now: i64) -> (r: Result<
    BountyAcceptedEvent,
    BountyError,
>)
    ensures
        accept_post(*old(ctx), *final(ctx), worker, now, r),
{
    instructions::accept_bounty::handler(ctx, worker, now)
}

/// The worker hands in the work of an accepted bounty.
pub fn submit_bounty(ctx: &mut SubmitBounty, submission_url: String, now: i64) -> (r: Result<
    BountySubmittedEvent,
    BountyError,
>)
    ensures
        submit_post(*old(ctx), *final(ctx), submission_url, now, r),
{
    instructions::submit_bounty::handler(ctx, submission_url, now)
}

/// The sponsor approves the submitted work.
pub fn confirm_bounty(ctx: &mut ConfirmBounty, now: i64) -> (r: Result<
    BountyConfirmedEvent,
    BountyError,
>)
    ensures
        confirm_post(*old(ctx), *final(ctx), now, r),
{
    instructions::confirm_bounty::handler(ctx, now)
}

/// The worker is paid the escrowed amount of a confirmed bounty.
pub fn claim_bounty(ctx: &mut ClaimBounty, now: i64) -> (r: Result<BountyClaimedEvent, BountyError>)
    ensures
        claim_post(*old(ctx), *final(ctx), now, r),
{
    instructions::claim_bounty::handler(ctx, now)
}

} // verus!
