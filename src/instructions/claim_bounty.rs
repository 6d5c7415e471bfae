//! Claiming a bounty: the vault pays the full amount to the worker.
use vstd::prelude::*;
use crate::error::BountyError;
use crate::events::BountyClaimedEvent;
use crate::state::{Bounty, BountyStatus, Vault, Wallet};

verus! {

/// The accounts that claiming a bounty touches.
pub struct ClaimBounty {
    pub bounty: Bounty,
    /// The bounty's vault, which pays.
    pub bounty_vault: Vault,
    /// The worker, who signs and is paid.
    pub worker: Wallet,
}

/// The first guard that a claim fails, if any.
pub open spec fn claim_error(ctx: ClaimBounty) -> Option<BountyError> {
    if ctx.bounty.status != BountyStatus::Confirmed {
        Some(BountyError::InvalidBountyStatus)
    } else if ctx.bounty.worker@ != ctx.worker.key@ {
        Some(BountyError::UnauthorizedWorker)
    } else if ctx.bounty_vault.balance < ctx.bounty.amount {
        Some(BountyError::InsufficientFunds)
    } else if ctx.worker.lamports + ctx.bounty.amount > u64::MAX {
        Some(BountyError::ArithmeticOverflow)
    } else {
        None
    }
}

/// What a claim does: on success the whole amount moves from the vault to the
/// worker and the bounty becomes `Claimed`; on failure nothing changes.
pub open spec fn claim_post(
    pre: ClaimBounty,
    post: ClaimBounty,
    now: i64,
    r: Result<BountyClaimedEvent, BountyError>,
) -> bool {
    match r {
        Ok(ev) => {
            &&& claim_error(pre) is None
            &&& post.bounty == (Bounty { status: BountyStatus::Claimed, claimed_at: now, ..pre.bounty })
            &&& post.bounty_vault.balance == pre.bounty_vault.balance - pre.bounty.amount
            &&& post.worker.key == pre.worker.key
            &&& post.worker.lamports == pre.worker.lamports + pre.bounty.amount
            &&& ev.bounty_id == pre.bounty.bounty_id
            &&& ev.worker == pre.worker.key
            &&& ev.amount == pre.bounty.amount
            &&& ev.claimed_at == now
        },
        Err(e) => claim_error(pre) == Some(e) && post == pre,
    }
}

/// Pays a confirmed bounty out to its worker at time `now`.
pub fn handler(ctx: &mut ClaimBounty, now: i64) -> (r: Result<BountyClaimedEvent, BountyError>)
    ensures
        claim_post(*old(ctx), *final(ctx), now, r),
{
    if ctx.bounty.status != BountyStatus::Confirmed {
        return Err(BountyError::InvalidBountyStatus);
    }
    if !ctx.bounty.worker.same_as(&ctx.worker.key) {
        return Err(BountyError::UnauthorizedWorker);
    }
    let amount = ctx.bounty.amount;
    let vault_left = match ctx.bounty_vault.balance.checked_sub(amount) {
        Some(v) => v,
        None => {
            return Err(BountyError::InsufficientFunds);
        },
    };
    let worker_after = match ctx.worker.lamports.checked_add(amount) {
        Some(v) => v,
        None => {
            return Err(BountyError::ArithmeticOverflow);
        },
    };
    ctx.bounty_vault.balance = vault_left;
    ctx.worker.lamports = worker_after;
    ctx.bounty.status = BountyStatus::Claimed;
    ctx.bounty.claimed_at = now;
    Ok(BountyClaimedEvent { bounty_id: ctx.bounty.bounty_id, worker: ctx.worker.key, amount, claimed_at: now })
}

} // verus!
