//! Creating a bounty: a new id, a new record, and the amount moved into the vault.
use vstd::prelude::*;
use crate::error::BountyError;
use crate::events::BountyCreatedEvent;
use crate::identity::{Identity, zero_bytes};
use crate::state::{Bounty, BountyManager, BountyStatus, Vault, Wallet, byte_len};

verus! {

/// The accounts that creating a bounty touches.
pub struct CreateBounty {
    /// The registry, whose counter gives the new id.
    pub bounty_manager: BountyManager,
    /// The vault of the new id.
    pub bounty_vault: Vault,
    /// The sponsor, who signs and pays.
    pub sponsor: Wallet,
    /// Address-derivation nonce of the new record.
    pub bump: u8,
}

/// The first guard that a creation fails, if any.
pub open spec fn create_error(
    ctx: CreateBounty,
    task_id: Seq<char>,
    task_url: Seq<char>,
    amount: u64,
) -> Option<BountyError> {
    if byte_len(task_id) > Bounty::MAX_TASK_ID_LEN {
        Some(BountyError::TaskIdTooLong)
    } else if byte_len(task_url) > Bounty::MAX_TASK_URL_LEN {
        Some(BountyError::TaskUrlTooLong)
    } else if amount == 0 {
        Some(BountyError::InvalidAmount)
    } else if ctx.sponsor.lamports < amount {
        Some(BountyError::InsufficientFunds)
    } else if ctx.bounty_vault.balance + amount > u64::MAX {
        Some(BountyError::ArithmeticOverflow)
    } else if ctx.bounty_manager.next_bounty_id == u64::MAX {
        Some(BountyError::ArithmeticOverflow)
    } else {
        None
    }
}

/// `b` is the fresh record that a creation in `ctx` writes.
pub open spec fn is_new_record(
    b: Bounty,
    ctx: CreateBounty,
    task_id: String,
    task_url: String,
    task_hash: [u8; 32],
    amount: u64,
    now: i64,
) -> bool {
    &&& b.bounty_id == ctx.bounty_manager.next_bounty_id
    &&& b.task_id == task_id
    &&& b.task_url == task_url
    &&& b.task_hash == task_hash
    &&& b.sponsor == ctx.sponsor.key
    &&& b.worker@ == zero_bytes()
    &&& b.amount == amount
    &&& b.asset@ == zero_bytes()
    &&& b.status == BountyStatus::Open
    &&& b.created_at == now
    &&& b.accepted_at == 0
    &&& b.submitted_at == 0
    &&& b.submission_url@ == Seq::<char>::empty()
    &&& b.confirmed_at == 0
    &&& b.claimed_at == 0
    &&& b.bump == ctx.bump
}

/// What a creation does: on success the counter advances by one, exactly `amount`
/// moves from the sponsor to the vault, and the new record and its event are
/// returned; on failure the first failed guard is reported and nothing changes.
pub open spec fn create_post(
    pre: CreateBounty,
    post: CreateBounty,
    task_id: String,
    task_url: String,
    task_hash: [u8; 32],
    amount: u64,
    now: i64,
    r: Result<(Bounty, BountyCreatedEvent), BountyError>,
) -> bool {
    match r {
        Ok((b, ev)) => {
            &&& create_error(pre, task_id@, task_url@, amount) is None
            &&& is_new_record(b, pre, task_id, task_url, task_hash, amount, now)
            &&& b.wf()
            &&& post.bounty_manager.next_bounty_id == pre.bounty_manager.next_bounty_id + 1
            &&& post.bounty_manager.authority == pre.bounty_manager.authority
            &&& post.bounty_manager.bump == pre.bounty_manager.bump
            &&& post.bounty_vault.balance == pre.bounty_vault.balance + amount
            &&& post.sponsor.key == pre.sponsor.key
            &&& post.sponsor.lamports == pre.sponsor.lamports - amount
            &&& post.bump == pre.bump
            &&& ev.bounty_id == b.bounty_id
            &&& ev.task_id@ == task_id@
            &&& ev.task_url@ == task_url@
            &&& ev.task_hash == task_hash
            &&& ev.sponsor == pre.sponsor.key
            &&& ev.amount == amount
            &&& ev.asset@ == zero_bytes()
            &&& ev.timestamp == now
        },
        Err(e) => create_error(pre, task_id@, task_url@, amount) == Some(e) && post == pre,
    }
}

/// Creates bounty number `next_bounty_id` at time `now`, funded by the sponsor.
pub fn handler(
    ctx: &mut CreateBounty,
    task_id: String,
    task_url: String,
    task_hash: [u8; 32],
    amount: u64,
    now: i64,
) -> (r: Result<(Bounty, BountyCreatedEvent), BountyError>)
    ensures
        create_post(*old(ctx), *final(ctx), task_id, task_url, task_hash, amount, now, r),
{
    if task_id.as_str().as_bytes().len() > Bounty::MAX_TASK_ID_LEN {
        return Err(BountyError::TaskIdTooLong);
    }
    if task_url.as_str().as_bytes().len() > Bounty::MAX_TASK_URL_LEN {
        return Err(BountyError::TaskUrlTooLong);
    }
    if amount == 0 {
        return Err(BountyError::InvalidAmount);
    }
    let sponsor_left = match ctx.sponsor.lamports.checked_sub(amount) {
        Some(v) => v,
        None => {
            return Err(BountyError::InsufficientFunds);
        },
    };
    let vault_after = match ctx.bounty_vault.balance.checked_add(amount) {
        Some(v) => v,
        None => {
            return Err(BountyError::ArithmeticOverflow);
        },
    };
    let bounty_id = ctx.bounty_manager.next_bounty_id;
    let next_id = match bounty_id.checked_add(1) {
        Some(v) => v,
        None => {
            return Err(BountyError::ArithmeticOverflow);
        },
    };

    ctx.sponsor.lamports = sponsor_left;
    ctx.bounty_vault.balance = vault_after;
    ctx.bounty_manager.next_bounty_id = next_id;

    let event = BountyCreatedEvent {
        bounty_id,
        task_id: task_id.clone(),
        task_url: task_url.clone(),
        task_hash,
        sponsor: ctx.sponsor.key,
        amount,
        asset: Identity::system_program(),
        timestamp: now,
    };
    let bounty = Bounty {
        bounty_id,
        task_id,
        task_url,
        task_hash,
        sponsor: ctx.sponsor.key,
        worker: Identity::system_program(),
        amount,
        asset: Identity::system_program(),
        status: BountyStatus::Open,
        created_at: now,
        accepted_at: 0,
        submitted_at: 0,
        submission_url: String::new(),
        confirmed_at: 0,
        claimed_at: 0,
        bump: ctx.bump,
    };
    Ok((bounty, event))
}

} // verus!
