//! Confirming a bounty: the sponsor approves the submitted work.
use vstd::prelude::*;
use crate::error::BountyError;
use crate::events::BountyConfirmedEvent;
use crate::identity::Identity;
use crate::state::{Bounty, BountyStatus};

verus! {

/// The accounts that confirming a bounty touches.
pub struct ConfirmBounty {
    pub bounty: Bounty,
    /// The caller, who must be the bounty's sponsor.
    pub sponsor: Identity,
}

/// The first guard that a confirmation fails, if any.
pub open spec fn confirm_error(ctx: ConfirmBounty) -> Option<BountyError> {
    if ctx.bounty.status != BountyStatus::Submitted {
        Some(BountyError::InvalidBountyStatus)
    } else if ctx.bounty.sponsor@ != ctx.sponsor@ {
        Some(BountyError::UnauthorizedSponsor)
    } else {
        None
    }
}

/// What a confirmation does: on success the bounty becomes `Confirmed`; on
/// failure nothing changes.
pub open spec fn confirm_post(
    pre: ConfirmBounty,
    post: ConfirmBounty,
    now: i64,
    r: Result<BountyConfirmedEvent, BountyError>,
) -> bool {
    match r {
        Ok(ev) => {
            &&& confirm_error(pre) is None
            &&& post.bounty == (Bounty { status: BountyStatus::Confirmed, confirmed_at: now, ..pre.bounty })
            &&& post.sponsor == pre.sponsor
            &&& ev.bounty_id == pre.bounty.bounty_id
            &&& ev.confirmed_at == now
        },
        Err(e) => confirm_error(pre) == Some(e) && post == pre,
    }
}

/// Approves the submitted work at time `now`.
pub fn handler(ctx: &mut ConfirmBounty, now: i64) -> (r: Result<BountyConfirmedEvent, BountyError>)
    ensures
        confirm_post(*old(ctx), *final(ctx), now, r),
{
    if ctx.bounty.status != BountyStatus::Submitted {
        return Err(BountyError::InvalidBountyStatus);
    }
    if !ctx.bounty.sponsor.same_as(&ctx.sponsor) {
        return Err(BountyError::UnauthorizedSponsor);
    }
    ctx.bounty.status = BountyStatus::Confirmed;
    ctx.bounty.confirmed_at = now;
    Ok(BountyConfirmedEvent { bounty_id: ctx.bounty.bounty_id, confirmed_at: now })
}

} // verus!
