//! Accepting a bounty: the sponsor assigns the worker.
use vstd::prelude::*;
use crate::error::BountyError;
use crate::events::BountyAcceptedEvent;
use crate::identity::Identity;
use crate::state::{Bounty, BountyStatus};

verus! {

/// The accounts that accepting a bounty touches.
pub struct AcceptBounty {
    pub bounty: Bounty,
    /// The caller, who must be the bounty's sponsor.
    pub sponsor: Identity,
}

/// The first guard that an acceptance fails, if any.
pub open spec fn accept_error(ctx: AcceptBounty) -> Option<BountyError> {
    if ctx.bounty.status != BountyStatus::Open {
        Some(BountyError::InvalidBountyStatus)
    } else if ctx.bounty.sponsor@ != ctx.sponsor@ {
        Some(BountyError::UnauthorizedSponsor)
    } else {
        None
    }
}

/// What an acceptance does: on success `worker` is recorded and the bounty becomes
/// `Accepted`; on failure nothing changes.
pub open spec fn accept_post(
    pre: AcceptBounty,
    post: AcceptBounty,
    worker: Identity,
    now: i64,
    r: Result<BountyAcceptedEvent, BountyError>,
) -> bool {
    match r {
        Ok(ev) => {
            &&& accept_error(pre) is None
            &&& post.bounty == (Bounty {
                worker: worker,
                status: BountyStatus::Accepted,
                accepted_at: now,
                ..pre.bounty
            })
            &&& post.sponsor == pre.sponsor
            &&& ev.bounty_id == pre.bounty.bounty_id
            &&& ev.worker == worker
            &&& ev.accepted_at == now
        },
        Err(e) => accept_error(pre) == Some(e) && post == pre,
    }
}

/// Assigns `worker` to an open bounty at time `now`. The worker is chosen by the
/// sponsor; the worker does not opt in.
pub fn handler(ctx: &mut AcceptBounty, worker: Identity, now: i64) -> (r: Result<
    BountyAcceptedEvent,
    BountyError,
>)
    ensures
        accept_post(*old(ctx), *final(ctx), worker, now, r),
{
    if ctx.bounty.status != BountyStatus::Open {
        return Err(BountyError::InvalidBountyStatus);
    }
    if !ctx.bounty.sponsor.same_as(&ctx.sponsor) {
        return Err(BountyError::UnauthorizedSponsor);
    }
    ctx.bounty.worker = worker;
    ctx.bounty.status = BountyStatus::Accepted;
    ctx.bounty.accepted_at = now;
    Ok(BountyAcceptedEvent { bounty_id: ctx.bounty.bounty_id, worker, accepted_at: now })
}

} // verus!
