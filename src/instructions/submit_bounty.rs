//! Submitting work: the worker records where the work is.
use vstd::prelude::*;
use crate::error::BountyError;
use crate::events::BountySubmittedEvent;
use crate::identity::Identity;
use crate::state::{Bounty, BountyStatus, byte_len};

verus! {

/// The accounts that submitting work touches.
pub struct SubmitBounty {
    pub bounty: Bounty,
    /// The caller, who must be the bounty's worker.
    pub worker: Identity,
}

/// The first guard that a submission fails, if any.
pub open spec fn submit_error(ctx: SubmitBounty, submission_url: Seq<char>) -> Option<BountyError> {
    if ctx.bounty.status != BountyStatus::Accepted {
        Some(BountyError::InvalidBountyStatus)
    } else if ctx.bounty.worker@ != ctx.worker@ {
        Some(BountyError::UnauthorizedWorker)
    } else if byte_len(submission_url) > Bounty::MAX_SUBMISSION_URL_LEN {
        Some(BountyError::SubmissionUrlTooLong)
    } else {
        None
    }
}

/// What a submission does: on success the url is recorded and the bounty becomes
/// `Submitted`; on failure nothing changes.
pub open spec fn submit_post(
    pre: SubmitBounty,
    post: SubmitBounty,
    submission_url: String,
    now: i64,
    r: Result<BountySubmittedEvent, BountyError>,
) -> bool {
    match r {
        Ok(ev) => {
            &&& submit_error(pre, submission_url@) is None
            &&& post.bounty == (Bounty {
                submission_url: submission_url,
                status: BountyStatus::Submitted,
                submitted_at: now,
                ..pre.bounty
            })
            &&& post.worker == pre.worker
            &&& ev.bounty_id == pre.bounty.bounty_id
            &&& ev.submission_url@ == submission_url@
            &&& ev.submitted_at == now
        },
        Err(e) => submit_error(pre, submission_url@) == Some(e) && post == pre,
    }
}

/// Records the worker's submission at time `now`.
pub fn handler(ctx: &mut SubmitBounty, submission_url: String, now: i64) -> (r: Result<
    BountySubmittedEvent,
    BountyError,
>)
    ensures
        submit_post(*old(ctx), *final(ctx), submission_url, now, r),
{
    if ctx.bounty.status != BountyStatus::Accepted {
        return Err(BountyError::InvalidBountyStatus);
    }
    if !ctx.bounty.worker.same_as(&ctx.worker) {
        return Err(BountyError::UnauthorizedWorker);
    }
    if submission_url.as_str().as_bytes().len() > Bounty::MAX_SUBMISSION_URL_LEN {
        return Err(BountyError::SubmissionUrlTooLong);
    }
    let reported = submission_url.clone();
    ctx.bounty.submission_url = submission_url;
    ctx.bounty.status = BountyStatus::Submitted;
    ctx.bounty.submitted_at = now;
    Ok(BountySubmittedEvent { bounty_id: ctx.bounty.bounty_id, submission_url: reported, submitted_at: now })
}

} // verus!
