//! Properties of the lifecycle that hold of every input, each proved from the
//! instructions' own contracts.
use vstd::prelude::*;
use crate::error::BountyError;
use crate::events::{
    BountyAcceptedEvent, BountyClaimedEvent, BountyConfirmedEvent, BountyCreatedEvent,
    BountySubmittedEvent,
};
use crate::identity::Identity;
use crate::instructions::accept_bounty::{AcceptBounty, accept_error, accept_post};
use crate::instructions::claim_bounty::{ClaimBounty, claim_error, claim_post};
use crate::instructions::confirm_bounty::{ConfirmBounty, confirm_error, confirm_post};
use crate::instructions::create_bounty::{CreateBounty, create_post};
use crate::instructions::submit_bounty::{SubmitBounty, submit_error, submit_post};
use crate::ledger::{Ledger, custody_holds};
use crate::state::{Bounty, BountyStatus, byte_len, stage};

verus! {

/// A creation into an empty vault leaves exactly the bounty's amount in the vault,
/// and the registry's next id grows by exactly one.
pub proof fn create_funds_vault_exactly(
    pre: CreateBounty,
    post: CreateBounty,
    task_id: String,
    task_url: String,
    task_hash: [u8; 32],
    amount: u64,
    now: i64,
    r: Result<(Bounty, BountyCreatedEvent), BountyError>,
)
    requires
        create_post(pre, post, task_id, task_url, task_hash, amount, now, r),
        r is Ok,
        pre.bounty_vault.balance == 0,
    ensures
        post.bounty_vault.balance == r->Ok_0.0.amount,
        r->Ok_0.0.bounty_id == pre.bounty_manager.next_bounty_id,
        post.bounty_manager.next_bounty_id == pre.bounty_manager.next_bounty_id + 1,
{
}

/// String fields over their caps are refused before anything changes, and a
/// creation whose strings are within their caps (the caps included), whose amount
/// is positive, whose sponsor can pay and whose id counter is not exhausted
/// succeeds. An amount of zero is always refused.
pub proof fn create_guards(
    pre: CreateBounty,
    post: CreateBounty,
    task_id: String,
    task_url: String,
    task_hash: [u8; 32],
    amount: u64,
    now: i64,
    r: Result<(Bounty, BountyCreatedEvent), BountyError>,
)
    requires
        create_post(pre, post, task_id, task_url, task_hash, amount, now, r),
    ensures
        byte_len(task_id@) > Bounty::MAX_TASK_ID_LEN ==> r == Err::<
            (Bounty, BountyCreatedEvent),
            BountyError,
        >(BountyError::TaskIdTooLong) && post == pre,
        byte_len(task_id@) <= Bounty::MAX_TASK_ID_LEN && byte_len(task_url@)
            > Bounty::MAX_TASK_URL_LEN ==> r == Err::<(Bounty, BountyCreatedEvent), BountyError>(
            BountyError::TaskUrlTooLong,
        ) && post == pre,
        amount == 0 ==> r is Err && post == pre,
        byte_len(task_id@) <= Bounty::MAX_TASK_ID_LEN && byte_len(task_url@)
            <= Bounty::MAX_TASK_URL_LEN && amount == 0 ==> r == Err::<
            (Bounty, BountyCreatedEvent),
            BountyError,
        >(BountyError::InvalidAmount),
        byte_len(task_id@) <= Bounty::MAX_TASK_ID_LEN && byte_len(task_url@)
            <= Bounty::MAX_TASK_URL_LEN && amount > 0 && pre.sponsor.lamports >= amount
            && pre.bounty_vault.balance + amount <= u64::MAX && pre.bounty_manager.next_bounty_id
            < u64::MAX ==> r is Ok,
{
}

/// With the id counter at its largest value, a creation never succeeds and
/// changes nothing.
pub proof fn create_counter_exhausted(
    pre: CreateBounty,
    post: CreateBounty,
    task_id: String,
    task_url: String,
    task_hash: [u8; 32],
    amount: u64,
    now: i64,
    r: Result<(Bounty, BountyCreatedEvent), BountyError>,
)
    requires
        create_post(pre, post, task_id, task_url, task_hash, amount, now, r),
        pre.bounty_manager.next_bounty_id == u64::MAX,
    ensures
        r is Err,
        post == pre,
        byte_len(task_id@) <= Bounty::MAX_TASK_ID_LEN && byte_len(task_url@)
            <= Bounty::MAX_TASK_URL_LEN && amount > 0 && pre.sponsor.lamports >= amount
            && pre.bounty_vault.balance + amount <= u64::MAX ==> r == Err::<
            (Bounty, BountyCreatedEvent),
            BountyError,
        >(BountyError::ArithmeticOverflow),
{
}

/// Acceptance succeeds only from `Open` and only for the recorded sponsor, and then
/// advances the status by one stage; from another status it fails with
/// `InvalidBountyStatus`, from `Open` with another caller with
/// `UnauthorizedSponsor`, and a refused acceptance changes nothing.
pub proof fn accept_gated(
    pre: AcceptBounty,
    post: AcceptBounty,
    worker: Identity,
    now: i64,
    r: Result<BountyAcceptedEvent, BountyError>,
)
    requires
        accept_post(pre, post, worker, now, r),
    ensures
        r is Ok ==> pre.bounty.status == BountyStatus::Open && pre.bounty.sponsor@ == pre.sponsor@
            && stage(post.bounty.status) == stage(pre.bounty.status) + 1,
        pre.bounty.status != BountyStatus::Open ==> r == Err::<BountyAcceptedEvent, BountyError>(
            BountyError::InvalidBountyStatus,
        ) && post == pre,
        pre.bounty.status == BountyStatus::Open && pre.bounty.sponsor@ != pre.sponsor@ ==> r
            == Err::<BountyAcceptedEvent, BountyError>(BountyError::UnauthorizedSponsor) && post
            == pre,
        pre.bounty.status == BountyStatus::Open && pre.bounty.sponsor@ == pre.sponsor@ ==> r is Ok,
{
}

/// Submission succeeds only from `Accepted`, only for the recorded worker and only
/// with a url within its cap (the cap included), and then advances the status by
/// one stage; otherwise it fails with the matching error and changes nothing.
pub proof fn submit_gated(
    pre: SubmitBounty,
    post: SubmitBounty,
    submission_url: String,
    now: i64,
    r: Result<BountySubmittedEvent, BountyError>,
)
    requires
        submit_post(pre, post, submission_url, now, r),
    ensures
        r is Ok ==> pre.bounty.status == BountyStatus::Accepted && pre.bounty.worker@
            == pre.worker@ && stage(post.bounty.status) == stage(pre.bounty.status) + 1,
        pre.bounty.status != BountyStatus::Accepted ==> r == Err::<
            BountySubmittedEvent,
            BountyError,
        >(BountyError::InvalidBountyStatus) && post == pre,
        pre.bounty.status == BountyStatus::Accepted && pre.bounty.worker@ != pre.worker@ ==> r
            == Err::<BountySubmittedEvent, BountyError>(BountyError::UnauthorizedWorker) && post
            == pre,
        pre.bounty.status == BountyStatus::Accepted && pre.bounty.worker@ == pre.worker@
            && byte_len(submission_url@) > Bounty::MAX_SUBMISSION_URL_LEN ==> r == Err::<
            BountySubmittedEvent,
            BountyError,
        >(BountyError::SubmissionUrlTooLong) && post == pre,
        pre.bounty.status == BountyStatus::Accepted && pre.bounty.worker@ == pre.worker@
            && byte_len(submission_url@) <= Bounty::MAX_SUBMISSION_URL_LEN ==> r is Ok,
{
}

/// Confirmation succeeds only from `Submitted` and only for the recorded sponsor,
/// and then advances the status by one stage; otherwise it fails with the matching
/// error and changes nothing.
pub proof fn confirm_gated(
    pre: ConfirmBounty,
    post: ConfirmBounty,
    now: i64,
    r: Result<BountyConfirmedEvent, BountyError>,
)
    requires
        confirm_post(pre, post, now, r),
    ensures
        r is Ok ==> pre.bounty.status == BountyStatus::Submitted && pre.bounty.sponsor@
            == pre.sponsor@ && stage(post.bounty.status) == stage(pre.bounty.status) + 1,
        pre.bounty.status != BountyStatus::Submitted ==> r == Err::<
            BountyConfirmedEvent,
            BountyError,
        >(BountyError::InvalidBountyStatus) && post == pre,
        pre.bounty.status == BountyStatus::Submitted && pre.bounty.sponsor@ != pre.sponsor@ ==> r
            == Err::<BountyConfirmedEvent, BountyError>(BountyError::UnauthorizedSponsor) && post
            == pre,
        pre.bounty.status == BountyStatus::Submitted && pre.bounty.sponsor@ == pre.sponsor@ ==> r is Ok,
{
}

/// A claim succeeds only from `Confirmed` and only for the recorded worker, and
/// then advances the status by one stage; otherwise it fails with the matching
/// error and changes nothing, the vault's balance included.
pub proof fn claim_gated(
    pre: ClaimBounty,
    post: ClaimBounty,
    now: i64,
    r: Result<BountyClaimedEvent, BountyError>,
)
    requires
        claim_post(pre, post, now, r),
    ensures
        r is Ok ==> pre.bounty.status == BountyStatus::Confirmed && pre.bounty.worker@
            == pre.worker.key@ && stage(post.bounty.status) == stage(pre.bounty.status) + 1,
        pre.bounty.status != BountyStatus::Confirmed ==> r == Err::<
            BountyClaimedEvent,
            BountyError,
        >(BountyError::InvalidBountyStatus) && post == pre,
        pre.bounty.status == BountyStatus::Confirmed && pre.bounty.worker@ != pre.worker.key@ ==> r
            == Err::<BountyClaimedEvent, BountyError>(BountyError::UnauthorizedWorker) && post
            == pre,
{
}

/// A claim on a vault that holds the bounty's amount empties the vault, pays the
/// worker that amount and leaves the bounty `Claimed`, after which no transition
/// on that bounty succeeds, whoever calls it and with whatever arguments.
pub proof fn claim_is_final(
    pre: ClaimBounty,
    post: ClaimBounty,
    now: i64,
    r: Result<BountyClaimedEvent, BountyError>,
)
    requires
        claim_post(pre, post, now, r),
        r is Ok,
        pre.bounty_vault.balance == pre.bounty.amount,
    ensures
        post.bounty_vault.balance == 0,
        post.worker.lamports == pre.worker.lamports + pre.bounty.amount,
        post.bounty.status == BountyStatus::Claimed,
        forall|caller: Identity|
            accept_error(AcceptBounty { bounty: post.bounty, sponsor: caller }) == Some(
                BountyError::InvalidBountyStatus,
            ),
        forall|caller: Identity, url: Seq<char>|
            submit_error(SubmitBounty { bounty: post.bounty, worker: caller }, url) == Some(
                BountyError::InvalidBountyStatus,
            ),
        forall|caller: Identity|
            confirm_error(ConfirmBounty { bounty: post.bounty, sponsor: caller }) == Some(
                BountyError::InvalidBountyStatus,
            ),
        forall|vault: crate::state::Vault, caller: crate::state::Wallet|
            claim_error(ClaimBounty { bounty: post.bounty, bounty_vault: vault, worker: caller })
                == Some(BountyError::InvalidBountyStatus),
{
}

/// Every successful transition keeps a well-formed record well formed: its strings
/// stay within their caps, and its id, task, sponsor and amount never change.
pub proof fn transitions_keep_record(
    accept_pre: AcceptBounty,
    accept_now: AcceptBounty,
    worker: Identity,
    submit_pre: SubmitBounty,
    submit_now: SubmitBounty,
    url: String,
    confirm_pre: ConfirmBounty,
    confirm_now: ConfirmBounty,
    claim_pre: ClaimBounty,
    claim_now: ClaimBounty,
    now: i64,
    ra: Result<BountyAcceptedEvent, BountyError>,
    rs: Result<BountySubmittedEvent, BountyError>,
    rc: Result<BountyConfirmedEvent, BountyError>,
    rl: Result<BountyClaimedEvent, BountyError>,
)
    requires
        accept_post(accept_pre, accept_now, worker, now, ra),
        submit_post(submit_pre, submit_now, url, now, rs),
        confirm_post(confirm_pre, confirm_now, now, rc),
        claim_post(claim_pre, claim_now, now, rl),
    ensures
        accept_pre.bounty.wf() ==> accept_now.bounty.wf() && same_terms(
            accept_pre.bounty,
            accept_now.bounty,
        ),
        submit_pre.bounty.wf() ==> submit_now.bounty.wf() && same_terms(
            submit_pre.bounty,
            submit_now.bounty,
        ),
        confirm_pre.bounty.wf() ==> confirm_now.bounty.wf() && same_terms(
            confirm_pre.bounty,
            confirm_now.bounty,
        ),
        claim_pre.bounty.wf() ==> claim_now.bounty.wf() && same_terms(
            claim_pre.bounty,
            claim_now.bounty,
        ),
{
}

/// The fields that no transition after creation may change.
pub open spec fn same_terms(a: Bounty, b: Bounty) -> bool {
    &&& a.bounty_id == b.bounty_id
    &&& a.task_id == b.task_id
    &&& a.task_url == b.task_url
    &&& a.task_hash == b.task_hash
    &&& a.sponsor == b.sponsor
    &&& a.amount == b.amount
    &&& a.asset == b.asset
    &&& a.created_at == b.created_at
}

/// In a well-formed ledger the vault of every bounty holds exactly the bounty's
/// amount while the bounty is not yet claimed, and nothing once it is claimed.
pub proof fn every_vault_in_custody(l: Ledger, id: u64)
    requires
        l.wf(),
        l.index_of(id) is Some,
    ensures
        ({
            let r = l.records@[l.index_of(id)->Some_0];
            &&& r.bounty.bounty_id == id
            &&& r.bounty.status != BountyStatus::Claimed ==> r.vault.balance == r.bounty.amount
            &&& r.bounty.status == BountyStatus::Claimed ==> r.vault.balance == 0
        }),
{
    let i = l.index_of(id)->Some_0;
    assert(custody_holds(l.records@[i]));
}

/// In a well-formed ledger two different records never carry the same id, so an
/// id addresses at most one record and one vault.
pub proof fn ids_address_one_record(l: Ledger, i: int, j: int)
    requires
        l.wf(),
        0 <= i < l.records@.len(),
        0 <= j < l.records@.len(),
        i != j,
    ensures
        l.records@[i].bounty.bounty_id != l.records@[j].bounty.bounty_id,
{
    if i < j {
        assert(l.records@[i].bounty.bounty_id < l.records@[j].bounty.bounty_id);
    } else {
        assert(l.records@[j].bounty.bounty_id < l.records@[i].bounty.bounty_id);
    }
}

} // verus!
