//! The program's storage: one registry and, for each id it has handed out, the
//! bounty's record paired with its vault. Records are addressed by id alone, so
//! two ids never share a record or a vault.
use vstd::prelude::*;
use crate::error::BountyError;
use crate::events::{
    BountyAcceptedEvent, BountyClaimedEvent, BountyConfirmedEvent, BountyCreatedEvent,
    BountySubmittedEvent,
};
use crate::identity::Identity;
use crate::instructions::accept_bounty::{self, AcceptBounty, accept_post};
use crate::instructions::claim_bounty::{self, ClaimBounty, claim_post};
use crate::instructions::confirm_bounty::{self, ConfirmBounty, confirm_post};
use crate::instructions::create_bounty::{self, CreateBounty, create_error, is_new_record};
use crate::instructions::initialize::{self, Initialize};
use crate::instructions::submit_bounty::{self, SubmitBounty, submit_post};
use crate::state::{Bounty, BountyManager, BountyStatus, Vault, Wallet};

verus! {

/// A bounty's record together with the vault that holds its funds.
#[derive(Debug)]
pub struct BountyRecord {
    pub bounty: Bounty,
    pub vault: Vault,
}

/// The vault holds the bounty's amount until the bounty is claimed, and nothing after.
pub open spec fn custody_holds(r: BountyRecord) -> bool {
    if r.bounty.status == BountyStatus::Claimed {
        r.vault.balance == 0
    } else {
        r.vault.balance == r.bounty.amount
    }
}

/// The invariant of a ledger with registry `m` and records `s`.
pub open spec fn ledger_wf(m: BountyManager, s: Seq<BountyRecord>) -> bool {
    &&& m.next_bounty_id >= 1
    &&& forall|i: int|
        0 <= i < s.len() ==> {
            let r = #[trigger] s[i];
            &&& 1 <= r.bounty.bounty_id < m.next_bounty_id
            &&& r.bounty.wf()
            &&& custody_holds(r)
        }
    &&& forall|i: int, j: int|
        0 <= i < j < s.len() ==> #[trigger] s[i].bounty.bounty_id < #[trigger] s[j].bounty.bounty_id
}

/// Replacing a record by one with the same id that is well formed and in custody
/// keeps the ledger's invariant.
proof fn lemma_replace_keeps_wf(m: BountyManager, s: Seq<BountyRecord>, i: int, r: BountyRecord)
    requires
        ledger_wf(m, s),
        0 <= i < s.len(),
        r.bounty.bounty_id == s[i].bounty.bounty_id,
        r.bounty.wf(),
        custody_holds(r),
    ensures
        ledger_wf(m, s.update(i, r)),
{
    let t = s.update(i, r);
    assert forall|a: int, b: int| 0 <= a < b < t.len() implies #[trigger] t[a].bounty.bounty_id
        < #[trigger] t[b].bounty.bounty_id by {
        assert(s[a].bounty.bounty_id < s[b].bounty.bounty_id);
    }
}

/// The registry and every bounty created so far, in the order of their ids.
#[derive(Debug)]
pub struct Ledger {
    pub manager: BountyManager,
    pub records: Vec<BountyRecord>,
}

impl Ledger {
    /// The counter has started, every stored id was handed out by the registry, ids
    /// grow along the records (so each id has at most one record), every record is
    /// well formed, and every vault holds what custody demands.
    pub open spec fn wf(&self) -> bool {
        ledger_wf(self.manager, self.records@)
    }

    /// The position of the record of `id`, if there is one.
    pub open spec fn index_of(&self, id: u64) -> Option<int> {
        if exists|i: int| 0 <= i < self.records@.len() && self.records@[i].bounty.bounty_id == id {
            Some(
                choose|i: int| 0 <= i < self.records@.len() && self.records@[i].bounty.bounty_id == id,
            )
        } else {
            None
        }
    }

    /// The ledger after setting up the registry: no bounties yet.
    pub fn new(init: &Initialize) -> (r: Ledger)
        ensures
            r.wf(),
            r.manager.authority == init.authority,
            r.manager.next_bounty_id == 1,
            r.manager.bump == init.bump,
            r.records@.len() == 0,
    {
        Ledger { manager: initialize::handler(init), records: Vec::new() }
    }

    /// Finds the position of the record of `id`.
    pub fn find(&self, id: u64) -> (r: Option<usize>)
        requires
            self.wf(),
        ensures
            match r {
                Some(i) => self.index_of(id) == Some(i as int),
                None => self.index_of(id) is None,
            },
    {
        let mut i: usize = 0;
        while i < self.records.len()
            invariant
                self.wf(),
                i <= self.records@.len(),
                forall|j: int| 0 <= j < i ==> self.records@[j].bounty.bounty_id != id,
            decreases self.records@.len() - i,
        {
            if self.records[i].bounty.bounty_id == id {
                proof {
                    let k = choose|k: int|
                        0 <= k < self.records@.len() && self.records@[k].bounty.bounty_id == id;
                    if k < i {
                    } else if k > i {
                        assert(self.records@[i as int].bounty.bounty_id
                            < self.records@[k].bounty.bounty_id);
                    }
                }
                return Some(i);
            }
            i = i + 1;
        }
        None
    }

    /// The record of `id`, if there is one.
    pub fn get(&self, id: u64) -> (r: Option<&BountyRecord>)
        requires
            self.wf(),
        ensures
            match self.index_of(id) {
                Some(i) => r == Some(&self.records@[i]),
                None => r is None,
            },
    {
        match self.find(id) {
            Some(i) => Some(&self.records[i]),
            None => None,
        }
    }

    /// Creates the next bounty, funded from `sponsor`, in a fresh vault.
    pub fn create(
        &mut self,
        sponsor: &mut Wallet,
        task_id: String,
        task_url: String,
        task_hash: [u8; 32],
        amount: u64,
        bump: u8,
        now: i64,
    ) -> (r: Result<BountyCreatedEvent, BountyError>)
        requires
            old(self).wf(),
        ensures
            final(self).wf(),
            ({
                let ctx = CreateBounty {
                    bounty_manager: old(self).manager,
                    bounty_vault: Vault { balance: 0 },
                    sponsor: *old(sponsor),
                    bump,
                };
                match r {
                    Ok(ev) => {
                        &&& create_error(ctx, task_id@, task_url@, amount) is None
                        &&& ev.bounty_id == old(self).manager.next_bounty_id
                        &&& final(self).manager.next_bounty_id == ev.bounty_id + 1
                        &&& final(self).manager.authority == old(self).manager.authority
                        &&& final(self).manager.bump == old(self).manager.bump
                        &&& final(self).records@.len() == old(self).records@.len() + 1
                        &&& final(self).records@.drop_last() == old(self).records@
                        &&& is_new_record(
                            final(self).records@.last().bounty,
                            ctx,
                            task_id,
                            task_url,
                            task_hash,
                            amount,
                            now,
                        )
                        &&& final(self).records@.last().vault.balance == amount
                        &&& final(sponsor).key == old(sponsor).key
                        &&& final(sponsor).lamports == old(sponsor).lamports - amount
                    },
                    Err(e) => {
                        &&& create_error(ctx, task_id@, task_url@, amount) == Some(e)
                        &&& *final(self) == *old(self)
                        &&& *final(sponsor) == *old(sponsor)
                    },
                }
            }),
    {
        let mut ctx = CreateBounty {
            bounty_manager: self.manager,
            bounty_vault: Vault { balance: 0 },
            sponsor: *sponsor,
            bump,
        };
        match create_bounty::handler(&mut ctx, task_id, task_url, task_hash, amount, now) {
            Ok((bounty, event)) => {
                let ghost before = self.records@;
                self.manager = ctx.bounty_manager;
                *sponsor = ctx.sponsor;
                self.records.push(BountyRecord { bounty, vault: ctx.bounty_vault });
                proof {
                    let s = self.records@;
                    assert(s.drop_last() =~= before);
                    assert forall|i: int| 0 <= i < s.len() implies {
                        let r = #[trigger] s[i];
                        &&& 1 <= r.bounty.bounty_id < self.manager.next_bounty_id
                        &&& r.bounty.wf()
                        &&& custody_holds(r)
                    } by {
                        if i < before.len() {
                            assert(s[i] == before[i]);
                        }
                    }
                    assert forall|a: int, b: int| 0 <= a < b < s.len() implies #[trigger] s[a].bounty.bounty_id
                        < #[trigger] s[b].bounty.bounty_id by {
                        if b < before.len() {
                            assert(before[a].bounty.bounty_id < before[b].bounty.bounty_id);
                        } else {
                            assert(before[a].bounty.bounty_id < old(self).manager.next_bounty_id);
                        }
                    }
                }
                Ok(event)
            },
            Err(e) => Err(e),
        }
    }

    /// The sponsor `caller` assigns `worker` to bounty `id`.
    pub fn accept(&mut self, id: u64, caller: Identity, worker: Identity, now: i64) -> (r: Result<
        BountyAcceptedEvent,
        BountyError,
    >)
        requires
            old(self).wf(),
        ensures
            final(self).wf(),
            final(self).manager == old(self).manager,
            final(self).records@.len() == old(self).records@.len(),
            match old(self).index_of(id) {
                None => r == Err::<BountyAcceptedEvent, BountyError>(BountyError::BountyNotFound)
                    && *final(self) == *old(self),
                Some(i) => {
                    &&& forall|j: int|
                        0 <= j < old(self).records@.len() && j != i ==> final(self).records@[j]
                            == old(self).records@[j]
                    &&& final(self).records@[i].vault == old(self).records@[i].vault
                    &&& accept_post(
                        AcceptBounty { bounty: old(self).records@[i].bounty, sponsor: caller },
                        AcceptBounty { bounty: final(self).records@[i].bounty, sponsor: caller },
                        worker,
                        now,
                        r,
                    )
                },
            },
    {
        let i = match self.find(id) {
            Some(i) => i,
            None => {
                return Err(BountyError::BountyNotFound);
            },
        };
        let ghost before = self.records@;
        let BountyRecord { bounty, vault } = self.records.remove(i);
        let mut ctx = AcceptBounty { bounty, sponsor: caller };
        let r = accept_bounty::handler(&mut ctx, worker, now);
        self.records.insert(i, BountyRecord { bounty: ctx.bounty, vault });
        proof {
            assert(self.records@ =~= before.update(i as int, self.records@[i as int]));
            lemma_replace_keeps_wf(self.manager, before, i as int, self.records@[i as int]);
        }
        r
    }

    /// The worker `caller` hands in the work of bounty `id`.
    pub fn submit(&mut self, id: u64, caller: Identity, submission_url: String, now: i64) -> (r:
        Result<BountySubmittedEvent, BountyError>)
        requires
            old(self).wf(),
        ensures
            final(self).wf(),
            final(self).manager == old(self).manager,
            final(self).records@.len() == old(self).records@.len(),
            match old(self).index_of(id) {
                None => r == Err::<BountySubmittedEvent, BountyError>(BountyError::BountyNotFound)
                    && *final(self) == *old(self),
                Some(i) => {
                    &&& forall|j: int|
                        0 <= j < old(self).records@.len() && j != i ==> final(self).records@[j]
                            == old(self).records@[j]
                    &&& final(self).records@[i].vault == old(self).records@[i].vault
                    &&& submit_post(
                        SubmitBounty { bounty: old(self).records@[i].bounty, worker: caller },
                        SubmitBounty { bounty: final(self).records@[i].bounty, worker: caller },
                        submission_url,
                        now,
                        r,
                    )
                },
            },
    {
        let i = match self.find(id) {
            Some(i) => i,
            None => {
                return Err(BountyError::BountyNotFound);
            },
        };
        let ghost before = self.records@;
        let BountyRecord { bounty, vault } = self.records.remove(i);
        let mut ctx = SubmitBounty { bounty, worker: caller };
        let r = submit_bounty::handler(&mut ctx, submission_url, now);
        self.records.insert(i, BountyRecord { bounty: ctx.bounty, vault });
        proof {
            assert(self.records@ =~= before.update(i as int, self.records@[i as int]));
            lemma_replace_keeps_wf(self.manager, before, i as int, self.records@[i as int]);
        }
        r
    }

    /// The sponsor `caller` approves the work of bounty `id`.
    pub fn confirm(&mut self, id: u64, caller: Identity, now: i64) -> (r: Result<
        BountyConfirmedEvent,
        BountyError,
    >)
        requires
            old(self).wf(),
        ensures
            final(self).wf(),
            final(self).manager == old(self).manager,
            final(self).records@.len() == old(self).records@.len(),
            match old(self).index_of(id) {
                None => r == Err::<BountyConfirmedEvent, BountyError>(BountyError::BountyNotFound)
                    && *final(self) == *old(self),
                Some(i) => {
                    &&& forall|j: int|
                        0 <= j < old(self).records@.len() && j != i ==> final(self).records@[j]
                            == old(self).records@[j]
                    &&& final(self).records@[i].vault == old(self).records@[i].vault
                    &&& confirm_post(
                        ConfirmBounty { bounty: old(self).records@[i].bounty, sponsor: caller },
                        ConfirmBounty { bounty: final(self).records@[i].bounty, sponsor: caller },
                        now,
                        r,
                    )
                },
            },
    {
        let i = match self.find(id) {
            Some(i) => i,
            None => {
                return Err(BountyError::BountyNotFound);
            },
        };
        let ghost before = self.records@;
        let BountyRecord { bounty, vault } = self.records.remove(i);
        let mut ctx = ConfirmBounty { bounty, sponsor: caller };
        let r = confirm_bounty::handler(&mut ctx, now);
        self.records.insert(i, BountyRecord { bounty: ctx.bounty, vault });
        proof {
            assert(self.records@ =~= before.update(i as int, self.records@[i as int]));
            lemma_replace_keeps_wf(self.manager, before, i as int, self.records@[i as int]);
        }
        r
    }

    /// The worker signing with `worker` is paid bounty `id` out of its vault.
    pub fn claim(&mut self, id: u64, worker: &mut Wallet, now: i64) -> (r: Result<
        BountyClaimedEvent,
        BountyError,
    >)
        requires
            old(self).wf(),
        ensures
            final(self).wf(),
            final(self).manager == old(self).manager,
            final(self).records@.len() == old(self).records@.len(),
            match old(self).index_of(id) {
                None => r == Err::<BountyClaimedEvent, BountyError>(BountyError::BountyNotFound)
                    && *final(self) == *old(self) && *final(worker) == *old(worker),
                Some(i) => {
                    &&& forall|j: int|
                        0 <= j < old(self).records@.len() && j != i ==> final(self).records@[j]
                            == old(self).records@[j]
                    &&& claim_post(
                        ClaimBounty {
                            bounty: old(self).records@[i].bounty,
                            bounty_vault: old(self).records@[i].vault,
                            worker: *old(worker),
                        },
                        ClaimBounty {
                            bounty: final(self).records@[i].bounty,
                            bounty_vault: final(self).records@[i].vault,
                            worker: *final(worker),
                        },
                        now,
                        r,
                    )
                },
            },
    {
        let i = match self.find(id) {
            Some(i) => i,
            None => {
                return Err(BountyError::BountyNotFound);
            },
        };
        let ghost before = self.records@;
        let BountyRecord { bounty, vault } = self.records.remove(i);
        let mut ctx = ClaimBounty { bounty, bounty_vault: vault, worker: *worker };
        let r = claim_bounty::handler(&mut ctx, now);
        *worker = ctx.worker;
        self.records.insert(i, BountyRecord { bounty: ctx.bounty, vault: ctx.bounty_vault });
        proof {
            assert(self.records@ =~= before.update(i as int, self.records@[i as int]));
            lemma_replace_keeps_wf(self.manager, before, i as int, self.records@[i as int]);
        }
        r
    }
}

} // verus!
