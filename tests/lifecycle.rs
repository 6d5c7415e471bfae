use bounty_manager::{
    accept_bounty, claim_bounty, confirm_bounty, create_bounty, initialize, submit_bounty,
    AcceptBounty, Bounty, BountyError, BountyStatus, ClaimBounty, ConfirmBounty, CreateBounty,
    Identity, Initialize, SubmitBounty, Vault, Wallet,
};

fn who(b: u8) -> Identity {
    Identity::new([b; 32])
}

fn registry() -> bounty_manager::BountyManager {
    initialize(&Initialize { authority: who(9), bump: 254 })
}

fn creation(sponsor_funds: u64) -> CreateBounty {
    CreateBounty {
        bounty_manager: registry(),
        bounty_vault: Vault { balance: 0 },
        sponsor: Wallet { key: who(1), lamports: sponsor_funds },
        bump: 253,
    }
}

fn open_bounty(amount: u64) -> Bounty {
    let mut ctx = creation(amount);
    let (b, _) = create_bounty(&mut ctx, "T1".to_string(), "https://x".to_string(), [7; 32], amount, 100)
        .unwrap();
    b
}

#[test]
fn initialize_starts_ids_at_one() {
    let m = registry();
    assert_eq!(m.next_bounty_id, 1);
    assert_eq!(m.authority.bytes, [9; 32]);
    assert_eq!(m.bump, 254);
}

#[test]
fn end_to_end_lifecycle() {
    let sponsor = who(1);
    let worker = who(2);
    let mut create = creation(5000);
    let (bounty, created) = create_bounty(
        &mut create,
        "T1".to_string(),
        "https://x".to_string(),
        [7; 32],
        1000,
        100,
    )
    .unwrap();
    assert_eq!(bounty.bounty_id, 1);
    assert_eq!(bounty.status, BountyStatus::Open);
    assert_eq!(create.bounty_vault.balance, 1000);
    assert_eq!(create.sponsor.lamports, 4000);
    assert_eq!(create.bounty_manager.next_bounty_id, 2);
    assert_eq!(bounty.task_id, "T1");
    assert_eq!(bounty.task_url, "https://x");
    assert_eq!(bounty.task_hash, [7; 32]);
    assert_eq!(bounty.sponsor.bytes, sponsor.bytes);
    assert_eq!(bounty.worker.bytes, [0; 32]);
    assert_eq!(bounty.asset.bytes, [0; 32]);
    assert_eq!(bounty.created_at, 100);
    assert_eq!(bounty.submission_url, "");
    assert_eq!(created.bounty_id, 1);
    assert_eq!(created.amount, 1000);
    assert_eq!(created.task_id, "T1");
    assert_eq!(created.timestamp, 100);

    let mut accept = AcceptBounty { bounty, sponsor };
    let accepted = accept_bounty(&mut accept, worker, 200).unwrap();
    assert_eq!(accept.bounty.status, BountyStatus::Accepted);
    assert_eq!(accept.bounty.worker.bytes, [2; 32]);
    assert_eq!(accept.bounty.accepted_at, 200);
    assert_eq!(accepted.worker.bytes, [2; 32]);

    let mut submit = SubmitBounty { bounty: accept.bounty, worker };
    let submitted = submit_bounty(&mut submit, "https://sub".to_string(), 300).unwrap();
    assert_eq!(submit.bounty.status, BountyStatus::Submitted);
    assert_eq!(submit.bounty.submission_url, "https://sub");
    assert_eq!(submit.bounty.submitted_at, 300);
    assert_eq!(submitted.submission_url, "https://sub");

    let mut confirm = ConfirmBounty { bounty: submit.bounty, sponsor };
    let confirmed = confirm_bounty(&mut confirm, 400).unwrap();
    assert_eq!(confirm.bounty.status, BountyStatus::Confirmed);
    assert_eq!(confirm.bounty.confirmed_at, 400);
    assert_eq!(confirmed.confirmed_at, 400);

    let mut claim = ClaimBounty {
        bounty: confirm.bounty,
        bounty_vault: create.bounty_vault,
        worker: Wallet { key: worker, lamports: 50 },
    };
    let claimed = claim_bounty(&mut claim, 500).unwrap();
    assert_eq!(claim.bounty.status, BountyStatus::Claimed);
    assert_eq!(claim.bounty.claimed_at, 500);
    assert_eq!(claim.bounty_vault.balance, 0);
    assert_eq!(claim.worker.lamports, 1050);
    assert_eq!(claimed.amount, 1000);
    assert_eq!(claimed.bounty_id, 1);
    assert_eq!(claim.bounty.amount, 1000);
}

#[test]
fn accept_by_non_sponsor_fails() {
    let mut accept = AcceptBounty { bounty: open_bounty(1000), sponsor: who(3) };
    assert_eq!(accept_bounty(&mut accept, who(2), 200).unwrap_err(), BountyError::UnauthorizedSponsor);
    assert_eq!(accept.bounty.status, BountyStatus::Open);
    assert_eq!(accept.bounty.worker.bytes, [0; 32]);
    assert_eq!(accept.bounty.accepted_at, 0);
}

#[test]
fn submit_while_open_fails() {
    let mut submit = SubmitBounty { bounty: open_bounty(1000), worker: who(0) };
    assert_eq!(
        submit_bounty(&mut submit, "https://sub".to_string(), 300).unwrap_err(),
        BountyError::InvalidBountyStatus
    );
    assert_eq!(submit.bounty.status, BountyStatus::Open);
    assert_eq!(submit.bounty.submission_url, "");
}

#[test]
fn counter_overflow_creates_nothing() {
    let mut ctx = creation(5000);
    ctx.bounty_manager.next_bounty_id = u64::MAX;
    let r = create_bounty(&mut ctx, "T1".to_string(), "https://x".to_string(), [7; 32], 1000, 100);
    assert_eq!(r.unwrap_err(), BountyError::ArithmeticOverflow);
    assert_eq!(ctx.bounty_manager.next_bounty_id, u64::MAX);
    assert_eq!(ctx.bounty_vault.balance, 0);
    assert_eq!(ctx.sponsor.lamports, 5000);
}

#[test]
fn ids_increase_by_one() {
    let mut ctx = creation(5000);
    let (a, _) = create_bounty(&mut ctx, "a".to_string(), "u".to_string(), [0; 32], 10, 1).unwrap();
    ctx.bounty_vault = Vault { balance: 0 };
    let (b, _) = create_bounty(&mut ctx, "b".to_string(), "u".to_string(), [0; 32], 20, 2).unwrap();
    assert_eq!(a.bounty_id, 1);
    assert_eq!(b.bounty_id, 2);
    assert_eq!(ctx.bounty_manager.next_bounty_id, 3);
    assert_eq!(ctx.bounty_vault.balance, 20);
    assert_eq!(ctx.sponsor.lamports, 4970);
}

#[test]
fn amount_zero_rejected_one_accepted() {
    let mut ctx = creation(5000);
    let r = create_bounty(&mut ctx, "T1".to_string(), "https://x".to_string(), [7; 32], 0, 100);
    assert_eq!(r.unwrap_err(), BountyError::InvalidAmount);
    assert_eq!(ctx.bounty_manager.next_bounty_id, 1);
    let (b, _) =
        create_bounty(&mut ctx, "T1".to_string(), "https://x".to_string(), [7; 32], 1, 100).unwrap();
    assert_eq!(b.amount, 1);
    assert_eq!(ctx.bounty_vault.balance, 1);
}

#[test]
fn task_id_cap_is_inclusive() {
    let mut ctx = creation(5000);
    let r = create_bounty(&mut ctx, "a".repeat(201), "u".to_string(), [0; 32], 5, 1);
    assert_eq!(r.unwrap_err(), BountyError::TaskIdTooLong);
    assert_eq!(ctx.bounty_vault.balance, 0);
    assert_eq!(ctx.bounty_manager.next_bounty_id, 1);
    let (b, _) = create_bounty(&mut ctx, "a".repeat(200), "u".to_string(), [0; 32], 5, 1).unwrap();
    assert_eq!(b.task_id.len(), 200);
}

#[test]
fn task_id_cap_counts_bytes() {
    let mut ctx = creation(5000);
    // 101 two-byte characters: 202 bytes.
    let r = create_bounty(&mut ctx, "é".repeat(101), "u".to_string(), [0; 32], 5, 1);
    assert_eq!(r.unwrap_err(), BountyError::TaskIdTooLong);
    assert!(create_bounty(&mut ctx, "é".repeat(100), "u".to_string(), [0; 32], 5, 1).is_ok());
}

#[test]
fn task_url_cap_is_inclusive() {
    let mut ctx = creation(5000);
    let r = create_bounty(&mut ctx, "t".to_string(), "u".repeat(501), [0; 32], 5, 1);
    assert_eq!(r.unwrap_err(), BountyError::TaskUrlTooLong);
    assert_eq!(ctx.sponsor.lamports, 5000);
    assert!(create_bounty(&mut ctx, "t".to_string(), "u".repeat(500), [0; 32], 5, 1).is_ok());
}

#[test]
fn task_id_checked_before_url_and_amount() {
    let mut ctx = creation(5000);
    let r = create_bounty(&mut ctx, "a".repeat(201), "u".repeat(501), [0; 32], 0, 1);
    assert_eq!(r.unwrap_err(), BountyError::TaskIdTooLong);
    let r = create_bounty(&mut ctx, "a".to_string(), "u".repeat(501), [0; 32], 0, 1);
    assert_eq!(r.unwrap_err(), BountyError::TaskUrlTooLong);
}

#[test]
fn sponsor_without_funds_is_refused() {
    let mut ctx = creation(999);
    let r = create_bounty(&mut ctx, "T1".to_string(), "https://x".to_string(), [7; 32], 1000, 100);
    assert_eq!(r.unwrap_err(), BountyError::InsufficientFunds);
    assert_eq!(ctx.sponsor.lamports, 999);
    assert_eq!(ctx.bounty_manager.next_bounty_id, 1);
}

fn accepted_bounty() -> Bounty {
    let mut accept = AcceptBounty { bounty: open_bounty(1000), sponsor: who(1) };
    accept_bounty(&mut accept, who(2), 200).unwrap();
    accept.bounty
}

#[test]
fn submission_url_cap_is_inclusive() {
    let mut submit = SubmitBounty { bounty: accepted_bounty(), worker: who(2) };
    let r = submit_bounty(&mut submit, "s".repeat(501), 300);
    assert_eq!(r.unwrap_err(), BountyError::SubmissionUrlTooLong);
    assert_eq!(submit.bounty.status, BountyStatus::Accepted);
    assert!(submit_bounty(&mut submit, "s".repeat(500), 300).is_ok());
    assert_eq!(submit.bounty.submission_url.len(), 500);
}

#[test]
fn submit_by_other_than_worker_fails() {
    let mut submit = SubmitBounty { bounty: accepted_bounty(), worker: who(1) };
    assert_eq!(
        submit_bounty(&mut submit, "https://sub".to_string(), 300).unwrap_err(),
        BountyError::UnauthorizedWorker
    );
    assert_eq!(submit.bounty.status, BountyStatus::Accepted);
}

#[test]
fn accept_twice_fails() {
    let mut accept = AcceptBounty { bounty: accepted_bounty(), sponsor: who(1) };
    assert_eq!(accept_bounty(&mut accept, who(4), 250).unwrap_err(), BountyError::InvalidBountyStatus);
    assert_eq!(accept.bounty.worker.bytes, [2; 32]);
}

#[test]
fn confirm_before_submit_and_by_stranger_fail() {
    let mut confirm = ConfirmBounty { bounty: accepted_bounty(), sponsor: who(1) };
    assert_eq!(confirm_bounty(&mut confirm, 400).unwrap_err(), BountyError::InvalidBountyStatus);
    let mut submit = SubmitBounty { bounty: confirm.bounty, worker: who(2) };
    submit_bounty(&mut submit, "https://sub".to_string(), 300).unwrap();
    let mut confirm = ConfirmBounty { bounty: submit.bounty, sponsor: who(2) };
    assert_eq!(confirm_bounty(&mut confirm, 400).unwrap_err(), BountyError::UnauthorizedSponsor);
    assert_eq!(confirm.bounty.status, BountyStatus::Submitted);
    assert_eq!(confirm.bounty.confirmed_at, 0);
}

fn confirmed_bounty() -> Bounty {
    let mut submit = SubmitBounty { bounty: accepted_bounty(), worker: who(2) };
    submit_bounty(&mut submit, "https://sub".to_string(), 300).unwrap();
    let mut confirm = ConfirmBounty { bounty: submit.bounty, sponsor: who(1) };
    confirm_bounty(&mut confirm, 400).unwrap();
    confirm.bounty
}

#[test]
fn claim_by_stranger_fails_and_keeps_vault() {
    let mut claim = ClaimBounty {
        bounty: confirmed_bounty(),
        bounty_vault: Vault { balance: 1000 },
        worker: Wallet { key: who(1), lamports: 0 },
    };
    assert_eq!(claim_bounty(&mut claim, 500).unwrap_err(), BountyError::UnauthorizedWorker);
    assert_eq!(claim.bounty_vault.balance, 1000);
    assert_eq!(claim.worker.lamports, 0);
    assert_eq!(claim.bounty.status, BountyStatus::Confirmed);
}

#[test]
fn claim_before_confirm_fails() {
    let mut claim = ClaimBounty {
        bounty: accepted_bounty(),
        bounty_vault: Vault { balance: 1000 },
        worker: Wallet { key: who(2), lamports: 0 },
    };
    assert_eq!(claim_bounty(&mut claim, 500).unwrap_err(), BountyError::InvalidBountyStatus);
    assert_eq!(claim.bounty_vault.balance, 1000);
}

#[test]
fn claim_into_full_wallet_overflows() {
    let mut claim = ClaimBounty {
        bounty: confirmed_bounty(),
        bounty_vault: Vault { balance: 1000 },
        worker: Wallet { key: who(2), lamports: u64::MAX - 999 },
    };
    assert_eq!(claim_bounty(&mut claim, 500).unwrap_err(), BountyError::ArithmeticOverflow);
    assert_eq!(claim.bounty_vault.balance, 1000);
}

#[test]
fn claim_from_short_vault_fails() {
    let mut claim = ClaimBounty {
        bounty: confirmed_bounty(),
        bounty_vault: Vault { balance: 999 },
        worker: Wallet { key: who(2), lamports: 0 },
    };
    assert_eq!(claim_bounty(&mut claim, 500).unwrap_err(), BountyError::InsufficientFunds);
}

#[test]
fn nothing_succeeds_after_claim() {
    let mut claim = ClaimBounty {
        bounty: confirmed_bounty(),
        bounty_vault: Vault { balance: 1000 },
        worker: Wallet { key: who(2), lamports: 0 },
    };
    claim_bounty(&mut claim, 500).unwrap();
    assert_eq!(claim.bounty_vault.balance, 0);
    assert_eq!(claim_bounty(&mut claim, 600).unwrap_err(), BountyError::InvalidBountyStatus);
    assert_eq!(claim.worker.lamports, 1000);
    let mut accept = AcceptBounty { bounty: claim.bounty, sponsor: who(1) };
    assert_eq!(accept_bounty(&mut accept, who(2), 700).unwrap_err(), BountyError::InvalidBountyStatus);
    let mut submit = SubmitBounty { bounty: accept.bounty, worker: who(2) };
    assert_eq!(
        submit_bounty(&mut submit, "x".to_string(), 700).unwrap_err(),
        BountyError::InvalidBountyStatus
    );
    let mut confirm = ConfirmBounty { bounty: submit.bounty, sponsor: who(1) };
    assert_eq!(confirm_bounty(&mut confirm, 700).unwrap_err(), BountyError::InvalidBountyStatus);
    assert_eq!(confirm.bounty.status, BountyStatus::Claimed);
}

#[test]
fn same_as_compares_every_byte() {
    let mut b = [5u8; 32];
    assert!(Identity::new(b).same_as(&Identity::new([5; 32])));
    b[31] = 6;
    assert!(!Identity::new(b).same_as(&Identity::new([5; 32])));
    assert_eq!(Identity::system_program().bytes, [0; 32]);
}

#[test]
fn error_messages() {
    assert_eq!(BountyError::InvalidAmount.message(), "Bounty amount must be greater than zero");
    assert_eq!(BountyError::ArithmeticOverflow.message(), "Arithmetic overflow occurred");
}
