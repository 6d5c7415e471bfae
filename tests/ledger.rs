use bounty_manager::{BountyError, BountyStatus, Identity, Initialize, Ledger, Wallet};

fn who(b: u8) -> Identity {
    Identity::new([b; 32])
}

fn ledger() -> Ledger {
    Ledger::new(&Initialize { authority: who(9), bump: 254 })
}

#[test]
fn ledger_end_to_end() {
    let mut l = ledger();
    let mut sponsor = Wallet { key: who(1), lamports: 5000 };
    let mut worker = Wallet { key: who(2), lamports: 10 };
    let ev = l
        .create(&mut sponsor, "T1".to_string(), "https://x".to_string(), [3; 32], 1000, 250, 100)
        .unwrap();
    assert_eq!(ev.bounty_id, 1);
    assert_eq!(l.manager.next_bounty_id, 2);
    assert_eq!(sponsor.lamports, 4000);
    {
        let rec = l.get(1).unwrap();
        assert_eq!(rec.bounty.status, BountyStatus::Open);
        assert_eq!(rec.vault.balance, 1000);
        assert_eq!(rec.bounty.bump, 250);
    }
    l.accept(1, who(1), who(2), 200).unwrap();
    assert_eq!(l.get(1).unwrap().bounty.worker.bytes, [2; 32]);
    l.submit(1, who(2), "https://sub".to_string(), 300).unwrap();
    assert_eq!(l.get(1).unwrap().bounty.status, BountyStatus::Submitted);
    l.confirm(1, who(1), 400).unwrap();
    assert_eq!(l.get(1).unwrap().bounty.status, BountyStatus::Confirmed);
    let paid = l.claim(1, &mut worker, 500).unwrap();
    assert_eq!(paid.amount, 1000);
    assert_eq!(worker.lamports, 1010);
    let rec = l.get(1).unwrap();
    assert_eq!(rec.bounty.status, BountyStatus::Claimed);
    assert_eq!(rec.vault.balance, 0);
    assert_eq!(l.claim(1, &mut worker, 600).unwrap_err(), BountyError::InvalidBountyStatus);
    assert_eq!(worker.lamports, 1010);
}

#[test]
fn ledger_keeps_bounties_apart() {
    let mut l = ledger();
    let mut sponsor = Wallet { key: who(1), lamports: 5000 };
    l.create(&mut sponsor, "a".to_string(), "u".to_string(), [0; 32], 100, 1, 1).unwrap();
    l.create(&mut sponsor, "b".to_string(), "u".to_string(), [0; 32], 200, 1, 2).unwrap();
    l.accept(2, who(1), who(5), 3).unwrap();
    assert_eq!(l.get(1).unwrap().bounty.status, BountyStatus::Open);
    assert_eq!(l.get(2).unwrap().bounty.status, BountyStatus::Accepted);
    assert_eq!(l.get(1).unwrap().vault.balance, 100);
    assert_eq!(l.get(2).unwrap().vault.balance, 200);
    assert_eq!(l.records.len(), 2);
    assert_eq!(sponsor.lamports, 4700);
}

#[test]
fn ledger_unknown_id_is_refused() {
    let mut l = ledger();
    let mut worker = Wallet { key: who(2), lamports: 0 };
    assert!(l.get(7).is_none());
    assert_eq!(l.accept(7, who(1), who(2), 1).unwrap_err(), BountyError::BountyNotFound);
    assert_eq!(l.submit(7, who(2), "s".to_string(), 1).unwrap_err(), BountyError::BountyNotFound);
    assert_eq!(l.confirm(7, who(1), 1).unwrap_err(), BountyError::BountyNotFound);
    assert_eq!(l.claim(7, &mut worker, 1).unwrap_err(), BountyError::BountyNotFound);
}

#[test]
fn ledger_counter_overflow_creates_no_record() {
    let mut l = ledger();
    l.manager.next_bounty_id = u64::MAX;
    let mut sponsor = Wallet { key: who(1), lamports: 5000 };
    let r = l.create(&mut sponsor, "T1".to_string(), "https://x".to_string(), [0; 32], 1000, 1, 1);
    assert_eq!(r.unwrap_err(), BountyError::ArithmeticOverflow);
    assert_eq!(l.records.len(), 0);
    assert_eq!(sponsor.lamports, 5000);
    assert_eq!(l.manager.next_bounty_id, u64::MAX);
}

#[test]
fn ledger_refuses_wrong_callers_without_change() {
    let mut l = ledger();
    let mut sponsor = Wallet { key: who(1), lamports: 5000 };
    l.create(&mut sponsor, "a".to_string(), "u".to_string(), [0; 32], 100, 1, 1).unwrap();
    assert_eq!(l.accept(1, who(3), who(2), 2).unwrap_err(), BountyError::UnauthorizedSponsor);
    assert_eq!(l.get(1).unwrap().bounty.status, BountyStatus::Open);
    l.accept(1, who(1), who(2), 2).unwrap();
    assert_eq!(l.submit(1, who(3), "s".to_string(), 3).unwrap_err(), BountyError::UnauthorizedWorker);
    l.submit(1, who(2), "s".to_string(), 3).unwrap();
    assert_eq!(l.confirm(1, who(2), 4).unwrap_err(), BountyError::UnauthorizedSponsor);
    l.confirm(1, who(1), 4).unwrap();
    let mut stranger = Wallet { key: who(3), lamports: 0 };
    assert_eq!(l.claim(1, &mut stranger, 5).unwrap_err(), BountyError::UnauthorizedWorker);
    assert_eq!(stranger.lamports, 0);
    assert_eq!(l.get(1).unwrap().vault.balance, 100);
}
