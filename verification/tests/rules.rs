use bounty_escrow::batch::BatchReceipt;
use bounty_escrow::contract::{BalanceQuery, BountyEscrowContract};
use bounty_escrow::effects::{Action, Event};
use bounty_escrow::principal::{Principal, PrincipalKind};
use bounty_escrow::types::{
    Config, DataKey, Error, Escrow, EscrowStatus, LockFundsItem, ReleaseFundsItem, MAX_BATCH_SIZE,
};

fn account(n: u8) -> Principal {
    Principal { kind: PrincipalKind::Account, key: [n; 32] }
}

fn contract(n: u8) -> Principal {
    Principal { kind: PrincipalKind::Contract, key: [n; 32] }
}

const ADMIN: u8 = 1;
const TOKEN: u8 = 2;

fn configured() -> BountyEscrowContract {
    let mut ledger = BountyEscrowContract::new();
    ledger.init(account(ADMIN), contract(TOKEN), 10).unwrap();
    ledger
}

fn lock_item(bounty_id: u64, depositor: Principal, amount: i128) -> LockFundsItem {
    LockFundsItem { bounty_id, depositor, amount, deadline: 500 }
}

fn release_item(bounty_id: u64, contributor: Principal) -> ReleaseFundsItem {
    ReleaseFundsItem { bounty_id, contributor }
}

fn records_of(ledger: &BountyEscrowContract, ids: &[u64]) -> Vec<Result<Escrow, Error>> {
    ids.iter().map(|id| ledger.get_escrow_info(*id)).collect()
}

fn entry_amounts(actions: &[Action]) -> i128 {
    let mut sum = 0;
    for a in actions {
        match a {
            Action::Emit { event: Event::FundsLocked { amount, .. } } => sum += amount,
            Action::Emit { event: Event::FundsReleased { amount, .. } } => sum += amount,
            _ => {}
        }
    }
    sum
}

fn moved_in(actions: &[Action]) -> i128 {
    let mut sum = 0;
    for a in actions {
        match a {
            Action::TransferIn { amount, .. } => sum += amount,
            Action::TransferOut { amount, .. } => sum -= amount,
            _ => {}
        }
    }
    sum
}

#[test]
fn new_ledger_is_empty_and_unconfigured() {
    let ledger = BountyEscrowContract::new();
    assert_eq!(ledger.config(), None);
    assert!(!ledger.has(DataKey::Admin));
    assert!(!ledger.has(DataKey::Token));
    assert!(!ledger.has(DataKey::Escrow(1)));
    assert_eq!(ledger.get_escrow_info(1), Err(Error::BountyNotFound));
    assert_eq!(ledger.get_balance(), Err(Error::NotInitialized));
}

#[test]
fn init_stores_configuration_and_announces_it() {
    let mut ledger = BountyEscrowContract::new();
    let actions = ledger.init(account(ADMIN), contract(TOKEN), 1234).unwrap();
    assert_eq!(
        actions,
        vec![Action::Emit {
            event: Event::Initialized {
                admin: account(ADMIN),
                token: contract(TOKEN),
                timestamp: 1234
            }
        }]
    );
    assert_eq!(ledger.config(), Some(Config { admin: account(ADMIN), token: contract(TOKEN) }));
    assert!(ledger.has(DataKey::Admin));
    assert!(ledger.has(DataKey::Token));
    assert_eq!(ledger.get_balance(), Ok(BalanceQuery { token: contract(TOKEN) }));
}

#[test]
fn init_twice_is_refused_whatever_the_values() {
    let mut ledger = configured();
    assert_eq!(ledger.init(account(ADMIN), contract(TOKEN), 11), Err(Error::AlreadyInitialized));
    assert_eq!(ledger.init(account(9), contract(8), 12), Err(Error::AlreadyInitialized));
    assert_eq!(Error::AlreadyInitialized.code(), 1);
    assert_eq!(ledger.config(), Some(Config { admin: account(ADMIN), token: contract(TOKEN) }));
}

#[test]
fn operations_on_unconfigured_ledger_are_refused() {
    let mut ledger = BountyEscrowContract::new();
    assert_eq!(ledger.lock_funds(account(3), 1, 10, 100), Err(Error::NotInitialized));
    assert_eq!(ledger.release_funds(1, account(4), 5), Err(Error::NotInitialized));
    assert_eq!(ledger.refund(1, 5), Err(Error::BountyNotFound));
    assert_eq!(
        ledger.batch_lock_funds(vec![lock_item(1, account(3), 10)], 5),
        Err(Error::NotInitialized)
    );
    assert_eq!(
        ledger.batch_release_funds(vec![release_item(1, account(4))], 5),
        Err(Error::NotInitialized)
    );
    assert_eq!(Error::NotInitialized.code(), 2);
    assert!(!ledger.has(DataKey::Escrow(1)));
}

#[test]
fn batch_size_is_checked_before_configuration() {
    let mut ledger = BountyEscrowContract::new();
    assert_eq!(ledger.batch_lock_funds(vec![], 5), Err(Error::InvalidBatchSize));
    assert_eq!(ledger.batch_release_funds(vec![], 5), Err(Error::InvalidBatchSize));
}

#[test]
fn lock_asks_for_proof_then_transfer_then_notification() {
    let mut ledger = configured();
    let d = account(3);
    let actions = ledger.lock_funds(d, 7, 250, 900).unwrap();
    assert_eq!(
        actions,
        vec![
            Action::RequireAuth { principal: d },
            Action::TransferIn { token: contract(TOKEN), from: d, amount: 250 },
            Action::Emit {
                event: Event::FundsLocked { bounty_id: 7, amount: 250, depositor: d, deadline: 900 }
            },
        ]
    );
    assert_eq!(
        ledger.get_escrow_info(7),
        Ok(Escrow { depositor: d, amount: 250, status: EscrowStatus::Locked, deadline: 900 })
    );
    assert!(ledger.has(DataKey::Escrow(7)));
    assert_eq!(moved_in(&actions), 250);
}

#[test]
fn lock_does_not_judge_the_amount() {
    let mut ledger = configured();
    let d = account(3);
    let actions = ledger.lock_funds(d, 1, 0, 900).unwrap();
    assert_eq!(actions[1], Action::TransferIn { token: contract(TOKEN), from: d, amount: 0 });
    let actions = ledger.lock_funds(d, 2, -5, 900).unwrap();
    assert_eq!(actions[1], Action::TransferIn { token: contract(TOKEN), from: d, amount: -5 });
}

#[test]
fn second_lock_fails_even_after_settlement() {
    let mut ledger = configured();
    let d = account(3);
    ledger.lock_funds(d, 1, 100, 50).unwrap();
    assert_eq!(ledger.lock_funds(account(5), 1, 7, 60), Err(Error::BountyExists));
    ledger.release_funds(1, account(4), 20).unwrap();
    assert_eq!(ledger.lock_funds(d, 1, 100, 50), Err(Error::BountyExists));
    ledger.lock_funds(d, 2, 100, 50).unwrap();
    ledger.refund(2, 50).unwrap();
    assert_eq!(ledger.lock_funds(d, 2, 100, 50), Err(Error::BountyExists));
    assert_eq!(
        ledger.get_escrow_info(1),
        Ok(Escrow { depositor: d, amount: 100, status: EscrowStatus::Released, deadline: 50 })
    );
}

#[test]
fn release_pays_the_recorded_amount_to_the_contributor() {
    let mut ledger = configured();
    let d = account(3);
    let c = account(4);
    ledger.lock_funds(d, 1, 100, 50).unwrap();
    let actions = ledger.release_funds(1, c, 20).unwrap();
    assert_eq!(
        actions,
        vec![
            Action::RequireAuth { principal: account(ADMIN) },
            Action::TransferOut { token: contract(TOKEN), to: c, amount: 100 },
            Action::Emit {
                event: Event::FundsReleased { bounty_id: 1, amount: 100, recipient: c, timestamp: 20 }
            },
        ]
    );
    assert_eq!(moved_in(&actions), -100);
}

#[test]
fn refund_at_the_deadline_succeeds_once() {
    let mut ledger = configured();
    let d = account(3);
    ledger.lock_funds(d, 1, 100, 50).unwrap();
    assert_eq!(ledger.refund(1, 49), Err(Error::DeadlineNotPassed));
    let actions = ledger.refund(1, 50).unwrap();
    assert_eq!(
        actions,
        vec![
            Action::TransferOut { token: contract(TOKEN), to: d, amount: 100 },
            Action::Emit {
                event: Event::FundsRefunded { bounty_id: 1, amount: 100, refund_to: d, timestamp: 50 }
            },
        ]
    );
    assert_eq!(
        ledger.get_escrow_info(1),
        Ok(Escrow { depositor: d, amount: 100, status: EscrowStatus::Refunded, deadline: 50 })
    );
    assert_eq!(ledger.refund(1, 51), Err(Error::FundsNotLocked));
    assert_eq!(ledger.release_funds(1, account(4), 51), Err(Error::FundsNotLocked));
}

#[test]
fn refund_of_unknown_bounty_is_not_found() {
    let mut ledger = configured();
    assert_eq!(ledger.refund(42, u64::MAX), Err(Error::BountyNotFound));
}

#[test]
fn refund_asks_for_no_proof() {
    let mut ledger = configured();
    ledger.lock_funds(account(3), 1, 100, 0).unwrap();
    let actions = ledger.refund(1, 0).unwrap();
    assert!(actions.iter().all(|a| !matches!(a, Action::RequireAuth { .. })));
}

#[test]
fn batch_of_one_hundred_is_accepted_and_one_more_is_not() {
    assert_eq!(MAX_BATCH_SIZE, 100);
    let d = account(3);
    let mut ledger = configured();
    let items: Vec<LockFundsItem> = (1..=100).map(|i| lock_item(i, d, 1)).collect();
    let receipt = ledger.batch_lock_funds(items, 5).unwrap();
    assert_eq!(receipt.count, 100);
    assert!(ledger.has(DataKey::Escrow(100)));

    let mut ledger = configured();
    let items: Vec<LockFundsItem> = (1..=101).map(|i| lock_item(i, d, 1)).collect();
    assert_eq!(ledger.batch_lock_funds(items, 5), Err(Error::InvalidBatchSize));
    assert!(!ledger.has(DataKey::Escrow(1)));

    let mut ledger = configured();
    for i in 1..=101 {
        ledger.lock_funds(d, i, 1, 0).unwrap();
    }
    let items: Vec<ReleaseFundsItem> = (1..=101).map(|i| release_item(i, d)).collect();
    assert_eq!(ledger.batch_release_funds(items, 5), Err(Error::InvalidBatchSize));
    assert_eq!(ledger.get_escrow_info(1).unwrap().status, EscrowStatus::Locked);
    let items: Vec<ReleaseFundsItem> = (1..=100).map(|i| release_item(i, d)).collect();
    assert_eq!(ledger.batch_release_funds(items, 5).unwrap().count, 100);
    assert_eq!(ledger.get_escrow_info(100).unwrap().status, EscrowStatus::Released);
    assert_eq!(ledger.get_escrow_info(101).unwrap().status, EscrowStatus::Locked);
}

#[test]
fn batch_lock_gives_actions_in_order() {
    let mut ledger = configured();
    let a = account(3);
    let b = account(4);
    let token = contract(TOKEN);
    let items =
        vec![lock_item(1, a, 1000), lock_item(2, b, 2000), lock_item(3, a, 3000)];
    let BatchReceipt { count, actions } = ledger.batch_lock_funds(items, 77).unwrap();
    assert_eq!(count, 3);
    assert_eq!(
        actions,
        vec![
            Action::RequireAuth { principal: a },
            Action::RequireAuth { principal: b },
            Action::TransferIn { token, from: a, amount: 1000 },
            Action::Emit {
                event: Event::FundsLocked { bounty_id: 1, amount: 1000, depositor: a, deadline: 500 }
            },
            Action::TransferIn { token, from: b, amount: 2000 },
            Action::Emit {
                event: Event::FundsLocked { bounty_id: 2, amount: 2000, depositor: b, deadline: 500 }
            },
            Action::TransferIn { token, from: a, amount: 3000 },
            Action::Emit {
                event: Event::FundsLocked { bounty_id: 3, amount: 3000, depositor: a, deadline: 500 }
            },
            Action::Emit {
                event: Event::BatchFundsLocked { count: 3, total_amount: 6000, timestamp: 77 }
            },
        ]
    );
    assert_eq!(entry_amounts(&actions), 6000);
    assert_eq!(moved_in(&actions), 6000);
    assert_eq!(
        ledger.get_escrow_info(2),
        Ok(Escrow { depositor: b, amount: 2000, status: EscrowStatus::Locked, deadline: 500 })
    );
}

#[test]
fn batch_lock_asks_each_depositor_once() {
    let mut ledger = configured();
    let a = account(3);
    let b = contract(3);
    let c = account(5);
    let items = vec![
        lock_item(1, b, 1),
        lock_item(2, a, 1),
        lock_item(3, b, 1),
        lock_item(4, c, 1),
        lock_item(5, a, 1),
        lock_item(6, b, 1),
    ];
    let receipt = ledger.batch_lock_funds(items, 0).unwrap();
    let asked: Vec<Principal> = receipt
        .actions
        .iter()
        .filter_map(|x| match x {
            Action::RequireAuth { principal } => Some(*principal),
            _ => None,
        })
        .collect();
    assert_eq!(asked, vec![b, a, c]);
    assert!(receipt.actions[..3].iter().all(|x| matches!(x, Action::RequireAuth { .. })));
}

#[test]
fn batch_lock_refuses_amounts_that_are_not_positive() {
    let d = account(3);
    for bad in [0i128, -1, i128::MIN] {
        let mut ledger = configured();
        let items = vec![lock_item(1, d, 5), lock_item(2, d, bad)];
        assert_eq!(ledger.batch_lock_funds(items, 0), Err(Error::InvalidBatchSize));
        assert_eq!(
            records_of(&ledger, &[1, 2]),
            vec![Err(Error::BountyNotFound), Err(Error::BountyNotFound)]
        );
    }
}

#[test]
fn batch_lock_reports_the_first_faulty_entry() {
    let d = account(3);
    let mut ledger = configured();
    ledger.lock_funds(d, 9, 1, 0).unwrap();

    // Entry 0 is fine; entry 1 has a bad amount; entry 2 exists already.
    let items = vec![lock_item(1, d, 5), lock_item(2, d, 0), lock_item(9, d, 5)];
    assert_eq!(ledger.batch_lock_funds(items, 0), Err(Error::InvalidBatchSize));

    // Entry 0 exists already; entry 1 has a bad amount.
    let items = vec![lock_item(9, d, 5), lock_item(2, d, 0)];
    assert_eq!(ledger.batch_lock_funds(items, 0), Err(Error::BountyExists));

    // Entry 0 is repeated by entry 2; entry 1 exists already.
    let items = vec![lock_item(1, d, 5), lock_item(9, d, 5), lock_item(1, d, 5)];
    assert_eq!(ledger.batch_lock_funds(items, 0), Err(Error::DuplicateBountyId));

    // Within one entry: existing comes before amount, amount before repeated.
    let items = vec![lock_item(9, d, 0), lock_item(9, d, 0)];
    assert_eq!(ledger.batch_lock_funds(items, 0), Err(Error::BountyExists));
    let items = vec![lock_item(4, d, 0), lock_item(4, d, 1)];
    assert_eq!(ledger.batch_lock_funds(items, 0), Err(Error::InvalidBatchSize));

    assert_eq!(
        records_of(&ledger, &[1, 2, 4]),
        vec![Err(Error::BountyNotFound), Err(Error::BountyNotFound), Err(Error::BountyNotFound)]
    );
    assert_eq!(ledger.get_escrow_info(9).unwrap().amount, 1);
}

#[test]
fn batch_lock_refuses_a_total_beyond_i128() {
    let d = account(3);
    let mut ledger = configured();
    let items = vec![lock_item(1, d, i128::MAX), lock_item(2, d, 1)];
    assert_eq!(ledger.batch_lock_funds(items, 0), Err(Error::InvalidBatchSize));
    assert_eq!(
        records_of(&ledger, &[1, 2]),
        vec![Err(Error::BountyNotFound), Err(Error::BountyNotFound)]
    );

    let items = vec![lock_item(1, d, i128::MAX - 1), lock_item(2, d, 1)];
    let receipt = ledger.batch_lock_funds(items, 3).unwrap();
    assert_eq!(
        receipt.actions.last(),
        Some(&Action::Emit {
            event: Event::BatchFundsLocked { count: 2, total_amount: i128::MAX, timestamp: 3 }
        })
    );
}

#[test]
fn batch_release_gives_actions_in_order() {
    let mut ledger = configured();
    let d = account(3);
    let token = contract(TOKEN);
    ledger.lock_funds(d, 1, 1000, 0).unwrap();
    ledger.lock_funds(d, 2, 2000, 0).unwrap();
    ledger.lock_funds(d, 3, 3000, 0).unwrap();
    let c1 = account(11);
    let c2 = account(12);
    let items = vec![release_item(3, c1), release_item(1, c2)];
    let BatchReceipt { count, actions } = ledger.batch_release_funds(items, 88).unwrap();
    assert_eq!(count, 2);
    assert_eq!(
        actions,
        vec![
            Action::RequireAuth { principal: account(ADMIN) },
            Action::TransferOut { token, to: c1, amount: 3000 },
            Action::Emit {
                event: Event::FundsReleased {
                    bounty_id: 3,
                    amount: 3000,
                    recipient: c1,
                    timestamp: 88
                }
            },
            Action::TransferOut { token, to: c2, amount: 1000 },
            Action::Emit {
                event: Event::FundsReleased {
                    bounty_id: 1,
                    amount: 1000,
                    recipient: c2,
                    timestamp: 88
                }
            },
            Action::Emit {
                event: Event::BatchFundsReleased { count: 2, total_amount: 4000, timestamp: 88 }
            },
        ]
    );
    assert_eq!(entry_amounts(&actions), 4000);
    assert_eq!(moved_in(&actions), -4000);
    assert_eq!(
        records_of(&ledger, &[1, 2, 3]),
        vec![
            Ok(Escrow { depositor: d, amount: 1000, status: EscrowStatus::Released, deadline: 0 }),
            Ok(Escrow { depositor: d, amount: 2000, status: EscrowStatus::Locked, deadline: 0 }),
            Ok(Escrow { depositor: d, amount: 3000, status: EscrowStatus::Released, deadline: 0 }),
        ]
    );
}

#[test]
fn batch_release_reports_the_first_faulty_entry() {
    let d = account(3);
    let c = account(4);
    let mut ledger = configured();
    ledger.lock_funds(d, 1, 10, 0).unwrap();
    ledger.lock_funds(d, 2, 10, 0).unwrap();
    ledger.lock_funds(d, 3, 10, 0).unwrap();
    ledger.refund(3, 0).unwrap();

    let items = vec![release_item(1, c), release_item(3, c), release_item(99, c)];
    assert_eq!(ledger.batch_release_funds(items, 0), Err(Error::FundsNotLocked));
    let items = vec![release_item(1, c), release_item(99, c), release_item(3, c)];
    assert_eq!(ledger.batch_release_funds(items, 0), Err(Error::BountyNotFound));
    let items = vec![release_item(1, c), release_item(2, c), release_item(1, c), release_item(99, c)];
    assert_eq!(ledger.batch_release_funds(items, 0), Err(Error::DuplicateBountyId));
    let items = vec![release_item(3, c), release_item(3, c)];
    assert_eq!(ledger.batch_release_funds(items, 0), Err(Error::FundsNotLocked));

    assert_eq!(ledger.get_escrow_info(1).unwrap().status, EscrowStatus::Locked);
    assert_eq!(ledger.get_escrow_info(2).unwrap().status, EscrowStatus::Locked);
    assert_eq!(ledger.get_escrow_info(3).unwrap().status, EscrowStatus::Refunded);
}

#[test]
fn batch_release_refuses_a_total_beyond_i128() {
    let d = account(3);
    let c = account(4);
    let mut ledger = configured();
    ledger.lock_funds(d, 1, i128::MAX, 0).unwrap();
    ledger.lock_funds(d, 2, 1, 0).unwrap();
    ledger.lock_funds(d, 3, -1, 0).unwrap();

    let items = vec![release_item(1, c), release_item(2, c)];
    assert_eq!(ledger.batch_release_funds(items, 0), Err(Error::InvalidBatchSize));
    // The running total is what counts: it overflows before the third entry brings it back.
    let items = vec![release_item(1, c), release_item(2, c), release_item(3, c)];
    assert_eq!(ledger.batch_release_funds(items, 0), Err(Error::InvalidBatchSize));
    // The overflow at the second entry is met before the missing fourth bounty.
    let items = vec![release_item(1, c), release_item(2, c), release_item(99, c)];
    assert_eq!(ledger.batch_release_funds(items, 0), Err(Error::InvalidBatchSize));
    assert_eq!(ledger.get_escrow_info(1).unwrap().status, EscrowStatus::Locked);

    let items = vec![release_item(1, c), release_item(3, c), release_item(2, c)];
    let receipt = ledger.batch_release_funds(items, 9).unwrap();
    assert_eq!(
        receipt.actions.last(),
        Some(&Action::Emit {
            event: Event::BatchFundsReleased { count: 3, total_amount: i128::MAX, timestamp: 9 }
        })
    );
}

#[test]
fn failed_batch_leaves_every_record_as_it_was() {
    let d = account(3);
    let c = account(4);
    let mut ledger = configured();
    ledger.lock_funds(d, 1, 10, 5).unwrap();
    ledger.lock_funds(d, 2, 20, 5).unwrap();
    ledger.release_funds(2, c, 1).unwrap();
    let before = records_of(&ledger, &[1, 2, 3, 4]);

    assert!(ledger.batch_lock_funds(vec![lock_item(3, d, 1), lock_item(1, d, 1)], 0).is_err());
    assert!(ledger.batch_lock_funds(vec![lock_item(3, d, 1), lock_item(4, d, 0)], 0).is_err());
    assert!(ledger.batch_lock_funds(vec![lock_item(3, d, 1), lock_item(3, d, 1)], 0).is_err());
    assert!(ledger.batch_release_funds(vec![release_item(1, c), release_item(2, c)], 0).is_err());
    assert!(ledger.batch_release_funds(vec![release_item(1, c), release_item(3, c)], 0).is_err());
    assert!(ledger.batch_release_funds(vec![release_item(1, c), release_item(1, c)], 0).is_err());

    assert_eq!(records_of(&ledger, &[1, 2, 3, 4]), before);
}

#[test]
fn restore_brings_back_configuration_and_records() {
    let d = account(3);
    let config = Config { admin: account(ADMIN), token: contract(TOKEN) };
    let first = Escrow { depositor: d, amount: 5, status: EscrowStatus::Locked, deadline: 9 };
    let second = Escrow { depositor: d, amount: 6, status: EscrowStatus::Released, deadline: 9 };
    let third = Escrow { depositor: d, amount: 7, status: EscrowStatus::Locked, deadline: 9 };
    let mut ledger = BountyEscrowContract::restore(config, &vec![(1, first), (2, second), (1, third)]);
    assert_eq!(ledger.config(), Some(config));
    assert_eq!(ledger.get_escrow_info(1), Ok(third));
    assert_eq!(ledger.get_escrow_info(2), Ok(second));
    assert_eq!(ledger.get_escrow_info(3), Err(Error::BountyNotFound));
    assert_eq!(ledger.init(account(8), contract(9), 0), Err(Error::AlreadyInitialized));
    assert_eq!(ledger.refund(1, 9).unwrap().len(), 2);

    let empty = BountyEscrowContract::restore(config, &vec![]);
    assert_eq!(empty.config(), Some(config));
    assert!(!empty.has(DataKey::Escrow(1)));
}

#[test]
fn error_codes_are_stable() {
    let all = [
        (Error::AlreadyInitialized, 1),
        (Error::NotInitialized, 2),
        (Error::BountyExists, 3),
        (Error::BountyNotFound, 4),
        (Error::FundsNotLocked, 5),
        (Error::DeadlineNotPassed, 6),
        (Error::Unauthorized, 7),
        (Error::InvalidBatchSize, 8),
        (Error::BatchSizeMismatch, 9),
        (Error::DuplicateBountyId, 10),
    ];
    for (e, code) in all {
        assert_eq!(e.code(), code);
    }
}

#[test]
fn principals_are_the_same_by_kind_and_key() {
    let a = account(3);
    assert!(a.same(&account(3)));
    assert!(!a.same(&contract(3)));
    assert!(!a.same(&account(4)));
    let mut key = [3u8; 32];
    key[31] = 4;
    assert!(!a.same(&Principal { kind: PrincipalKind::Account, key }));
    key[31] = 3;
    key[0] = 0;
    assert!(!a.same(&Principal { kind: PrincipalKind::Account, key }));
}

#[test]
fn custody_matches_locked_records_over_a_history() {
    let d = account(3);
    let e = contract(30);
    let c = account(4);
    let mut ledger = BountyEscrowContract::new();
    let mut moved = 0i128;
    let mut take = |r: Result<Vec<Action>, Error>| {
        if let Ok(actions) = r {
            moved += moved_in(&actions);
        }
    };
    take(ledger.lock_funds(d, 1, 10, 5));
    take(ledger.init(account(ADMIN), contract(TOKEN), 0));
    take(ledger.lock_funds(d, 1, 10, 5));
    take(ledger.lock_funds(e, 2, 20, 5));
    take(ledger.lock_funds(e, 2, 99, 5));
    take(ledger.release_funds(1, c, 1));
    take(ledger.release_funds(1, c, 2));
    take(ledger.refund(2, 4));
    take(ledger.batch_lock_funds(vec![lock_item(3, d, 30), lock_item(4, e, 40)], 3).map(|r| r.actions));
    take(ledger.batch_lock_funds(vec![lock_item(5, d, 50), lock_item(3, e, 1)], 3).map(|r| r.actions));
    take(ledger.refund(2, 5));
    take(ledger.batch_release_funds(vec![release_item(4, c), release_item(2, c)], 6).map(|r| r.actions));
    take(ledger.batch_release_funds(vec![release_item(4, c)], 6).map(|r| r.actions));

    let statuses: Vec<Option<EscrowStatus>> =
        (1..=5).map(|id| ledger.get_escrow_info(id).ok().map(|r| r.status)).collect();
    assert_eq!(
        statuses,
        vec![
            Some(EscrowStatus::Released),
            Some(EscrowStatus::Refunded),
            Some(EscrowStatus::Locked),
            Some(EscrowStatus::Released),
            None,
        ]
    );
    let held: i128 = (1..=5)
        .filter_map(|id| ledger.get_escrow_info(id).ok())
        .filter(|r| r.status == EscrowStatus::Locked)
        .map(|r| r.amount)
        .sum();
    assert_eq!(held, 30);
    assert_eq!(moved, 30);
}
