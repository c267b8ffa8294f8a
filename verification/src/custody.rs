use vstd::prelude::*;
use crate::effects::{inflow, net_inflow, tally, Action};
use crate::lemmas::{
    lemma_batches_keep_finite, lemma_first_fault_some, lemma_lock_all_records,
    lemma_release_all_records, lemma_tally_auths, lemma_tally_concat, lemma_tally_lock_actions,
    lemma_tally_one, lemma_tally_release_actions,
};
use crate::model::{
    auth_actions, batch_lock_spec, batch_release_spec, distinct_depositors, init_spec,
    lock_actions, lock_all, lock_faults, lock_ids, lock_spec, lock_total, locked_record,
    refund_spec, release_actions, release_all, release_faults, release_ids, release_spec,
    release_total, repeated, settled, LedgerState,
};
use crate::principal::Principal;
use crate::types::{Escrow, EscrowStatus, LockFundsItem, ReleaseFundsItem};

verus! {

/// What is held for a record: its amount while it is `Locked`, nothing
/// after that.
pub open spec fn held_for(e: Escrow) -> int {
    if e.status == EscrowStatus::Locked {
        e.amount as int
    } else {
        0
    }
}

/// The sum of what is held for all records.
pub open spec fn locked_funds(escrows: Map<u64, Escrow>) -> int {
    escrows.dom().fold(0int, |sum: int, id: u64| sum + held_for(escrows[id]))
}

/// Two ways of adding up that agree on every member of a finite set give
/// the same sum over it.
proof fn lemma_sums_agree(s: Set<u64>, a: Map<u64, Escrow>, b: Map<u64, Escrow>)
    requires
        s.finite(),
        forall|id: u64| s.contains(id) ==> a[id] == b[id],
    ensures
        s.fold(0int, |sum: int, id: u64| sum + held_for(a[id])) == s.fold(
            0int,
            |sum: int, id: u64| sum + held_for(b[id]),
        ),
    decreases s.len(),
{
    let f = |sum: int, id: u64| sum + held_for(a[id]);
    let g = |sum: int, id: u64| sum + held_for(b[id]);
    if s.len() == 0 {
        assert(s =~= Set::<u64>::empty());
        vstd::set::fold::lemma_fold_empty(0int, f);
        vstd::set::fold::lemma_fold_empty(0int, g);
    } else {
        let x = s.choose();
        let rest = s.remove(x);
        lemma_sums_agree(rest, a, b);
        vstd::set::fold::lemma_fold_insert(rest, 0int, f, x);
        vstd::set::fold::lemma_fold_insert(rest, 0int, g, x);
    }
}

/// Writing one record changes what is held by the difference between what
/// is held for the new record and what was held for the one it replaces.
pub proof fn lemma_locked_funds_insert(escrows: Map<u64, Escrow>, id: u64, e: Escrow)
    requires
        escrows.dom().finite(),
    ensures
        locked_funds(escrows.insert(id, e)) == locked_funds(escrows) + held_for(e) - if escrows.contains_key(
            id,
        ) {
            held_for(escrows[id])
        } else {
            0
        },
{
    let after = escrows.insert(id, e);
    let f = |sum: int, k: u64| sum + held_for(escrows[k]);
    let g = |sum: int, k: u64| sum + held_for(after[k]);
    let rest = escrows.dom().remove(id);
    assert(after.dom() =~= rest.insert(id));
    lemma_sums_agree(rest, escrows, after);
    vstd::set::fold::lemma_fold_insert(rest, 0int, g, id);
    if escrows.contains_key(id) {
        vstd::set::fold::lemma_fold_insert(rest, 0int, f, id);
    } else {
        assert(escrows.dom() =~= rest);
    }
}

/// A batch lock of new bounties, none of them twice, adds the sum of its
/// amounts to what is held.
proof fn lemma_locked_funds_lock_all(escrows: Map<u64, Escrow>, items: Seq<LockFundsItem>)
    requires
        escrows.dom().finite(),
        forall|i: int| 0 <= i < items.len() ==> !escrows.contains_key((#[trigger] items[i]).bounty_id),
        forall|i: int| 0 <= i < items.len() ==> !repeated(lock_ids(items), i),
    ensures
        locked_funds(lock_all(escrows, items)) == locked_funds(escrows) + lock_total(items),
    decreases items.len(),
{
    if items.len() > 0 {
        let front = items.drop_last();
        let last = items.len() - 1;
        let id = items[last].bounty_id;
        assert forall|i: int| 0 <= i < front.len() implies !repeated(lock_ids(front), i) by {
            if repeated(lock_ids(front), i) {
                let j = choose|j: int|
                    0 <= j < lock_ids(front).len() && j != i && #[trigger] lock_ids(front)[j]
                        == lock_ids(front)[i];
                assert(lock_ids(items)[j] == lock_ids(items)[i]);
                assert(repeated(lock_ids(items), i));
            }
        }
        lemma_locked_funds_lock_all(escrows, front);
        lemma_batches_keep_finite(escrows, front, Seq::empty());
        lemma_lock_all_records(escrows, front, id);
        assert(!lock_all(escrows, front).contains_key(id)) by {
            if exists|i: int| 0 <= i < front.len() && (#[trigger] front[i]).bounty_id == id {
                let i = choose|i: int| 0 <= i < front.len() && (#[trigger] front[i]).bounty_id == id;
                assert(lock_ids(items)[i] == lock_ids(items)[last]);
                assert(repeated(lock_ids(items), last));
            }
        }
        lemma_locked_funds_insert(
            lock_all(escrows, front),
            id,
            locked_record(
                items[last].depositor,
                items[last].amount,
                items[last].deadline,
            ),
        );
    }
}

/// A batch release of locked bounties, none of them twice, takes the sum
/// of their amounts from what is held.
proof fn lemma_locked_funds_release_all(escrows: Map<u64, Escrow>, items: Seq<ReleaseFundsItem>)
    requires
        escrows.dom().finite(),
        forall|i: int|
            0 <= i < items.len() ==> escrows.contains_key((#[trigger] items[i]).bounty_id)
                && escrows[items[i].bounty_id].status == EscrowStatus::Locked,
        forall|i: int| 0 <= i < items.len() ==> !repeated(release_ids(items), i),
    ensures
        locked_funds(release_all(escrows, items)) == locked_funds(escrows) - release_total(
            escrows,
            items,
        ),
    decreases items.len(),
{
    if items.len() > 0 {
        let front = items.drop_last();
        let last = items.len() - 1;
        let id = items[last].bounty_id;
        assert forall|i: int| 0 <= i < front.len() implies !repeated(release_ids(front), i) by {
            if repeated(release_ids(front), i) {
                let j = choose|j: int|
                    0 <= j < release_ids(front).len() && j != i && #[trigger] release_ids(front)[j]
                        == release_ids(front)[i];
                assert(release_ids(items)[j] == release_ids(items)[i]);
                assert(repeated(release_ids(items), i));
            }
        }
        lemma_locked_funds_release_all(escrows, front);
        lemma_batches_keep_finite(escrows, Seq::empty(), front);
        lemma_release_all_records(escrows, front, id);
        assert(release_all(escrows, front).contains_key(id) && release_all(escrows, front)[id]
            == escrows[id]) by {
            if exists|i: int| 0 <= i < front.len() && (#[trigger] front[i]).bounty_id == id {
                let i = choose|i: int| 0 <= i < front.len() && (#[trigger] front[i]).bounty_id == id;
                assert(release_ids(items)[i] == release_ids(items)[last]);
                assert(repeated(release_ids(items), last));
            }
        }
        lemma_locked_funds_insert(
            release_all(escrows, front),
            id,
            settled(escrows[id], EscrowStatus::Released),
        );
    }
}

/// Funds move only together with a change of status, and by the record's
/// amount: an accepted lock moves the amount in, an accepted release or
/// refund moves the recorded amount out, and configuring moves nothing.
pub proof fn law_transfers_match_records(
    s: LedgerState,
    bounty_id: u64,
    who: Principal,
    other: Principal,
    amount: i128,
    deadline: u64,
    now: u64,
)
    ensures
        init_spec(s, who, other, now) matches Ok(step) ==> net_inflow(step.actions) == 0,
        lock_spec(s, who, bounty_id, amount, deadline) matches Ok(step) ==> net_inflow(
            step.actions,
        ) == amount,
        release_spec(s, bounty_id, who, now) matches Ok(step) ==> net_inflow(step.actions)
            == -s.escrows[bounty_id].amount,
        refund_spec(s, bounty_id, now) matches Ok(step) ==> net_inflow(step.actions)
            == -s.escrows[bounty_id].amount,
{
    reveal_with_fuel(tally, 4);
}

/// An accepted batch moves exactly the sum of its entries' amounts: in for
/// a batch lock, out for a batch release.
pub proof fn law_batch_transfers_match_records(
    s: LedgerState,
    locks: Seq<LockFundsItem>,
    releases: Seq<ReleaseFundsItem>,
    now: u64,
)
    ensures
        batch_lock_spec(s, locks, now) matches Ok(step) ==> net_inflow(step.actions) == lock_total(
            locks,
        ),
        batch_release_spec(s, releases, now) matches Ok(step) ==> net_inflow(step.actions)
            == -release_total(s.escrows, releases),
{
    let moved = |a: Action| inflow(a);
    if let Ok(step) = batch_lock_spec(s, locks, now) {
        let auths = auth_actions(distinct_depositors(locks));
        let entries = lock_actions(s.token(), locks);
        let last = step.actions.last();
        lemma_tally_concat(auths + entries, seq![last], moved);
        lemma_tally_concat(auths, entries, moved);
        lemma_tally_one(last, moved);
        lemma_tally_auths(distinct_depositors(locks));
        lemma_tally_lock_actions(s.token(), locks);
    }
    if let Ok(step) = batch_release_spec(s, releases, now) {
        let auths = seq![Action::RequireAuth { principal: s.admin() }];
        let entries = release_actions(s.token(), s.escrows, releases, now);
        let last = step.actions.last();
        lemma_tally_concat(auths + entries, seq![last], moved);
        lemma_tally_concat(auths, entries, moved);
        lemma_tally_one(last, moved);
        lemma_tally_one(auths[0], moved);
        lemma_first_fault_some(release_faults(s.escrows, releases));
        assert forall|i: int| 0 <= i < releases.len() implies s.escrows.contains_key(
            (#[trigger] releases[i]).bounty_id,
        ) by {
            assert(release_faults(s.escrows, releases)[i] is None);
        }
        lemma_tally_release_actions(s.token(), s.escrows, releases, now);
    }
}

/// Funds move exactly as the records say: what an accepted single
/// operation moves into custody, on balance, is the amount by which the
/// sum held for all `Locked` records grows. So no bounty is paid for or
/// paid out twice, and what the ledger's records hold is what went in and
/// has not come out.
pub proof fn law_custody_matches_records(
    s: LedgerState,
    bounty_id: u64,
    who: Principal,
    other: Principal,
    amount: i128,
    deadline: u64,
    now: u64,
)
    requires
        s.wf(),
    ensures
        init_spec(s, who, other, now) matches Ok(step) ==> locked_funds(step.next.escrows)
            == locked_funds(s.escrows) + net_inflow(step.actions),
        lock_spec(s, who, bounty_id, amount, deadline) matches Ok(step) ==> locked_funds(
            step.next.escrows,
        ) == locked_funds(s.escrows) + net_inflow(step.actions),
        release_spec(s, bounty_id, who, now) matches Ok(step) ==> locked_funds(step.next.escrows)
            == locked_funds(s.escrows) + net_inflow(step.actions),
        refund_spec(s, bounty_id, now) matches Ok(step) ==> locked_funds(step.next.escrows)
            == locked_funds(s.escrows) + net_inflow(step.actions),
{
    law_transfers_match_records(s, bounty_id, who, other, amount, deadline, now);
    if let Ok(step) = lock_spec(s, who, bounty_id, amount, deadline) {
        lemma_locked_funds_insert(s.escrows, bounty_id, step.next.escrows[bounty_id]);
    }
    if let Ok(step) = release_spec(s, bounty_id, who, now) {
        lemma_locked_funds_insert(s.escrows, bounty_id, step.next.escrows[bounty_id]);
    }
    if let Ok(step) = refund_spec(s, bounty_id, now) {
        lemma_locked_funds_insert(s.escrows, bounty_id, step.next.escrows[bounty_id]);
    }
}

/// The same holds of an accepted batch.
pub proof fn law_batch_custody_matches_records(
    s: LedgerState,
    locks: Seq<LockFundsItem>,
    releases: Seq<ReleaseFundsItem>,
    now: u64,
)
    requires
        s.wf(),
    ensures
        batch_lock_spec(s, locks, now) matches Ok(step) ==> locked_funds(step.next.escrows)
            == locked_funds(s.escrows) + net_inflow(step.actions),
        batch_release_spec(s, releases, now) matches Ok(step) ==> locked_funds(step.next.escrows)
            == locked_funds(s.escrows) + net_inflow(step.actions),
{
    law_batch_transfers_match_records(s, locks, releases, now);
    if batch_lock_spec(s, locks, now) is Ok {
        lemma_first_fault_some(lock_faults(s.escrows, locks));
        assert forall|i: int| 0 <= i < locks.len() implies !s.escrows.contains_key(
            (#[trigger] locks[i]).bounty_id,
        ) && !repeated(lock_ids(locks), i) by {
            assert(lock_faults(s.escrows, locks)[i] is None);
        }
        lemma_locked_funds_lock_all(s.escrows, locks);
    }
    if batch_release_spec(s, releases, now) is Ok {
        lemma_first_fault_some(release_faults(s.escrows, releases));
        assert forall|i: int| 0 <= i < releases.len() implies s.escrows.contains_key(
            (#[trigger] releases[i]).bounty_id,
        ) && s.escrows[releases[i].bounty_id].status == EscrowStatus::Locked && !repeated(
            release_ids(releases),
            i,
        ) by {
            assert(release_faults(s.escrows, releases)[i] is None);
        }
        lemma_locked_funds_release_all(s.escrows, releases);
    }
}

} // verus!
