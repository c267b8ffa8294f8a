use vstd::prelude::*;
use crate::effects::{inflow, notified_amount, tally, Action};
use crate::model::{
    auth_actions, distinct_depositors, first_fault, lock_actions, lock_all, lock_ids,
    lock_total, locked_record, release_actions, release_all, release_total, repeated, settled,
};
use crate::principal::Principal;
use crate::types::{Error, Escrow, EscrowStatus, LockFundsItem, ReleaseFundsItem};

verus! {

/// A row of findings without a fault has no first fault.
pub proof fn lemma_first_fault_none(faults: Seq<Option<Error>>)
    requires
        forall|i: int| 0 <= i < faults.len() ==> faults[i] is None,
    ensures
        first_fault(faults) is None,
    decreases faults.len(),
{
    if faults.len() > 0 {
        lemma_first_fault_none(faults.drop_last());
    }
}

/// The first fault is the fault at the first position that has one.
pub proof fn lemma_first_fault_at(faults: Seq<Option<Error>>, i: int)
    requires
        0 <= i < faults.len(),
        forall|j: int| 0 <= j < i ==> faults[j] is None,
        faults[i] is Some,
    ensures
        first_fault(faults) == faults[i],
    decreases faults.len(),
{
    if i == faults.len() - 1 {
        lemma_first_fault_none(faults.drop_last());
    } else {
        lemma_first_fault_at(faults.drop_last(), i);
    }
}

/// A row of findings has a first fault exactly if it has a fault.
pub proof fn lemma_first_fault_some(faults: Seq<Option<Error>>)
    ensures
        first_fault(faults) is Some <==> exists|i: int|
            0 <= i < faults.len() && (#[trigger] faults[i]) is Some,
    decreases faults.len(),
{
    if faults.len() > 0 {
        let front = faults.drop_last();
        lemma_first_fault_some(front);
        if first_fault(front) is None && faults.last() is None {
            assert forall|i: int| 0 <= i < faults.len() implies !((#[trigger] faults[i]) is Some) by {
                if i < front.len() {
                    assert(front[i] == faults[i]);
                }
            }
        }
    }
}

/// The first fault of a row of findings is one of the findings.
pub proof fn lemma_first_fault_is_a_finding(faults: Seq<Option<Error>>)
    ensures
        first_fault(faults) is Some ==> exists|i: int|
            0 <= i < faults.len() && #[trigger] faults[i] == first_fault(faults),
    decreases faults.len(),
{
    if faults.len() > 0 {
        lemma_first_fault_is_a_finding(faults.drop_last());
    }
}

/// The total of a batch lock grows by the amount of each further entry.
pub proof fn lemma_lock_total_step(items: Seq<LockFundsItem>, i: int)
    requires
        0 <= i < items.len(),
    ensures
        lock_total(items.take(i + 1)) == lock_total(items.take(i)) + items[i].amount,
{
    assert(items.take(i + 1).drop_last() =~= items.take(i));
}

/// With positive amounts only, no part of a batch lock adds up to more than
/// the whole, nor to less than nothing.
pub proof fn lemma_lock_total_monotone(items: Seq<LockFundsItem>, k: int)
    requires
        0 <= k <= items.len(),
        forall|j: int| 0 <= j < items.len() ==> (#[trigger] items[j]).amount > 0,
    ensures
        0 <= lock_total(items.take(k)) <= lock_total(items),
    decreases items.len(),
{
    if k == items.len() {
        assert(items.take(k) =~= items);
        if items.len() > 0 {
            lemma_lock_total_monotone(items.drop_last(), k - 1);
        }
    } else {
        let front = items.drop_last();
        lemma_lock_total_monotone(front, k);
        assert(front.take(k) =~= items.take(k));
    }
}

/// The depositors seen grow by the depositor of each further entry, unless
/// it was seen before.
pub proof fn lemma_distinct_depositors_step(items: Seq<LockFundsItem>, i: int)
    requires
        0 <= i < items.len(),
    ensures
        distinct_depositors(items.take(i + 1)) == if distinct_depositors(items.take(i)).contains(
            items[i].depositor,
        ) {
            distinct_depositors(items.take(i))
        } else {
            distinct_depositors(items.take(i)).push(items[i].depositor)
        },
{
    assert(items.take(i + 1).drop_last() =~= items.take(i));
}

/// The actions of a batch lock grow by a transfer and a notification for
/// each further entry.
pub proof fn lemma_lock_actions_step(token: Principal, items: Seq<LockFundsItem>, i: int)
    requires
        0 <= i < items.len(),
    ensures
        lock_actions(token, items.take(i + 1)) == lock_actions(token, items.take(i)) + lock_actions(
            token,
            seq![items[i]],
        ),
        lock_actions(token, seq![items[i]]).len() == 2,
{
    assert(items.take(i + 1).drop_last() =~= items.take(i));
    let one = seq![items[i]];
    assert(lock_actions(token, one.drop_last()) =~= Seq::<Action>::empty());
}

/// The records of a batch lock grow by the record of each further entry.
pub proof fn lemma_lock_all_step(escrows: Map<u64, Escrow>, items: Seq<LockFundsItem>, i: int)
    requires
        0 <= i < items.len(),
    ensures
        lock_all(escrows, items.take(i + 1)) == lock_all(escrows, items.take(i)).insert(
            items[i].bounty_id,
            locked_record(items[i].depositor, items[i].amount, items[i].deadline),
        ),
{
    assert(items.take(i + 1).drop_last() =~= items.take(i));
}

/// The total of a batch release grows by the recorded amount of each
/// further entry.
pub proof fn lemma_release_total_step(
    escrows: Map<u64, Escrow>,
    items: Seq<ReleaseFundsItem>,
    i: int,
)
    requires
        0 <= i < items.len(),
    ensures
        release_total(escrows, items.take(i + 1)) == release_total(escrows, items.take(i)) + (
        if escrows.contains_key(items[i].bounty_id) {
            escrows[items[i].bounty_id].amount as int
        } else {
            0
        }),
{
    assert(items.take(i + 1).drop_last() =~= items.take(i));
}

/// The actions of a batch release grow by a payout and a notification for
/// each further entry.
pub proof fn lemma_release_actions_step(
    token: Principal,
    escrows: Map<u64, Escrow>,
    items: Seq<ReleaseFundsItem>,
    now: u64,
    i: int,
)
    requires
        0 <= i < items.len(),
    ensures
        release_actions(token, escrows, items.take(i + 1), now) == release_actions(
            token,
            escrows,
            items.take(i),
            now,
        ) + release_actions(token, escrows, seq![items[i]], now),
        release_actions(token, escrows, seq![items[i]], now).len() == 2,
{
    assert(items.take(i + 1).drop_last() =~= items.take(i));
    let one = seq![items[i]];
    assert(release_actions(token, escrows, one.drop_last(), now) =~= Seq::<Action>::empty());
}

/// The records of a batch release change by the settled record of each
/// further entry.
pub proof fn lemma_release_all_step(
    escrows: Map<u64, Escrow>,
    items: Seq<ReleaseFundsItem>,
    i: int,
)
    requires
        0 <= i < items.len(),
    ensures
        release_all(escrows, items.take(i + 1)) == release_all(escrows, items.take(i)).insert(
            items[i].bounty_id,
            settled(escrows[items[i].bounty_id], EscrowStatus::Released),
        ),
{
    assert(items.take(i + 1).drop_last() =~= items.take(i));
}

/// A record that a batch lock leaves is one that was there, unchanged, or
/// the record of an entry of the batch.
pub proof fn lemma_lock_all_records(escrows: Map<u64, Escrow>, items: Seq<LockFundsItem>, id: u64)
    ensures
        lock_all(escrows, items).contains_key(id) <==> escrows.contains_key(id) || exists|i: int|
            0 <= i < items.len() && (#[trigger] items[i]).bounty_id == id,
        (forall|i: int| 0 <= i < items.len() ==> (#[trigger] items[i]).bounty_id != id)
            ==> lock_all(escrows, items)[id] == escrows[id],
        forall|i: int|
            0 <= i < items.len() && (#[trigger] items[i]).bounty_id == id && !repeated(
                lock_ids(items),
                i,
            ) ==> lock_all(escrows, items)[id] == locked_record(
                items[i].depositor,
                items[i].amount,
                items[i].deadline,
            ),
    decreases items.len(),
{
    if items.len() > 0 {
        let front = items.drop_last();
        let last = items.len() - 1;
        lemma_lock_all_records(escrows, front, id);
        if exists|i: int| 0 <= i < items.len() && (#[trigger] items[i]).bounty_id == id {
            let i = choose|i: int| 0 <= i < items.len() && (#[trigger] items[i]).bounty_id == id;
            if i < last {
                assert(front[i].bounty_id == id);
            }
        }
        assert forall|i: int|
            0 <= i < items.len() && (#[trigger] items[i]).bounty_id == id && !repeated(
                lock_ids(items),
                i,
            ) implies lock_all(escrows, items)[id] == locked_record(
            items[i].depositor,
            items[i].amount,
            items[i].deadline,
        ) by {
            if i < last {
                assert(lock_ids(items)[last] != lock_ids(items)[i]);
                assert(front[i] == items[i]);
                if repeated(lock_ids(front), i) {
                    let j = choose|j: int|
                        0 <= j < lock_ids(front).len() && j != i && #[trigger] lock_ids(front)[j]
                            == lock_ids(front)[i];
                    assert(lock_ids(items)[j] == lock_ids(items)[i]);
                }
            }
        }
    }
}

/// A record that a batch release leaves is one that was there: unchanged,
/// or, for an entry of the batch, with the status `Released`.
pub proof fn lemma_release_all_records(
    escrows: Map<u64, Escrow>,
    items: Seq<ReleaseFundsItem>,
    id: u64,
)
    ensures
        release_all(escrows, items).contains_key(id) <==> escrows.contains_key(id) || exists|i: int|
            0 <= i < items.len() && (#[trigger] items[i]).bounty_id == id,
        (forall|i: int| 0 <= i < items.len() ==> (#[trigger] items[i]).bounty_id != id)
            ==> release_all(escrows, items)[id] == escrows[id],
        (exists|i: int| 0 <= i < items.len() && (#[trigger] items[i]).bounty_id == id)
            ==> release_all(escrows, items)[id] == settled(escrows[id], EscrowStatus::Released),
    decreases items.len(),
{
    if items.len() > 0 {
        let front = items.drop_last();
        lemma_release_all_records(escrows, front, id);
        if exists|i: int| 0 <= i < items.len() && (#[trigger] items[i]).bounty_id == id {
            let i = choose|i: int| 0 <= i < items.len() && (#[trigger] items[i]).bounty_id == id;
            if items.last().bounty_id != id {
                assert(front[i].bounty_id == id);
            }
        }
    }
}

/// A batch leaves finitely many records where there were finitely many.
pub proof fn lemma_batches_keep_finite(
    escrows: Map<u64, Escrow>,
    locks: Seq<LockFundsItem>,
    releases: Seq<ReleaseFundsItem>,
)
    requires
        escrows.dom().finite(),
    ensures
        lock_all(escrows, locks).dom().finite(),
        release_all(escrows, releases).dom().finite(),
    decreases locks.len() + releases.len(),
{
    if locks.len() > 0 {
        lemma_batches_keep_finite(escrows, locks.drop_last(), releases);
    } else if releases.len() > 0 {
        lemma_batches_keep_finite(escrows, locks, releases.drop_last());
    }
}

/// The tally of two runs of actions, one after the other, is the sum of
/// their tallies.
pub proof fn lemma_tally_concat(a: Seq<Action>, b: Seq<Action>, measure: spec_fn(Action) -> int)
    ensures
        tally(a + b, measure) == tally(a, measure) + tally(b, measure),
    decreases b.len(),
{
    if b.len() > 0 {
        assert((a + b).drop_last() =~= a + b.drop_last());
        lemma_tally_concat(a, b.drop_last(), measure);
    }
}

/// The tally of a single action is what the measure gives for it.
pub proof fn lemma_tally_one(a: Action, measure: spec_fn(Action) -> int)
    ensures
        tally(seq![a], measure) == measure(a),
{
    reveal_with_fuel(tally, 2);
}

/// Demands for proof move nothing and report nothing.
pub proof fn lemma_tally_auths(principals: Seq<Principal>)
    ensures
        tally(auth_actions(principals), |a: Action| inflow(a)) == 0,
        tally(auth_actions(principals), |a: Action| notified_amount(a)) == 0,
    decreases principals.len(),
{
    if principals.len() > 0 {
        assert(auth_actions(principals).drop_last() =~= auth_actions(principals.drop_last()));
        lemma_tally_auths(principals.drop_last());
    }
}

/// The entries of a batch lock move in, and report, the sum of their
/// amounts.
pub proof fn lemma_tally_lock_actions(token: Principal, items: Seq<LockFundsItem>)
    ensures
        tally(lock_actions(token, items), |a: Action| inflow(a)) == lock_total(items),
        tally(lock_actions(token, items), |a: Action| notified_amount(a)) == lock_total(items),
    decreases items.len(),
{
    if items.len() > 0 {
        lemma_tally_lock_actions(token, items.drop_last());
        let all = lock_actions(token, items);
        assert(all.drop_last().drop_last() =~= lock_actions(token, items.drop_last()));
        reveal_with_fuel(tally, 3);
    }
}

/// The entries of a batch release whose bounties all have a record move
/// out, and report, the sum of the recorded amounts.
pub proof fn lemma_tally_release_actions(
    token: Principal,
    escrows: Map<u64, Escrow>,
    items: Seq<ReleaseFundsItem>,
    now: u64,
)
    requires
        forall|i: int| 0 <= i < items.len() ==> escrows.contains_key((#[trigger] items[i]).bounty_id),
    ensures
        tally(release_actions(token, escrows, items, now), |a: Action| inflow(a)) == -release_total(
            escrows,
            items,
        ),
        tally(release_actions(token, escrows, items, now), |a: Action| notified_amount(a))
            == release_total(escrows, items),
    decreases items.len(),
{
    if items.len() > 0 {
        let front = items.drop_last();
        lemma_tally_release_actions(token, escrows, front, now);
        let all = release_actions(token, escrows, items, now);
        assert(all.drop_last().drop_last() =~= release_actions(token, escrows, front, now));
        reveal_with_fuel(tally, 3);
    }
}

} // verus!
