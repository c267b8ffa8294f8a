use vstd::prelude::*;
use crate::effects::{batch_total, notified_amount, notified_total, Action};
use crate::lemmas::{
    lemma_batches_keep_finite, lemma_first_fault_is_a_finding, lemma_first_fault_some, lemma_lock_all_records,
    lemma_release_all_records, lemma_tally_auths, lemma_tally_concat, lemma_tally_lock_actions,
    lemma_tally_one, lemma_tally_release_actions,
};
use crate::model::{
    auth_actions, batch_lock_spec, batch_release_spec, distinct_depositors, fits_i128,
    init_spec, lock_actions, lock_faults, lock_ids, lock_spec, lock_total, locked_record,
    refund_spec, release_actions, release_faults, release_ids, release_spec, release_total,
    repeated, settled, LedgerState, Step,
};
use crate::principal::Principal;
use crate::types::{Error, EscrowStatus, LockFundsItem, ReleaseFundsItem};

verus! {

// ---------------------------------------------------------------------------
// What every operation keeps
// ---------------------------------------------------------------------------

/// Whether ledger `b` can come after ledger `a`: a configuration stays as
/// it is; every record stays, with its depositor, amount and deadline; and
/// only a status that is `Locked` changes.
pub open spec fn follows(a: LedgerState, b: LedgerState) -> bool {
    &&& a.config is Some ==> b.config == a.config
    &&& forall|id: u64| #[trigger]
        a.escrows.contains_key(id) ==> {
            &&& b.escrows.contains_key(id)
            &&& b.escrows[id].depositor == a.escrows[id].depositor
            &&& b.escrows[id].amount == a.escrows[id].amount
            &&& b.escrows[id].deadline == a.escrows[id].deadline
            &&& (b.escrows[id].status == a.escrows[id].status || a.escrows[id].status
                == EscrowStatus::Locked)
        }
}

/// A ledger can come after itself, and what can come after a ledger that
/// can come after a first one can come after the first.
pub proof fn law_follows_is_an_order(a: LedgerState, b: LedgerState, c: LedgerState)
    ensures
        follows(a, a),
        follows(a, b) && follows(b, c) ==> follows(a, c),
{
}

/// No operation deletes a record, changes its depositor, amount or
/// deadline, leaves `Released` or `Refunded`, or replaces a configuration:
/// the ledger after an accepted single operation can come after the ledger
/// before it, and a well-formed ledger stays well formed.
pub proof fn law_single_operations_keep_records(
    s: LedgerState,
    bounty_id: u64,
    who: Principal,
    other: Principal,
    amount: i128,
    deadline: u64,
    now: u64,
)
    ensures
        init_spec(s, who, other, now) matches Ok(step) ==> follows(s, step.next) && (s.wf()
            ==> step.next.wf()),
        lock_spec(s, who, bounty_id, amount, deadline) matches Ok(step) ==> follows(s, step.next)
            && (s.wf() ==> step.next.wf()),
        release_spec(s, bounty_id, who, now) matches Ok(step) ==> follows(s, step.next) && (s.wf()
            ==> step.next.wf()),
        refund_spec(s, bounty_id, now) matches Ok(step) ==> follows(s, step.next) && (s.wf()
            ==> step.next.wf()),
{
}

/// The same holds of an accepted batch.
pub proof fn law_batches_keep_records(
    s: LedgerState,
    locks: Seq<LockFundsItem>,
    releases: Seq<ReleaseFundsItem>,
    now: u64,
)
    ensures
        batch_lock_spec(s, locks, now) matches Ok(step) ==> follows(s, step.next) && (s.wf()
            ==> step.next.wf()),
        batch_release_spec(s, releases, now) matches Ok(step) ==> follows(s, step.next) && (s.wf()
            ==> step.next.wf()),
{
    if s.wf() {
        lemma_batches_keep_finite(s.escrows, locks, releases);
    }
    if let Ok(step) = batch_lock_spec(s, locks, now) {
        lemma_first_fault_some(lock_faults(s.escrows, locks));
        assert forall|id: u64| #[trigger] s.escrows.contains_key(id) implies {
            &&& step.next.escrows.contains_key(id)
            &&& step.next.escrows[id] == s.escrows[id]
        } by {
            lemma_lock_all_records(s.escrows, locks, id);
            assert forall|i: int| 0 <= i < locks.len() implies (#[trigger] locks[i]).bounty_id
                != id by {
                assert(lock_faults(s.escrows, locks)[i] is None);
            }
        }
    }
    if let Ok(step) = batch_release_spec(s, releases, now) {
        lemma_first_fault_some(release_faults(s.escrows, releases));
        assert forall|id: u64| #[trigger] s.escrows.contains_key(id) implies {
            &&& step.next.escrows.contains_key(id)
            &&& step.next.escrows[id].depositor == s.escrows[id].depositor
            &&& step.next.escrows[id].amount == s.escrows[id].amount
            &&& step.next.escrows[id].deadline == s.escrows[id].deadline
            &&& (step.next.escrows[id].status == s.escrows[id].status || s.escrows[id].status
                == EscrowStatus::Locked)
        } by {
            lemma_release_all_records(s.escrows, releases, id);
            if exists|i: int| 0 <= i < releases.len() && (#[trigger] releases[i]).bounty_id == id {
                let i = choose|i: int|
                    0 <= i < releases.len() && (#[trigger] releases[i]).bounty_id == id;
                assert(release_faults(s.escrows, releases)[i] is None);
            }
        }
    }
}

// ---------------------------------------------------------------------------
// Locking
// ---------------------------------------------------------------------------

/// A bounty is locked once: after an accepted lock every further lock of
/// the same bounty is refused with `BountyExists`, whoever asks and
/// whatever the amount.
pub proof fn law_lock_is_create_only(
    s: LedgerState,
    bounty_id: u64,
    depositor: Principal,
    amount: i128,
    deadline: u64,
    again_depositor: Principal,
    again_amount: i128,
    again_deadline: u64,
)
    requires
        lock_spec(s, depositor, bounty_id, amount, deadline) is Ok,
    ensures
        lock_spec(
            lock_spec(s, depositor, bounty_id, amount, deadline)->Ok_0.next,
            again_depositor,
            bounty_id,
            again_amount,
            again_deadline,
        ) == Err::<Step, Error>(Error::BountyExists),
{
}

/// A bounty that has a record is not locked again, in whatever state the
/// record is, and so not after any run of operations either.
pub proof fn law_known_bounty_is_not_locked_again(
    s: LedgerState,
    later: LedgerState,
    bounty_id: u64,
    depositor: Principal,
    amount: i128,
    deadline: u64,
)
    requires
        s.wf(),
        s.escrows.contains_key(bounty_id),
        follows(s, later),
    ensures
        lock_spec(later, depositor, bounty_id, amount, deadline) == Err::<
            Step,
            Error,
        >(Error::BountyExists),
{
}

// ---------------------------------------------------------------------------
// Releasing and refunding
// ---------------------------------------------------------------------------

/// On a configured ledger, a release for a bounty without a record is
/// refused with `BountyNotFound`, and one for a bounty whose funds are no
/// longer locked with `FundsNotLocked`.
pub proof fn law_release_needs_locked_funds(
    s: LedgerState,
    bounty_id: u64,
    contributor: Principal,
    now: u64,
)
    requires
        s.config is Some,
    ensures
        !s.escrows.contains_key(bounty_id) ==> release_spec(s, bounty_id, contributor, now) == Err::<
            Step,
            Error,
        >(Error::BountyNotFound),
        s.escrows.contains_key(bounty_id) && !s.is_locked(bounty_id) ==> release_spec(
            s,
            bounty_id,
            contributor,
            now,
        ) == Err::<Step, Error>(Error::FundsNotLocked),
        s.is_locked(bounty_id) ==> release_spec(s, bounty_id, contributor, now) is Ok,
{
}

/// A refund for a bounty without a record is refused with
/// `BountyNotFound`, and one for a bounty whose funds are no longer locked
/// with `FundsNotLocked`, at whatever time.
pub proof fn law_refund_needs_locked_funds(s: LedgerState, bounty_id: u64, now: u64)
    ensures
        !s.escrows.contains_key(bounty_id) ==> refund_spec(s, bounty_id, now) == Err::<
            Step,
            Error,
        >(Error::BountyNotFound),
        s.escrows.contains_key(bounty_id) && !s.is_locked(bounty_id) ==> refund_spec(
            s,
            bounty_id,
            now,
        ) == Err::<Step, Error>(Error::FundsNotLocked),
{
}

/// Locked funds are refunded from the deadline on, and once: before the
/// deadline a refund is refused with `DeadlineNotPassed`; at the deadline
/// or after it the refund is accepted, the record becomes `Refunded`, and
/// every further refund is refused with `FundsNotLocked`.
pub proof fn law_refund_once_from_deadline(s: LedgerState, bounty_id: u64, now: u64, later: u64)
    requires
        s.is_locked(bounty_id),
    ensures
        now < s.escrows[bounty_id].deadline ==> refund_spec(s, bounty_id, now) == Err::<
            Step,
            Error,
        >(Error::DeadlineNotPassed),
        now >= s.escrows[bounty_id].deadline ==> {
            &&& refund_spec(s, bounty_id, now) is Ok
            &&& refund_spec(s, bounty_id, now)->Ok_0.next.escrows[bounty_id] == settled(
                s.escrows[bounty_id],
                EscrowStatus::Refunded,
            )
            &&& refund_spec(refund_spec(s, bounty_id, now)->Ok_0.next, bounty_id, later) == Err::<
                Step,
                Error,
            >(Error::FundsNotLocked)
        },
{
}

/// Funds are paid out once: after an accepted release, every further
/// release and every refund of the same bounty is refused with
/// `FundsNotLocked`.
pub proof fn law_release_once(
    s: LedgerState,
    bounty_id: u64,
    contributor: Principal,
    now: u64,
    again_contributor: Principal,
    later: u64,
)
    requires
        release_spec(s, bounty_id, contributor, now) is Ok,
    ensures
        release_spec(
            release_spec(s, bounty_id, contributor, now)->Ok_0.next,
            bounty_id,
            again_contributor,
            later,
        ) == Err::<Step, Error>(Error::FundsNotLocked),
        refund_spec(release_spec(s, bounty_id, contributor, now)->Ok_0.next, bounty_id, later)
            == Err::<Step, Error>(Error::FundsNotLocked),
{
}

// ---------------------------------------------------------------------------
// Batches
// ---------------------------------------------------------------------------

/// A batch without entries, or with more than a hundred, is refused with
/// `InvalidBatchSize`, whatever the ledger holds.
pub proof fn law_batch_size_is_bounded(
    s: LedgerState,
    locks: Seq<LockFundsItem>,
    releases: Seq<ReleaseFundsItem>,
    now: u64,
)
    ensures
        locks.len() == 0 || locks.len() > 100 ==> batch_lock_spec(s, locks, now) == Err::<
            Step,
            Error,
        >(Error::InvalidBatchSize),
        releases.len() == 0 || releases.len() > 100 ==> batch_release_spec(s, releases, now)
            == Err::<Step, Error>(Error::InvalidBatchSize),
{
}

/// One bad entry voids a batch lock: if the bounty of any entry has a
/// record, if its amount is not positive, or if its id stands in the batch
/// twice, the batch is refused, so that nothing is moved and nothing is
/// written for any entry.
pub proof fn law_batch_lock_is_all_or_nothing(
    s: LedgerState,
    items: Seq<LockFundsItem>,
    now: u64,
    i: int,
)
    requires
        0 <= i < items.len(),
        s.escrows.contains_key(items[i].bounty_id) || items[i].amount <= 0 || repeated(
            lock_ids(items),
            i,
        ),
    ensures
        batch_lock_spec(s, items, now) is Err,
{
    lemma_first_fault_some(lock_faults(s.escrows, items));
    assert(lock_faults(s.escrows, items)[i] is Some);
}

/// One bad entry voids a batch release: if the bounty of any entry has no
/// record, if its funds are not locked, or if its id stands in the batch
/// twice, the batch is refused, so that nothing is moved and nothing is
/// written for any entry.
pub proof fn law_batch_release_is_all_or_nothing(
    s: LedgerState,
    items: Seq<ReleaseFundsItem>,
    now: u64,
    i: int,
)
    requires
        0 <= i < items.len(),
        !s.is_locked(items[i].bounty_id) || repeated(release_ids(items), i),
    ensures
        batch_release_spec(s, items, now) is Err,
{
    lemma_first_fault_some(release_faults(s.escrows, items));
    assert(release_faults(s.escrows, items)[i] is Some);
}

/// An accepted batch lock leaves a `Locked` record for each of its
/// entries, with the entry's depositor, amount and deadline, and every
/// other record as it was.
pub proof fn law_batch_lock_writes_every_entry(s: LedgerState, items: Seq<LockFundsItem>, now: u64)
    requires
        batch_lock_spec(s, items, now) is Ok,
    ensures
        forall|i: int|
            0 <= i < items.len() ==> {
                let next = batch_lock_spec(s, items, now)->Ok_0.next;
                &&& !s.escrows.contains_key((#[trigger] items[i]).bounty_id)
                &&& next.escrows.contains_key(items[i].bounty_id)
                &&& next.escrows[items[i].bounty_id] == locked_record(
                    items[i].depositor,
                    items[i].amount,
                    items[i].deadline,
                )
            },
        forall|id: u64|
            #![trigger s.escrows.contains_key(id)]
            (forall|i: int| 0 <= i < items.len() ==> (#[trigger] items[i]).bounty_id != id) ==> {
                let next = batch_lock_spec(s, items, now)->Ok_0.next;
                &&& next.escrows.contains_key(id) == s.escrows.contains_key(id)
                &&& next.escrows[id] == s.escrows[id]
            },
{
    let next = batch_lock_spec(s, items, now)->Ok_0.next;
    lemma_first_fault_some(lock_faults(s.escrows, items));
    assert forall|i: int| 0 <= i < items.len() implies {
        &&& !s.escrows.contains_key((#[trigger] items[i]).bounty_id)
        &&& next.escrows.contains_key(items[i].bounty_id)
        &&& next.escrows[items[i].bounty_id] == locked_record(
            items[i].depositor,
            items[i].amount,
            items[i].deadline,
        )
    } by {
        assert(lock_faults(s.escrows, items)[i] is None);
        lemma_lock_all_records(s.escrows, items, items[i].bounty_id);
    }
    assert forall|id: u64|
        #![trigger s.escrows.contains_key(id)]
        (forall|i: int| 0 <= i < items.len() ==> (#[trigger] items[i]).bounty_id != id) implies {
        &&& next.escrows.contains_key(id) == s.escrows.contains_key(id)
        &&& next.escrows[id] == s.escrows[id]
    } by {
        lemma_lock_all_records(s.escrows, items, id);
    }
}

/// An accepted batch release leaves the record of each of its entries
/// `Released` and otherwise as it was, and every other record as it was.
pub proof fn law_batch_release_settles_every_entry(
    s: LedgerState,
    items: Seq<ReleaseFundsItem>,
    now: u64,
)
    requires
        batch_release_spec(s, items, now) is Ok,
    ensures
        forall|i: int|
            0 <= i < items.len() ==> {
                let next = batch_release_spec(s, items, now)->Ok_0.next;
                &&& s.is_locked((#[trigger] items[i]).bounty_id)
                &&& next.escrows.contains_key(items[i].bounty_id)
                &&& next.escrows[items[i].bounty_id] == settled(
                    s.escrows[items[i].bounty_id],
                    EscrowStatus::Released,
                )
            },
        forall|id: u64|
            #![trigger s.escrows.contains_key(id)]
            (forall|i: int| 0 <= i < items.len() ==> (#[trigger] items[i]).bounty_id != id) ==> {
                let next = batch_release_spec(s, items, now)->Ok_0.next;
                &&& next.escrows.contains_key(id) == s.escrows.contains_key(id)
                &&& next.escrows[id] == s.escrows[id]
            },
{
    let next = batch_release_spec(s, items, now)->Ok_0.next;
    lemma_first_fault_some(release_faults(s.escrows, items));
    assert forall|i: int| 0 <= i < items.len() implies {
        &&& s.is_locked((#[trigger] items[i]).bounty_id)
        &&& next.escrows.contains_key(items[i].bounty_id)
        &&& next.escrows[items[i].bounty_id] == settled(
            s.escrows[items[i].bounty_id],
            EscrowStatus::Released,
        )
    } by {
        assert(release_faults(s.escrows, items)[i] is None);
        lemma_release_all_records(s.escrows, items, items[i].bounty_id);
    }
    assert forall|id: u64|
        #![trigger s.escrows.contains_key(id)]
        (forall|i: int| 0 <= i < items.len() ==> (#[trigger] items[i]).bounty_id != id) implies {
        &&& next.escrows.contains_key(id) == s.escrows.contains_key(id)
        &&& next.escrows[id] == s.escrows[id]
    } by {
        lemma_release_all_records(s.escrows, items, id);
    }
}

/// The total that the notification about an accepted batch reports is the
/// sum of the amounts that the notifications about its entries report, and
/// the sum of the entries' amounts. The batch notification comes last.
pub proof fn law_batch_total_is_sum_of_entries(
    s: LedgerState,
    locks: Seq<LockFundsItem>,
    releases: Seq<ReleaseFundsItem>,
    now: u64,
)
    ensures
        batch_lock_spec(s, locks, now) matches Ok(step) ==> {
            &&& batch_total(step.actions.last()) == notified_total(step.actions)
            &&& batch_total(step.actions.last()) == lock_total(locks)
        },
        batch_release_spec(s, releases, now) matches Ok(step) ==> {
            &&& batch_total(step.actions.last()) == notified_total(step.actions)
            &&& batch_total(step.actions.last()) == release_total(s.escrows, releases)
        },
{
    let report = |a: Action| notified_amount(a);
    if let Ok(step) = batch_lock_spec(s, locks, now) {
        let auths = auth_actions(distinct_depositors(locks));
        let entries = lock_actions(s.token(), locks);
        let last = step.actions.last();
        lemma_tally_concat(auths + entries, seq![last], report);
        lemma_tally_concat(auths, entries, report);
        lemma_tally_one(last, report);
        lemma_tally_auths(distinct_depositors(locks));
        lemma_tally_lock_actions(s.token(), locks);
    }
    if let Ok(step) = batch_release_spec(s, releases, now) {
        let auths = seq![Action::RequireAuth { principal: s.admin() }];
        let entries = release_actions(s.token(), s.escrows, releases, now);
        let last = step.actions.last();
        lemma_tally_concat(auths + entries, seq![last], report);
        lemma_tally_concat(auths, entries, report);
        lemma_tally_one(last, report);
        lemma_tally_one(auths[0], report);
        lemma_first_fault_some(release_faults(s.escrows, releases));
        assert forall|i: int| 0 <= i < releases.len() implies s.escrows.contains_key(
            (#[trigger] releases[i]).bounty_id,
        ) by {
            assert(release_faults(s.escrows, releases)[i] is None);
        }
        lemma_tally_release_actions(s.token(), s.escrows, releases, now);
        lemma_release_total_fits(s, releases, now);
    }
}

/// The total of an accepted batch release can be held in an `i128`.
proof fn lemma_release_total_fits(s: LedgerState, items: Seq<ReleaseFundsItem>, now: u64)
    requires
        batch_release_spec(s, items, now) is Ok,
    ensures
        fits_i128(release_total(s.escrows, items)),
{
    let last = items.len() - 1;
    assert(items.take(last + 1) =~= items);
}

// ---------------------------------------------------------------------------
// Errors
// ---------------------------------------------------------------------------

/// Whether the ledger ever answers with the error `e`. Proofs of
/// authorization are the host's to judge, and a batch is one row of
/// entries, so `Unauthorized` and `BatchSizeMismatch` are never the
/// ledger's answer.
pub open spec fn answered(e: Error) -> bool {
    e != Error::Unauthorized && e != Error::BatchSizeMismatch
}

/// Every refusal of the ledger is one of the errors that it answers with.
pub proof fn law_refusals_are_answered_errors(
    s: LedgerState,
    bounty_id: u64,
    who: Principal,
    other: Principal,
    amount: i128,
    deadline: u64,
    now: u64,
    locks: Seq<LockFundsItem>,
    releases: Seq<ReleaseFundsItem>,
)
    ensures
        init_spec(s, who, other, now) matches Err(e) ==> answered(e),
        lock_spec(s, who, bounty_id, amount, deadline) matches Err(e) ==> answered(e),
        release_spec(s, bounty_id, who, now) matches Err(e) ==> answered(e),
        refund_spec(s, bounty_id, now) matches Err(e) ==> answered(e),
        batch_lock_spec(s, locks, now) matches Err(e) ==> answered(e),
        batch_release_spec(s, releases, now) matches Err(e) ==> answered(e),
{
    lemma_first_fault_is_a_finding(lock_faults(s.escrows, locks));
    lemma_first_fault_is_a_finding(release_faults(s.escrows, releases));
}

// ---------------------------------------------------------------------------
// Proofs of authorization
// ---------------------------------------------------------------------------

/// A batch lock asks each of its depositors for proof, and asks nobody
/// twice, nor anybody else.
pub proof fn law_each_depositor_is_asked_once(items: Seq<LockFundsItem>)
    ensures
        distinct_depositors(items).no_duplicates(),
        forall|i: int|
            0 <= i < items.len() ==> distinct_depositors(items).contains(
                (#[trigger] items[i]).depositor,
            ),
        forall|k: int|
            0 <= k < distinct_depositors(items).len() ==> exists|i: int|
                0 <= i < items.len() && (#[trigger] items[i]).depositor == #[trigger] distinct_depositors(
                    items,
                )[k],
    decreases items.len(),
{
    if items.len() > 0 {
        let front = items.drop_last();
        let before = distinct_depositors(front);
        let all = distinct_depositors(items);
        let d = items.last().depositor;
        law_each_depositor_is_asked_once(front);
        assert forall|i: int| 0 <= i < items.len() implies all.contains(
            (#[trigger] items[i]).depositor,
        ) by {
            if i < front.len() {
                let k = choose|k: int| 0 <= k < before.len() && before[k] == front[i].depositor;
                assert(all[k] == items[i].depositor);
            } else if !before.contains(d) {
                assert(all[before.len() as int] == d);
            }
        }
    }
}

} // verus!
