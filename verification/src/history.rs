use vstd::prelude::*;
use crate::custody::{
    held_for, law_batch_custody_matches_records, law_custody_matches_records, locked_funds,
};
use crate::effects::{inflow, net_inflow, Action};
use crate::laws::{follows, law_batches_keep_records};
use crate::lemmas::{
    lemma_first_fault_some, lemma_lock_all_records, lemma_release_all_records,
    lemma_tally_concat,
};
use crate::model::{
    batch_lock_spec, batch_release_spec, empty_ledger, init_spec, lock_spec, refund_spec,
    release_faults, release_spec, LedgerState, Step,
};
use crate::principal::Principal;
use crate::types::{Error, LockFundsItem, ReleaseFundsItem};

verus! {

/// One call of an operation of the ledger, with its arguments.
pub enum Call {
    Init { admin: Principal, token: Principal, now: u64 },
    LockFunds { depositor: Principal, bounty_id: u64, amount: i128, deadline: u64 },
    ReleaseFunds { bounty_id: u64, contributor: Principal, now: u64 },
    Refund { bounty_id: u64, now: u64 },
    BatchLockFunds { locks: Seq<LockFundsItem>, now: u64 },
    BatchReleaseFunds { releases: Seq<ReleaseFundsItem>, now: u64 },
}

/// What a call gives on a ledger.
pub open spec fn outcome(s: LedgerState, call: Call) -> Result<Step, Error> {
    match call {
        Call::Init { admin, token, now } => init_spec(s, admin, token, now),
        Call::LockFunds { depositor, bounty_id, amount, deadline } => lock_spec(
            s,
            depositor,
            bounty_id,
            amount,
            deadline,
        ),
        Call::ReleaseFunds { bounty_id, contributor, now } => release_spec(
            s,
            bounty_id,
            contributor,
            now,
        ),
        Call::Refund { bounty_id, now } => refund_spec(s, bounty_id, now),
        Call::BatchLockFunds { locks, now } => batch_lock_spec(s, locks, now),
        Call::BatchReleaseFunds { releases, now } => batch_release_spec(s, releases, now),
    }
}

/// The ledger after a call: the next one if the call is accepted, the same
/// one if it is refused.
pub open spec fn after(s: LedgerState, call: Call) -> LedgerState {
    match outcome(s, call) {
        Ok(step) => step.next,
        Err(_) => s,
    }
}

/// The actions that a call asks for: none if it is refused.
pub open spec fn asked(s: LedgerState, call: Call) -> Seq<Action> {
    match outcome(s, call) {
        Ok(step) => step.actions,
        Err(_) => Seq::empty(),
    }
}

/// The ledger after a run of calls on a new ledger.
pub open spec fn after_all(calls: Seq<Call>) -> LedgerState
    decreases calls.len(),
{
    if calls.len() == 0 {
        empty_ledger()
    } else {
        after(after_all(calls.drop_last()), calls.last())
    }
}

/// All actions that a run of calls on a new ledger asks for, in order.
pub open spec fn asked_by_all(calls: Seq<Call>) -> Seq<Action>
    decreases calls.len(),
{
    if calls.len() == 0 {
        Seq::empty()
    } else {
        asked_by_all(calls.drop_last()) + asked(after_all(calls.drop_last()), calls.last())
    }
}

/// What holds of one call, accepted or refused: the ledger after it is
/// well formed, can come after the ledger before it, and holds for its
/// `Locked` records what was held before and what the call moves in.
pub proof fn law_each_call_keeps_the_books(s: LedgerState, call: Call)
    requires
        s.wf(),
    ensures
        after(s, call).wf(),
        follows(s, after(s, call)),
        locked_funds(after(s, call).escrows) == locked_funds(s.escrows) + net_inflow(
            asked(s, call),
        ),
{
    match call {
        Call::Init { admin, token, now } => {
            law_custody_matches_records(s, 0, admin, token, 0, 0, now);
        },
        Call::LockFunds { depositor, bounty_id, amount, deadline } => {
            law_custody_matches_records(s, bounty_id, depositor, depositor, amount, deadline, 0);
        },
        Call::ReleaseFunds { bounty_id, contributor, now } => {
            law_custody_matches_records(s, bounty_id, contributor, contributor, 0, 0, now);
        },
        Call::Refund { bounty_id, now } => {
            law_custody_matches_records(s, bounty_id, s.token(), s.token(), 0, 0, now);
        },
        Call::BatchLockFunds { locks, now } => {
            law_batches_keep_records(s, locks, Seq::empty(), now);
            law_batch_custody_matches_records(s, locks, Seq::empty(), now);
        },
        Call::BatchReleaseFunds { releases, now } => {
            law_batches_keep_records(s, Seq::empty(), releases, now);
            law_batch_custody_matches_records(s, Seq::empty(), releases, now);
        },
    }
}

/// What holds of every ledger that calls can lead to, whatever the calls
/// and whether they are accepted or refused: it is well formed; it can
/// come after the ledger of every earlier moment, so that no record is
/// ever lost or rewritten and no settlement is ever undone; and the sum
/// held for its `Locked` records is, on balance, what all the actions
/// asked for have moved into custody.
pub proof fn law_every_history_keeps_the_books(calls: Seq<Call>, earlier: int)
    requires
        0 <= earlier <= calls.len(),
    ensures
        after_all(calls).wf(),
        follows(after_all(calls.take(earlier)), after_all(calls)),
        locked_funds(after_all(calls).escrows) == net_inflow(asked_by_all(calls)),
    decreases calls.len(),
{
    let here = after_all(calls);
    if calls.len() == 0 {
        vstd::set::fold::lemma_fold_empty(
            0int,
            |sum: int, id: u64| sum + held_for(here.escrows[id]),
        );
    } else {
        let front = calls.drop_last();
        let before = after_all(front);
        if earlier == calls.len() {
            assert(calls.take(earlier) =~= calls);
            law_every_history_keeps_the_books(front, 0);
        } else {
            assert(front.take(earlier) =~= calls.take(earlier));
            law_every_history_keeps_the_books(front, earlier);
        }
        law_each_call_keeps_the_books(before, calls.last());
        lemma_tally_concat(
            asked_by_all(front),
            asked(before, calls.last()),
            |a: Action| inflow(a),
        );
    }
}

/// Whether a call is a lock for the bounty `id`, alone or in a batch.
pub open spec fn locks_bounty(call: Call, id: u64) -> bool {
    match call {
        Call::LockFunds { bounty_id, .. } => bounty_id == id,
        Call::BatchLockFunds { locks, .. } => exists|i: int|
            0 <= i < locks.len() && (#[trigger] locks[i]).bounty_id == id,
        _ => false,
    }
}

/// Only an accepted lock creates a record: a bounty has a record after a
/// call exactly if it had one before, or the call is a lock for it and is
/// accepted.
pub proof fn law_only_locks_create_records(s: LedgerState, call: Call, id: u64)
    ensures
        after(s, call).escrows.contains_key(id) <==> s.escrows.contains_key(id) || (outcome(
            s,
            call,
        ) is Ok && locks_bounty(call, id)),
{
    match call {
        Call::BatchLockFunds { locks, now } => {
            lemma_lock_all_records(s.escrows, locks, id);
        },
        Call::BatchReleaseFunds { releases, now } => {
            lemma_release_all_records(s.escrows, releases, id);
            if outcome(s, call) is Ok {
                lemma_first_fault_some(release_faults(s.escrows, releases));
                if exists|i: int| 0 <= i < releases.len() && (#[trigger] releases[i]).bounty_id == id {
                    let i = choose|i: int|
                        0 <= i < releases.len() && (#[trigger] releases[i]).bounty_id == id;
                    assert(release_faults(s.escrows, releases)[i] is None);
                }
            }
        },
        _ => {},
    }
}

/// A record exists for a bounty exactly if a lock for it has ever been
/// accepted.
pub proof fn law_records_are_the_accepted_locks(calls: Seq<Call>, id: u64)
    ensures
        after_all(calls).escrows.contains_key(id) <==> exists|k: int|
            0 <= k < calls.len() && outcome(#[trigger] after_all(calls.take(k)), calls[k]) is Ok
                && locks_bounty(calls[k], id),
    decreases calls.len(),
{
    if calls.len() > 0 {
        let front = calls.drop_last();
        let last = calls.len() - 1;
        law_records_are_the_accepted_locks(front, id);
        law_only_locks_create_records(after_all(front), calls.last(), id);
        if after_all(calls).escrows.contains_key(id) {
            if after_all(front).escrows.contains_key(id) {
                let k = choose|k: int|
                    0 <= k < front.len() && outcome(#[trigger] after_all(front.take(k)), front[k])
                        is Ok && locks_bounty(front[k], id);
                assert(front.take(k) =~= calls.take(k));
            } else {
            }
        }
        if exists|k: int|
            0 <= k < calls.len() && outcome(#[trigger] after_all(calls.take(k)), calls[k]) is Ok
                && locks_bounty(calls[k], id) {
            let k = choose|k: int|
                0 <= k < calls.len() && outcome(#[trigger] after_all(calls.take(k)), calls[k])
                    is Ok && locks_bounty(calls[k], id);
            if k < last {
                assert(front.take(k) =~= calls.take(k));
            }
        }
    }
}

} // verus!
