use vstd::prelude::*;
use crate::contract::BountyEscrowContract;
use crate::effects::{Action, Event};
use crate::lemmas::{
    lemma_distinct_depositors_step, lemma_first_fault_at, lemma_first_fault_none,
    lemma_lock_actions_step, lemma_lock_all_step, lemma_lock_total_monotone,
    lemma_lock_total_step, lemma_release_actions_step, lemma_release_all_step,
    lemma_release_total_step,
};
use crate::model::{
    auth_actions, batch_lock_spec, batch_release_spec, distinct_depositors, first_fault,
    lock_actions, lock_all, lock_faults, lock_ids, lock_item_fault, lock_total, release_actions,
    release_all, release_faults, release_ids, release_total, repeated,
};
use crate::principal::Principal;
use crate::types::{
    DataKey, Error, Escrow, EscrowStatus, LockFundsItem, ReleaseFundsItem, MAX_BATCH_SIZE,
};

verus! {

/// What an accepted batch gives: how many entries it had, and the actions
/// that the host has to carry out, in order.
#[derive(Debug, PartialEq, Eq)]
pub struct BatchReceipt {
    pub count: u32,
    pub actions: Vec<Action>,
}

/// Whether the bounty id of entry `i` stands at another place of the batch.
fn lock_id_repeated(items: &Vec<LockFundsItem>, i: usize) -> (r: bool)
    requires
        i < items.len(),
    ensures
        r == repeated(lock_ids(items@), i as int),
{
    let id = items[i].bounty_id;
    let mut j: usize = 0;
    while j < items.len()
        invariant
            j <= items.len(),
            i < items.len(),
            id == items@[i as int].bounty_id,
            forall|k: int| 0 <= k < j && k != i ==> #[trigger] lock_ids(items@)[k] != id,
        decreases items.len() - j,
    {
        if j != i && items[j].bounty_id == id {
            assert(lock_ids(items@)[j as int] == lock_ids(items@)[i as int]);
            return true;
        }
        j += 1;
    }
    false
}

/// Whether the bounty id of entry `i` stands at another place of the batch.
fn release_id_repeated(items: &Vec<ReleaseFundsItem>, i: usize) -> (r: bool)
    requires
        i < items.len(),
    ensures
        r == repeated(release_ids(items@), i as int),
{
    let id = items[i].bounty_id;
    let mut j: usize = 0;
    while j < items.len()
        invariant
            j <= items.len(),
            i < items.len(),
            id == items@[i as int].bounty_id,
            forall|k: int| 0 <= k < j && k != i ==> #[trigger] release_ids(items@)[k] != id,
        decreases items.len() - j,
    {
        if j != i && items[j].bounty_id == id {
            assert(release_ids(items@)[j as int] == release_ids(items@)[i as int]);
            return true;
        }
        j += 1;
    }
    false
}

/// Whether `p` is among `seen`.
fn seen_before(seen: &Vec<Principal>, p: &Principal) -> (r: bool)
    ensures
        r == seen@.contains(*p),
{
    let mut i: usize = 0;
    while i < seen.len()
        invariant
            i <= seen.len(),
            forall|k: int| 0 <= k < i ==> seen@[k] != *p,
        decreases seen.len() - i,
    {
        if seen[i].same(p) {
            return true;
        }
        i += 1;
    }
    false
}

impl BountyEscrowContract {
    /// Looks for the first faulty entry of a batch lock.
    fn check_lock_items(&self, items: &Vec<LockFundsItem>) -> (r: Option<Error>)
        ensures
            r == first_fault(lock_faults(self@.escrows, items@)),
            r is None ==> forall|j: int|
                0 <= j < items.len() ==> lock_item_fault(self@.escrows, items@, j) is None,
    {
        let ghost faults = lock_faults(self@.escrows, items@);
        let mut i: usize = 0;
        while i < items.len()
            invariant
                i <= items.len(),
                faults == lock_faults(self@.escrows, items@),
                forall|j: int| 0 <= j < i ==> faults[j] is None,
            decreases items.len() - i,
        {
            let item = items[i];
            let fault = if self.has(DataKey::Escrow(item.bounty_id)) {
                Some(Error::BountyExists)
            } else if item.amount <= 0 {
                Some(Error::InvalidBatchSize)
            } else if lock_id_repeated(items, i) {
                Some(Error::DuplicateBountyId)
            } else {
                None
            };
            if fault.is_some() {
                proof {
                    lemma_first_fault_at(faults, i as int);
                }
                return fault;
            }
            i += 1;
        }
        proof {
            lemma_first_fault_none(faults);
            assert forall|j: int| 0 <= j < items.len() implies lock_item_fault(
                self@.escrows,
                items@,
                j,
            ) is None by {
                assert(faults[j] is None);
            }
        }
        None
    }

    /// Adds up the amounts of a batch lock whose amounts are all positive.
    fn sum_lock_amounts(items: &Vec<LockFundsItem>) -> (r: Option<i128>)
        requires
            forall|j: int| 0 <= j < items.len() ==> (#[trigger] items@[j]).amount > 0,
        ensures
            match r {
                Some(t) => t == lock_total(items@),
                None => lock_total(items@) > i128::MAX,
            },
    {
        let mut total: i128 = 0;
        let mut i: usize = 0;
        while i < items.len()
            invariant
                i <= items.len(),
                total == lock_total(items@.take(i as int)),
                forall|j: int| 0 <= j < items.len() ==> (#[trigger] items@[j]).amount > 0,
            decreases items.len() - i,
        {
            proof {
                lemma_lock_total_step(items@, i as int);
                lemma_lock_total_monotone(items@, i + 1);
            }
            match total.checked_add(items[i].amount) {
                None => {
                    return None;
                },
                Some(t) => {
                    total = t;
                },
            }
            i += 1;
        }
        assert(items@.take(i as int) =~= items@);
        Some(total)
    }

    /// The demands for proof of a batch lock: one for each depositor, in the
    /// order in which the depositors first appear.
    fn lock_auths(items: &Vec<LockFundsItem>) -> (r: Vec<Action>)
        ensures
            r@ == auth_actions(distinct_depositors(items@)),
    {
        let mut seen: Vec<Principal> = Vec::new();
        let mut actions: Vec<Action> = Vec::new();
        let mut i: usize = 0;
        while i < items.len()
            invariant
                i <= items.len(),
                seen@ == distinct_depositors(items@.take(i as int)),
                actions@ == auth_actions(seen@),
            decreases items.len() - i,
        {
            let depositor = items[i].depositor;
            proof {
                lemma_distinct_depositors_step(items@, i as int);
            }
            if !seen_before(&seen, &depositor) {
                seen.push(depositor);
                actions.push(Action::RequireAuth { principal: depositor });
            }
            i += 1;
        }
        assert(items@.take(i as int) =~= items@);
        actions
    }

    /// Locks funds for many bounties at once: all of them, or none.
    pub fn batch_lock_funds(&mut self, items: Vec<LockFundsItem>, now: u64) -> (r: Result<
        BatchReceipt,
        Error,
    >)
        ensures
            match batch_lock_spec(old(self)@, items@, now) {
                Ok(step) => r is Ok && r->Ok_0.count == items.len() && r->Ok_0.actions@
                    == step.actions && final(self)@ == step.next,
                Err(e) => r == Err::<BatchReceipt, Error>(e) && final(self)@ == old(self)@,
            },
            final(self)@.wf(),
    {
        let n = items.len();
        let config = self.config();
        if n == 0 || n > MAX_BATCH_SIZE {
            return Err(Error::InvalidBatchSize);
        }
        let token = match config {
            None => {
                return Err(Error::NotInitialized);
            },
            Some(c) => c.token,
        };
        if let Some(e) = self.check_lock_items(&items) {
            return Err(e);
        }
        proof {
            assert forall|j: int| 0 <= j < items.len() implies (#[trigger] items@[j]).amount
                > 0 by {
                assert(lock_item_fault(self@.escrows, items@, j) is None);
            }
        }
        let total = match Self::sum_lock_amounts(&items) {
            None => {
                return Err(Error::InvalidBatchSize);
            },
            Some(t) => t,
        };
        let mut actions = Self::lock_auths(&items);
        let ghost auths = actions@;
        let ghost before = self@;
        let mut i: usize = 0;
        while i < n
            invariant
                i <= n,
                n == items.len(),
                self@.config == before.config,
                before.config is Some,
                self@.wf(),
                self@.escrows == lock_all(before.escrows, items@.take(i as int)),
                actions@ == auths + lock_actions(token, items@.take(i as int)),
            decreases n - i,
        {
            let item = items[i];
            proof {
                lemma_lock_all_step(before.escrows, items@, i as int);
                lemma_lock_actions_step(token, items@, i as int);
            }
            self.store(
                item.bounty_id,
                Escrow {
                    depositor: item.depositor,
                    amount: item.amount,
                    status: EscrowStatus::Locked,
                    deadline: item.deadline,
                },
            );
            actions.push(
                Action::TransferIn { token, from: item.depositor, amount: item.amount },
            );
            actions.push(
                Action::Emit {
                    event: Event::FundsLocked {
                        bounty_id: item.bounty_id,
                        amount: item.amount,
                        depositor: item.depositor,
                        deadline: item.deadline,
                    },
                },
            );
            i += 1;
        }
        assert(items@.take(i as int) =~= items@);
        let count = n as u32;
        actions.push(
            Action::Emit {
                event: Event::BatchFundsLocked { count, total_amount: total, timestamp: now },
            },
        );
        Ok(BatchReceipt { count, actions })
    }

    /// Looks for the first faulty entry of a batch release. Where there is
    /// none, gives the total of the amounts held and the record of each
    /// entry, in the order of the batch.
    fn check_release_items(&self, items: &Vec<ReleaseFundsItem>) -> (r: Result<
        (i128, Vec<Escrow>),
        Error,
    >)
        ensures
            match r {
                Ok((total, found)) => {
                    &&& first_fault(release_faults(self@.escrows, items@)) is None
                    &&& total == release_total(self@.escrows, items@)
                    &&& found@.len() == items.len()
                    &&& forall|j: int|
                        0 <= j < items.len() ==> self@.escrows.contains_key(
                            (#[trigger] items@[j]).bounty_id,
                        ) && found@[j] == self@.escrows[items@[j].bounty_id]
                },
                Err(e) => first_fault(release_faults(self@.escrows, items@))
                    == Some(e),
            },
    {
        let ghost faults = release_faults(self@.escrows, items@);
        let mut total: i128 = 0;
        let mut found: Vec<Escrow> = Vec::new();
        let mut i: usize = 0;
        while i < items.len()
            invariant
                i <= items.len(),
                faults == release_faults(self@.escrows, items@),
                forall|j: int| 0 <= j < i ==> faults[j] is None,
                total == release_total(self@.escrows, items@.take(i as int)),
                found@.len() == i,
                forall|j: int|
                    0 <= j < i ==> self@.escrows.contains_key((#[trigger] items@[j]).bounty_id)
                        && found@[j] == self@.escrows[items@[j].bounty_id],
            decreases items.len() - i,
        {
            let item = items[i];
            proof {
                lemma_release_total_step(self@.escrows, items@, i as int);
            }
            let escrow = match self.get_escrow_info(item.bounty_id) {
                Err(_) => {
                    proof {
                        lemma_first_fault_at(faults, i as int);
                    }
                    return Err(Error::BountyNotFound);
                },
                Ok(e) => e,
            };
            if escrow.status != EscrowStatus::Locked {
                proof {
                    lemma_first_fault_at(faults, i as int);
                }
                return Err(Error::FundsNotLocked);
            }
            if release_id_repeated(items, i) {
                proof {
                    lemma_first_fault_at(faults, i as int);
                }
                return Err(Error::DuplicateBountyId);
            }
            match total.checked_add(escrow.amount) {
                None => {
                    proof {
                        lemma_first_fault_at(faults, i as int);
                    }
                    return Err(Error::InvalidBatchSize);
                },
                Some(t) => {
                    total = t;
                },
            }
            found.push(escrow);
            i += 1;
        }
        proof {
            lemma_first_fault_none(faults);
            assert(items@.take(i as int) =~= items@);
        }
        Ok((total, found))
    }

    /// Releases the funds of many bounties at once: all of them, or none.
    pub fn batch_release_funds(&mut self, items: Vec<ReleaseFundsItem>, now: u64) -> (r: Result<
        BatchReceipt,
        Error,
    >)
        ensures
            match batch_release_spec(old(self)@, items@, now) {
                Ok(step) => r is Ok && r->Ok_0.count == items.len() && r->Ok_0.actions@
                    == step.actions && final(self)@ == step.next,
                Err(e) => r == Err::<BatchReceipt, Error>(e) && final(self)@ == old(self)@,
            },
            final(self)@.wf(),
    {
        let n = items.len();
        let config = self.config();
        if n == 0 || n > MAX_BATCH_SIZE {
            return Err(Error::InvalidBatchSize);
        }
        let config = match config {
            None => {
                return Err(Error::NotInitialized);
            },
            Some(c) => c,
        };
        let (total, found) = match self.check_release_items(&items) {
            Err(e) => {
                return Err(e);
            },
            Ok(checked) => checked,
        };
        let token = config.token;
        let mut actions: Vec<Action> = Vec::new();
        actions.push(Action::RequireAuth { principal: config.admin });
        let ghost auths = actions@;
        let ghost before = self@;
        let mut i: usize = 0;
        while i < n
            invariant
                i <= n,
                n == items.len(),
                found@.len() == n,
                self@.config == before.config,
                before.config is Some,
                self@.wf(),
                forall|j: int|
                    0 <= j < n ==> before.escrows.contains_key((#[trigger] items@[j]).bounty_id)
                        && found@[j] == before.escrows[items@[j].bounty_id],
                self@.escrows == release_all(before.escrows, items@.take(i as int)),
                actions@ == auths + release_actions(
                    token,
                    before.escrows,
                    items@.take(i as int),
                    now,
                ),
            decreases n - i,
        {
            let item = items[i];
            let escrow = found[i];
            proof {
                lemma_release_all_step(before.escrows, items@, i as int);
                lemma_release_actions_step(token, before.escrows, items@, now, i as int);
            }
            self.store(
                item.bounty_id,
                Escrow {
                    depositor: escrow.depositor,
                    amount: escrow.amount,
                    status: EscrowStatus::Released,
                    deadline: escrow.deadline,
                },
            );
            actions.push(
                Action::TransferOut { token, to: item.contributor, amount: escrow.amount },
            );
            actions.push(
                Action::Emit {
                    event: Event::FundsReleased {
                        bounty_id: item.bounty_id,
                        amount: escrow.amount,
                        recipient: item.contributor,
                        timestamp: now,
                    },
                },
            );
            i += 1;
        }
        assert(items@.take(i as int) =~= items@);
        let count = n as u32;
        actions.push(
            Action::Emit {
                event: Event::BatchFundsReleased { count, total_amount: total, timestamp: now },
            },
        );
        Ok(BatchReceipt { count, actions })
    }
}

} // verus!
