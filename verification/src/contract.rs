use vstd::prelude::*;
use std::collections::HashMap;
use crate::effects::{Action, Event};
use crate::model::{empty_ledger, init_spec, lock_spec, refund_spec, release_spec, LedgerState};
use crate::principal::Principal;
use crate::types::{Config, DataKey, Error, Escrow, EscrowStatus};

verus! {

broadcast use vstd::std_specs::hash::group_hash_axioms;

/// The escrow ledger: the configuration and the records, and the rules by
/// which they change.
///
/// The ledger decides; it moves no funds itself. An operation that it
/// accepts changes its state and returns the actions that the host has to
/// carry out, in order. If one of them fails, the host drops the new state.
/// An operation that it refuses changes nothing and asks for nothing.
///
/// Every operation that changes the ledger takes it by exclusive reference,
/// so that no two of them ever overlap, on one bounty or on several.
pub struct BountyEscrowContract {
    config: Option<Config>,
    records: HashMap<u64, Escrow>,
}

impl View for BountyEscrowContract {
    type V = LedgerState;

    closed spec fn view(&self) -> LedgerState {
        LedgerState { config: self.config, escrows: self.records@ }
    }
}

/// Which asset's balance in custody is to be asked of the value-transfer
/// service.
#[derive(Copy, Clone, Debug, PartialEq, Eq, Hash)]
pub struct BalanceQuery {
    pub token: Principal,
}

impl BountyEscrowContract {
    #[verifier::type_invariant]
    spec fn inv(self) -> bool {
        self@.wf()
    }

    /// A ledger that is not configured and holds no record.
    pub fn new() -> (r: Self)
        ensures
            r@ == empty_ledger(),
            r@.wf(),
    {
        let r = BountyEscrowContract { config: None, records: HashMap::new() };
        r
    }

    /// A configured ledger with the records that the host has kept for it.
    /// Of two records for one bounty the later one stands.
    pub fn restore(config: Config, records: &Vec<(u64, Escrow)>) -> (r: Self)
        ensures
            r@.config == Some(config),
            r@.escrows == restored(records@),
            r@.wf(),
    {
        let mut map: HashMap<u64, Escrow> = HashMap::new();
        let mut i: usize = 0;
        while i < records.len()
            invariant
                i <= records.len(),
                map@ == restored(records@.take(i as int)),
            decreases records.len() - i,
        {
            let (id, e) = records[i];
            map.insert(id, e);
            proof {
                assert(records@.take(i + 1).drop_last() =~= records@.take(i as int));
            }
            i += 1;
        }
        assert(records@.take(i as int) =~= records@);
        BountyEscrowContract { config: Some(config), records: map }
    }

    /// The configuration, if the ledger has one.
    pub fn config(&self) -> (r: Option<Config>)
        ensures
            r == self@.config,
            self@.wf(),
    {
        proof {
            use_type_invariant(self);
        }
        self.config
    }

    /// Whether the store holds an entry under `key`. The administrator and
    /// the asset are stored together, when the ledger is configured.
    pub fn has(&self, key: DataKey) -> (r: bool)
        ensures
            r == stored(self@, key),
            self@.wf(),
    {
        proof {
            use_type_invariant(self);
        }
        match key {
            DataKey::Admin => self.config.is_some(),
            DataKey::Token => self.config.is_some(),
            DataKey::Escrow(id) => self.records.contains_key(&id),
        }
    }

    /// Writes the record of one bounty of a configured ledger.
    pub(crate) fn store(&mut self, bounty_id: u64, record: Escrow)
        requires
            old(self)@.config is Some,
        ensures
            final(self)@ == old(self)@.with_escrow(bounty_id, record),
            final(self)@.wf(),
    {
        let mut records: HashMap<u64, Escrow> = HashMap::new();
        std::mem::swap(&mut self.records, &mut records);
        records.insert(bounty_id, record);
        std::mem::swap(&mut self.records, &mut records);
    }

    /// Configures the ledger. This can be done once.
    pub fn init(&mut self, admin: Principal, token: Principal, now: u64) -> (r: Result<
        Vec<Action>,
        Error,
    >)
        ensures
            match init_spec(old(self)@, admin, token, now) {
                Ok(step) => r is Ok && r->Ok_0@ == step.actions && final(self)@ == step.next,
                Err(e) => r == Err::<Vec<Action>, Error>(e) && final(self)@ == old(self)@,
            },
            final(self)@.wf(),
    {
        if self.config.is_some() {
            return Err(Error::AlreadyInitialized);
        }
        self.config = Some(Config { admin, token });
        let mut actions: Vec<Action> = Vec::new();
        actions.push(Action::Emit { event: Event::Initialized { admin, token, timestamp: now } });
        Ok(actions)
    }

    /// Locks funds for one bounty.
    pub fn lock_funds(
        &mut self,
        depositor: Principal,
        bounty_id: u64,
        amount: i128,
        deadline: u64,
    ) -> (r: Result<Vec<Action>, Error>)
        ensures
            match lock_spec(old(self)@, depositor, bounty_id, amount, deadline) {
                Ok(step) => r is Ok && r->Ok_0@ == step.actions && final(self)@ == step.next,
                Err(e) => r == Err::<Vec<Action>, Error>(e) && final(self)@ == old(self)@,
            },
            final(self)@.wf(),
    {
        proof {
            use_type_invariant(&*self);
        }
        let token = match self.config {
            None => {
                return Err(Error::NotInitialized);
            },
            Some(c) => c.token,
        };
        if self.records.contains_key(&bounty_id) {
            return Err(Error::BountyExists);
        }
        let record = Escrow { depositor, amount, status: EscrowStatus::Locked, deadline };
        self.store(bounty_id, record);
        let mut actions: Vec<Action> = Vec::new();
        actions.push(Action::RequireAuth { principal: depositor });
        actions.push(Action::TransferIn { token, from: depositor, amount });
        actions.push(
            Action::Emit { event: Event::FundsLocked { bounty_id, amount, depositor, deadline } },
        );
        Ok(actions)
    }

    /// Releases the funds of one bounty to a contributor.
    pub fn release_funds(&mut self, bounty_id: u64, contributor: Principal, now: u64) -> (r: Result<
        Vec<Action>,
        Error,
    >)
        ensures
            match release_spec(old(self)@, bounty_id, contributor, now) {
                Ok(step) => r is Ok && r->Ok_0@ == step.actions && final(self)@ == step.next,
                Err(e) => r == Err::<Vec<Action>, Error>(e) && final(self)@ == old(self)@,
            },
            final(self)@.wf(),
    {
        proof {
            use_type_invariant(&*self);
        }
        let config = match self.config {
            None => {
                return Err(Error::NotInitialized);
            },
            Some(c) => c,
        };
        let escrow = match self.records.get(&bounty_id) {
            None => {
                return Err(Error::BountyNotFound);
            },
            Some(e) => *e,
        };
        if escrow.status != EscrowStatus::Locked {
            return Err(Error::FundsNotLocked);
        }
        let record = Escrow {
            depositor: escrow.depositor,
            amount: escrow.amount,
            status: EscrowStatus::Released,
            deadline: escrow.deadline,
        };
        self.store(bounty_id, record);
        let mut actions: Vec<Action> = Vec::new();
        actions.push(Action::RequireAuth { principal: config.admin });
        actions.push(
            Action::TransferOut { token: config.token, to: contributor, amount: escrow.amount },
        );
        actions.push(
            Action::Emit {
                event: Event::FundsReleased {
                    bounty_id,
                    amount: escrow.amount,
                    recipient: contributor,
                    timestamp: now,
                },
            },
        );
        Ok(actions)
    }

    /// Refunds one bounty to its depositor, from the record's deadline on.
    /// Anyone may ask for it.
    pub fn refund(&mut self, bounty_id: u64, now: u64) -> (r: Result<Vec<Action>, Error>)
        ensures
            match refund_spec(old(self)@, bounty_id, now) {
                Ok(step) => r is Ok && r->Ok_0@ == step.actions && final(self)@ == step.next,
                Err(e) => r == Err::<Vec<Action>, Error>(e) && final(self)@ == old(self)@,
            },
            final(self)@.wf(),
    {
        proof {
            use_type_invariant(&*self);
        }
        let escrow = match self.records.get(&bounty_id) {
            None => {
                return Err(Error::BountyNotFound);
            },
            Some(e) => *e,
        };
        if escrow.status != EscrowStatus::Locked {
            return Err(Error::FundsNotLocked);
        }
        if now < escrow.deadline {
            return Err(Error::DeadlineNotPassed);
        }
        let token = match self.config {
            // A ledger that holds a record has been configured.
            None => {
                return Err(Error::NotInitialized);
            },
            Some(c) => c.token,
        };
        let record = Escrow {
            depositor: escrow.depositor,
            amount: escrow.amount,
            status: EscrowStatus::Refunded,
            deadline: escrow.deadline,
        };
        self.store(bounty_id, record);
        let mut actions: Vec<Action> = Vec::new();
        actions.push(Action::TransferOut { token, to: escrow.depositor, amount: escrow.amount });
        actions.push(
            Action::Emit {
                event: Event::FundsRefunded {
                    bounty_id,
                    amount: escrow.amount,
                    refund_to: escrow.depositor,
                    timestamp: now,
                },
            },
        );
        Ok(actions)
    }

    /// The record of one bounty, as it stands.
    pub fn get_escrow_info(&self, bounty_id: u64) -> (r: Result<Escrow, Error>)
        ensures
            self@.escrows.contains_key(bounty_id) ==> r == Ok::<Escrow, Error>(
                self@.escrows[bounty_id],
            ),
            !self@.escrows.contains_key(bounty_id) ==> r == Err::<Escrow, Error>(
                Error::BountyNotFound,
            ),
            self@.wf(),
    {
        proof {
            use_type_invariant(self);
        }
        match self.records.get(&bounty_id) {
            None => Err(Error::BountyNotFound),
            Some(e) => Ok(*e),
        }
    }

    /// The question to put to the value-transfer service for the balance
    /// that the ledger holds: the answer to it is the balance.
    pub fn get_balance(&self) -> (r: Result<BalanceQuery, Error>)
        ensures
            r == match self@.config {
                Some(c) => Ok::<BalanceQuery, Error>(BalanceQuery { token: c.token }),
                None => Err::<BalanceQuery, Error>(Error::NotInitialized),
            },
            self@.wf(),
    {
        proof {
            use_type_invariant(self);
        }
        match self.config {
            None => Err(Error::NotInitialized),
            Some(c) => Ok(BalanceQuery { token: c.token }),
        }
    }
}

/// The records that a row of kept entries stands for: each entry under its
/// bounty id, a later one in place of an earlier one.
pub open spec fn restored(records: Seq<(u64, Escrow)>) -> Map<u64, Escrow>
    decreases records.len(),
{
    if records.len() == 0 {
        Map::empty()
    } else {
        restored(records.drop_last()).insert(records.last().0, records.last().1)
    }
}

/// Whether a ledger holds an entry under `key`.
pub open spec fn stored(s: LedgerState, key: DataKey) -> bool {
    match key {
        DataKey::Admin => s.config is Some,
        DataKey::Token => s.config is Some,
        DataKey::Escrow(id) => s.escrows.contains_key(id),
    }
}

} // verus!
