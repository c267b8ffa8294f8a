use vstd::prelude::*;
use crate::effects::{Action, Event};
use crate::principal::Principal;
use crate::types::{
    Config, Error, Escrow, EscrowStatus, LockFundsItem, ReleaseFundsItem, MAX_BATCH_SIZE,
};

verus! {

/// The ledger as a mathematical value: its configuration, if it has been
/// configured, and the record of every bounty that was ever locked.
pub struct LedgerState {
    pub config: Option<Config>,
    pub escrows: Map<u64, Escrow>,
}

/// What an accepted operation gives: the ledger that follows, and the actions
/// that the host has to carry out, in order.
pub struct Step {
    pub next: LedgerState,
    pub actions: Seq<Action>,
}

impl LedgerState {
    /// A ledger holds finitely many records, and none before it has been
    /// configured.
    pub open spec fn wf(self) -> bool {
        &&& self.escrows.dom().finite()
        &&& self.config is None ==> forall|id: u64| !self.escrows.contains_key(id)
    }

    /// The asset that the ledger holds.
    pub open spec fn token(self) -> Principal
        recommends
            self.config is Some,
    {
        self.config->0.token
    }

    /// The principal whose proof a release asks for.
    pub open spec fn admin(self) -> Principal
        recommends
            self.config is Some,
    {
        self.config->0.admin
    }

    /// Whether the bounty `id` has a record whose funds are still held.
    pub open spec fn is_locked(self, id: u64) -> bool {
        self.escrows.contains_key(id) && self.escrows[id].status == EscrowStatus::Locked
    }

    /// The same ledger with the record of `id` set to `e`.
    pub open spec fn with_escrow(self, id: u64, e: Escrow) -> LedgerState {
        LedgerState { config: self.config, escrows: self.escrows.insert(id, e) }
    }
}

/// The ledger before anything was done to it.
pub open spec fn empty_ledger() -> LedgerState {
    LedgerState { config: None, escrows: Map::empty() }
}

/// Whether a mathematical integer can be held in an `i128`.
pub open spec fn fits_i128(x: int) -> bool {
    i128::MIN <= x <= i128::MAX
}

/// The record that a lock creates.
pub open spec fn locked_record(depositor: Principal, amount: i128, deadline: u64) -> Escrow {
    Escrow { depositor, amount, status: EscrowStatus::Locked, deadline }
}

/// The record `e` with its status set to `status` and nothing else changed.
pub open spec fn settled(e: Escrow, status: EscrowStatus) -> Escrow {
    Escrow { depositor: e.depositor, amount: e.amount, status, deadline: e.deadline }
}

// ---------------------------------------------------------------------------
// Single operations
// ---------------------------------------------------------------------------

/// Configuring the ledger: refused once a configuration is there, whatever
/// its values; else the configuration is stored and announced.
pub open spec fn init_spec(s: LedgerState, admin: Principal, token: Principal, now: u64) -> Result<
    Step,
    Error,
> {
    if s.config is Some {
        Err(Error::AlreadyInitialized)
    } else {
        Ok(
            Step {
                next: LedgerState { config: Some(Config { admin, token }), escrows: s.escrows },
                actions: seq![
                    Action::Emit { event: Event::Initialized { admin, token, timestamp: now } },
                ],
            },
        )
    }
}

/// Locking funds for one bounty: the depositor's proof is asked for, the
/// amount is drawn from the depositor, and a record in state `Locked` is
/// created. A bounty that has a record is never locked again.
pub open spec fn lock_spec(
    s: LedgerState,
    depositor: Principal,
    bounty_id: u64,
    amount: i128,
    deadline: u64,
) -> Result<Step, Error> {
    if s.config is None {
        Err(Error::NotInitialized)
    } else if s.escrows.contains_key(bounty_id) {
        Err(Error::BountyExists)
    } else {
        Ok(
            Step {
                next: s.with_escrow(bounty_id, locked_record(depositor, amount, deadline)),
                actions: seq![
                    Action::RequireAuth { principal: depositor },
                    Action::TransferIn { token: s.token(), from: depositor, amount },
                    Action::Emit {
                        event: Event::FundsLocked { bounty_id, amount, depositor, deadline },
                    },
                ],
            },
        )
    }
}

/// Releasing the funds of one bounty to a contributor: the administrator's
/// proof is asked for, the record's amount is paid out, and the record
/// becomes `Released`.
pub open spec fn release_spec(
    s: LedgerState,
    bounty_id: u64,
    contributor: Principal,
    now: u64,
) -> Result<Step, Error> {
    if s.config is None {
        Err(Error::NotInitialized)
    } else if !s.escrows.contains_key(bounty_id) {
        Err(Error::BountyNotFound)
    } else if s.escrows[bounty_id].status != EscrowStatus::Locked {
        Err(Error::FundsNotLocked)
    } else {
        let e = s.escrows[bounty_id];
        Ok(
            Step {
                next: s.with_escrow(bounty_id, settled(e, EscrowStatus::Released)),
                actions: seq![
                    Action::RequireAuth { principal: s.admin() },
                    Action::TransferOut { token: s.token(), to: contributor, amount: e.amount },
                    Action::Emit {
                        event: Event::FundsReleased {
                            bounty_id,
                            amount: e.amount,
                            recipient: contributor,
                            timestamp: now,
                        },
                    },
                ],
            },
        )
    }
}

/// Refunding one bounty to its depositor: open to anyone, but only from the
/// record's deadline on. The record's amount is paid back and the record
/// becomes `Refunded`.
pub open spec fn refund_spec(s: LedgerState, bounty_id: u64, now: u64) -> Result<Step, Error> {
    if !s.escrows.contains_key(bounty_id) {
        Err(Error::BountyNotFound)
    } else if s.escrows[bounty_id].status != EscrowStatus::Locked {
        Err(Error::FundsNotLocked)
    } else if now < s.escrows[bounty_id].deadline {
        Err(Error::DeadlineNotPassed)
    } else {
        let e = s.escrows[bounty_id];
        Ok(
            Step {
                next: s.with_escrow(bounty_id, settled(e, EscrowStatus::Refunded)),
                actions: seq![
                    Action::TransferOut { token: s.token(), to: e.depositor, amount: e.amount },
                    Action::Emit {
                        event: Event::FundsRefunded {
                            bounty_id,
                            amount: e.amount,
                            refund_to: e.depositor,
                            timestamp: now,
                        },
                    },
                ],
            },
        )
    }
}

// ---------------------------------------------------------------------------
// Batches: what is common to both
// ---------------------------------------------------------------------------

/// Whether the id at position `i` stands at another position of `ids` too.
pub open spec fn repeated(ids: Seq<u64>, i: int) -> bool {
    exists|j: int| 0 <= j < ids.len() && j != i && #[trigger] ids[j] == ids[i]
}

/// The first fault in a row of findings, in the order of the row.
pub open spec fn first_fault(faults: Seq<Option<Error>>) -> Option<Error>
    decreases faults.len(),
{
    if faults.len() == 0 {
        None
    } else if first_fault(faults.drop_last()) is Some {
        first_fault(faults.drop_last())
    } else {
        faults.last()
    }
}

/// Whether a batch of `n` entries has an acceptable size: at least one
/// entry, and no more than `MAX_BATCH_SIZE`.
pub open spec fn batch_size_ok(n: nat) -> bool {
    1 <= n <= MAX_BATCH_SIZE
}

// ---------------------------------------------------------------------------
// Batch lock
// ---------------------------------------------------------------------------

/// The bounty ids of a batch lock, in the order of the batch.
pub open spec fn lock_ids(items: Seq<LockFundsItem>) -> Seq<u64> {
    Seq::new(items.len(), |i: int| items[i].bounty_id)
}

/// What is wrong with entry `i` of a batch lock, if anything: its bounty has
/// a record already, its amount is not positive, or its id stands in the
/// batch more than once. The first of these that holds is the finding.
pub open spec fn lock_item_fault(escrows: Map<u64, Escrow>, items: Seq<LockFundsItem>, i: int) -> Option<
    Error,
> {
    if escrows.contains_key(items[i].bounty_id) {
        Some(Error::BountyExists)
    } else if items[i].amount <= 0 {
        Some(Error::InvalidBatchSize)
    } else if repeated(lock_ids(items), i) {
        Some(Error::DuplicateBountyId)
    } else {
        None
    }
}

/// The findings for all entries of a batch lock.
pub open spec fn lock_faults(escrows: Map<u64, Escrow>, items: Seq<LockFundsItem>) -> Seq<
    Option<Error>,
> {
    Seq::new(items.len(), |i: int| lock_item_fault(escrows, items, i))
}

/// The sum of the amounts of a batch lock.
pub open spec fn lock_total(items: Seq<LockFundsItem>) -> int
    decreases items.len(),
{
    if items.len() == 0 {
        0
    } else {
        lock_total(items.drop_last()) + items.last().amount
    }
}

/// The depositors of a batch lock, each once, in the order in which they
/// first appear.
pub open spec fn distinct_depositors(items: Seq<LockFundsItem>) -> Seq<Principal>
    decreases items.len(),
{
    if items.len() == 0 {
        Seq::empty()
    } else {
        let before = distinct_depositors(items.drop_last());
        if before.contains(items.last().depositor) {
            before
        } else {
            before.push(items.last().depositor)
        }
    }
}

/// One demand for proof per principal, in the order given.
pub open spec fn auth_actions(principals: Seq<Principal>) -> Seq<Action> {
    Seq::new(principals.len(), |i: int| Action::RequireAuth { principal: principals[i] })
}

/// The transfer and the notification for each entry of a batch lock, entry
/// by entry.
pub open spec fn lock_actions(token: Principal, items: Seq<LockFundsItem>) -> Seq<Action>
    decreases items.len(),
{
    if items.len() == 0 {
        Seq::empty()
    } else {
        let it = items.last();
        lock_actions(token, items.drop_last()).push(
            Action::TransferIn { token, from: it.depositor, amount: it.amount },
        ).push(
            Action::Emit {
                event: Event::FundsLocked {
                    bounty_id: it.bounty_id,
                    amount: it.amount,
                    depositor: it.depositor,
                    deadline: it.deadline,
                },
            },
        )
    }
}

/// The records after every entry of a batch lock has been written.
pub open spec fn lock_all(escrows: Map<u64, Escrow>, items: Seq<LockFundsItem>) -> Map<u64, Escrow>
    decreases items.len(),
{
    if items.len() == 0 {
        escrows
    } else {
        let it = items.last();
        lock_all(escrows, items.drop_last()).insert(
            it.bounty_id,
            locked_record(it.depositor, it.amount, it.deadline),
        )
    }
}

/// Why a batch lock is refused, if it is: a bad size, a ledger that is not
/// configured, the first faulty entry, or a total that no `i128` holds, in
/// this order.
pub open spec fn batch_lock_fault(s: LedgerState, items: Seq<LockFundsItem>) -> Option<Error> {
    if !batch_size_ok(items.len()) {
        Some(Error::InvalidBatchSize)
    } else if s.config is None {
        Some(Error::NotInitialized)
    } else if first_fault(lock_faults(s.escrows, items)) is Some {
        first_fault(lock_faults(s.escrows, items))
    } else if !fits_i128(lock_total(items)) {
        Some(Error::InvalidBatchSize)
    } else {
        None
    }
}

/// Locking funds for many bounties at once: all entries are accepted or
/// none is. Proof is asked for once per depositor, before anything moves.
pub open spec fn batch_lock_spec(s: LedgerState, items: Seq<LockFundsItem>, now: u64) -> Result<
    Step,
    Error,
> {
    match batch_lock_fault(s, items) {
        Some(e) => Err(e),
        None => Ok(
            Step {
                next: LedgerState { config: s.config, escrows: lock_all(s.escrows, items) },
                actions: auth_actions(distinct_depositors(items)) + lock_actions(s.token(), items)
                    + seq![
                    Action::Emit {
                        event: Event::BatchFundsLocked {
                            count: items.len() as u32,
                            total_amount: lock_total(items) as i128,
                            timestamp: now,
                        },
                    },
                ],
            },
        ),
    }
}

// ---------------------------------------------------------------------------
// Batch release
// ---------------------------------------------------------------------------

/// The bounty ids of a batch release, in the order of the batch.
pub open spec fn release_ids(items: Seq<ReleaseFundsItem>) -> Seq<u64> {
    Seq::new(items.len(), |i: int| items[i].bounty_id)
}

/// The sum of the amounts held for the entries of a batch release; an entry
/// without a record counts as nothing.
pub open spec fn release_total(escrows: Map<u64, Escrow>, items: Seq<ReleaseFundsItem>) -> int
    decreases items.len(),
{
    if items.len() == 0 {
        0
    } else {
        let id = items.last().bounty_id;
        release_total(escrows, items.drop_last()) + if escrows.contains_key(id) {
            escrows[id].amount as int
        } else {
            0
        }
    }
}

/// What is wrong with entry `i` of a batch release, if anything: its bounty
/// has no record, its funds are not locked, its id stands in the batch more
/// than once, or the amounts up to and with it add up to more than an `i128`
/// holds. The first of these that holds is the finding.
pub open spec fn release_item_fault(
    escrows: Map<u64, Escrow>,
    items: Seq<ReleaseFundsItem>,
    i: int,
) -> Option<Error> {
    let id = items[i].bounty_id;
    if !escrows.contains_key(id) {
        Some(Error::BountyNotFound)
    } else if escrows[id].status != EscrowStatus::Locked {
        Some(Error::FundsNotLocked)
    } else if repeated(release_ids(items), i) {
        Some(Error::DuplicateBountyId)
    } else if !fits_i128(release_total(escrows, items.take(i + 1))) {
        Some(Error::InvalidBatchSize)
    } else {
        None
    }
}

/// The findings for all entries of a batch release.
pub open spec fn release_faults(escrows: Map<u64, Escrow>, items: Seq<ReleaseFundsItem>) -> Seq<
    Option<Error>,
> {
    Seq::new(items.len(), |i: int| release_item_fault(escrows, items, i))
}

/// The payout and the notification for each entry of a batch release, entry
/// by entry, with the amounts that `escrows` records.
pub open spec fn release_actions(
    token: Principal,
    escrows: Map<u64, Escrow>,
    items: Seq<ReleaseFundsItem>,
    now: u64,
) -> Seq<Action>
    decreases items.len(),
{
    if items.len() == 0 {
        Seq::empty()
    } else {
        let it = items.last();
        let amount = escrows[it.bounty_id].amount;
        release_actions(token, escrows, items.drop_last(), now).push(
            Action::TransferOut { token, to: it.contributor, amount },
        ).push(
            Action::Emit {
                event: Event::FundsReleased {
                    bounty_id: it.bounty_id,
                    amount,
                    recipient: it.contributor,
                    timestamp: now,
                },
            },
        )
    }
}

/// The records after every entry of a batch release has been settled: each
/// keeps what `escrows` records of it, but for the status.
pub open spec fn release_all(escrows: Map<u64, Escrow>, items: Seq<ReleaseFundsItem>) -> Map<
    u64,
    Escrow,
>
    decreases items.len(),
{
    if items.len() == 0 {
        escrows
    } else {
        let id = items.last().bounty_id;
        release_all(escrows, items.drop_last()).insert(
            id,
            settled(escrows[id], EscrowStatus::Released),
        )
    }
}

/// Why a batch release is refused, if it is: a bad size, a ledger that is
/// not configured, or the first faulty entry, in this order.
pub open spec fn batch_release_fault(s: LedgerState, items: Seq<ReleaseFundsItem>) -> Option<
    Error,
> {
    if !batch_size_ok(items.len()) {
        Some(Error::InvalidBatchSize)
    } else if s.config is None {
        Some(Error::NotInitialized)
    } else {
        first_fault(release_faults(s.escrows, items))
    }
}

/// Releasing the funds of many bounties at once: all entries are accepted
/// or none is. The administrator's proof is asked for once.
pub open spec fn batch_release_spec(
    s: LedgerState,
    items: Seq<ReleaseFundsItem>,
    now: u64,
) -> Result<Step, Error> {
    match batch_release_fault(s, items) {
        Some(e) => Err(e),
        None => Ok(
            Step {
                next: LedgerState { config: s.config, escrows: release_all(s.escrows, items) },
                actions: seq![Action::RequireAuth { principal: s.admin() }] + release_actions(
                    s.token(),
                    s.escrows,
                    items,
                    now,
                ) + seq![
                    Action::Emit {
                        event: Event::BatchFundsReleased {
                            count: items.len() as u32,
                            total_amount: release_total(s.escrows, items) as i128,
                            timestamp: now,
                        },
                    },
                ],
            },
        ),
    }
}

} // verus!
