use vstd::prelude::*;
use crate::principal::Principal;

verus! {

/// A notification for observers outside the ledger. Nothing in the ledger
/// reads one back.
#[derive(Copy, Clone, Debug, PartialEq, Eq, Hash)]
pub enum Event {
    Initialized { admin: Principal, token: Principal, timestamp: u64 },
    FundsLocked { bounty_id: u64, amount: i128, depositor: Principal, deadline: u64 },
    FundsReleased { bounty_id: u64, amount: i128, recipient: Principal, timestamp: u64 },
    FundsRefunded { bounty_id: u64, amount: i128, refund_to: Principal, timestamp: u64 },
    BatchFundsLocked { count: u32, total_amount: i128, timestamp: u64 },
    BatchFundsReleased { count: u32, total_amount: i128, timestamp: u64 },
}

/// One thing that the host has to do for an operation that the ledger has
/// accepted. The host carries the actions out in the order given; if one of
/// them fails, the whole operation is void and the ledger's new state must
/// not be kept.
#[derive(Copy, Clone, Debug, PartialEq, Eq, Hash)]
pub enum Action {
    /// Demand proof that `principal` stands behind this invocation.
    RequireAuth { principal: Principal },
    /// Move `amount` of `token` from `from` into the ledger's custody.
    TransferIn { token: Principal, from: Principal, amount: i128 },
    /// Move `amount` of `token` out of the ledger's custody to `to`.
    TransferOut { token: Principal, to: Principal, amount: i128 },
    /// Hand `event` to the event sink.
    Emit { event: Event },
}

/// The sum of what `measure` gives for each of `actions`.
pub open spec fn tally(actions: Seq<Action>, measure: spec_fn(Action) -> int) -> int
    decreases actions.len(),
{
    if actions.len() == 0 {
        0
    } else {
        tally(actions.drop_last(), measure) + measure(actions.last())
    }
}

/// The amount that an action moves into custody: negative for a payout,
/// zero for what moves nothing.
pub open spec fn inflow(a: Action) -> int {
    match a {
        Action::TransferIn { amount, .. } => amount as int,
        Action::TransferOut { amount, .. } => -(amount as int),
        _ => 0,
    }
}

/// The net amount that a run of actions moves into custody.
pub open spec fn net_inflow(actions: Seq<Action>) -> int {
    tally(actions, |a: Action| inflow(a))
}

/// The amount that a notification about one bounty reports; zero for any
/// other action.
pub open spec fn notified_amount(a: Action) -> int {
    match a {
        Action::Emit { event: Event::FundsLocked { amount, .. } } => amount as int,
        Action::Emit { event: Event::FundsReleased { amount, .. } } => amount as int,
        Action::Emit { event: Event::FundsRefunded { amount, .. } } => amount as int,
        _ => 0,
    }
}

/// The sum of the amounts that the notifications about single bounties in
/// `actions` report.
pub open spec fn notified_total(actions: Seq<Action>) -> int {
    tally(actions, |a: Action| notified_amount(a))
}

/// The total that a notification about a whole batch reports; zero for any
/// other action.
pub open spec fn batch_total(a: Action) -> int {
    match a {
        Action::Emit { event: Event::BatchFundsLocked { total_amount, .. } } => total_amount as int,
        Action::Emit { event: Event::BatchFundsReleased { total_amount, .. } } => total_amount as int,
        _ => 0,
    }
}

} // verus!
