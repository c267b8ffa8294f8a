use vstd::prelude::*;
use crate::principal::Principal;

verus! {

/// Why an operation was turned down. Every failure leaves the ledger as it was.
#[derive(Copy, Clone, Debug, PartialEq, Eq, Structural, PartialOrd, Ord, Hash)]
pub enum Error {
    AlreadyInitialized,
    NotInitialized,
    BountyExists,
    BountyNotFound,
    FundsNotLocked,
    DeadlineNotPassed,
    Unauthorized,
    InvalidBatchSize,
    BatchSizeMismatch,
    DuplicateBountyId,
}

impl Error {
    /// The numeric code under which the error is reported to callers.
    pub open spec fn spec_code(self) -> u32 {
        match self {
            Error::AlreadyInitialized => 1,
            Error::NotInitialized => 2,
            Error::BountyExists => 3,
            Error::BountyNotFound => 4,
            Error::FundsNotLocked => 5,
            Error::DeadlineNotPassed => 6,
            Error::Unauthorized => 7,
            Error::InvalidBatchSize => 8,
            Error::BatchSizeMismatch => 9,
            Error::DuplicateBountyId => 10,
        }
    }

    /// The numeric code under which the error is reported to callers.
    #[verifier::when_used_as_spec(spec_code)]
    pub fn code(self) -> (c: u32)
        ensures
            c == self.spec_code(),
    {
        match self {
            Error::AlreadyInitialized => 1,
            Error::NotInitialized => 2,
            Error::BountyExists => 3,
            Error::BountyNotFound => 4,
            Error::FundsNotLocked => 5,
            Error::DeadlineNotPassed => 6,
            Error::Unauthorized => 7,
            Error::InvalidBatchSize => 8,
            Error::BatchSizeMismatch => 9,
            Error::DuplicateBountyId => 10,
        }
    }
}

/// Where an escrow record stands. `Locked` is where every record starts;
/// `Released` and `Refunded` are final.
#[derive(Copy, Clone, Debug, PartialEq, Eq, Structural, Hash)]
pub enum EscrowStatus {
    Locked,
    Released,
    Refunded,
}

/// The record kept for one bounty.
#[derive(Copy, Clone, Debug, PartialEq, Eq, Hash)]
pub struct Escrow {
    /// Who supplied the funds, and who gets them back on a refund.
    pub depositor: Principal,
    /// How much of the configured asset is held for the bounty.
    pub amount: i128,
    pub status: EscrowStatus,
    /// The time from which a refund may be asked for.
    pub deadline: u64,
}

/// One entry of a batch lock.
#[derive(Copy, Clone, Debug, PartialEq, Eq, Hash)]
pub struct LockFundsItem {
    pub bounty_id: u64,
    pub depositor: Principal,
    pub amount: i128,
    pub deadline: u64,
}

/// One entry of a batch release.
#[derive(Copy, Clone, Debug, PartialEq, Eq, Hash)]
pub struct ReleaseFundsItem {
    pub bounty_id: u64,
    pub contributor: Principal,
}

/// The address of one entry of the ledger's store.
#[derive(Copy, Clone, Debug, PartialEq, Eq, Structural, Hash)]
pub enum DataKey {
    /// The administrator, set once when the ledger is configured.
    Admin,
    /// The asset that the ledger holds, set together with the administrator.
    Token,
    /// The escrow record of the bounty with this id.
    Escrow(u64),
}

/// The configuration that is set once: who may release, and which asset is held.
#[derive(Copy, Clone, Debug, PartialEq, Eq, Hash)]
pub struct Config {
    pub admin: Principal,
    pub token: Principal,
}

/// The most entries that one batch may hold.
pub const MAX_BATCH_SIZE: usize = 100;

} // verus!
