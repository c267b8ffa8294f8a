use vstd::prelude::*;
use crate::principal::{Principal, PrincipalKind};

verus! {

/// The identifier of an asset: the principal of the contract that keeps its
/// balances.
pub type AssetId = Principal;

/// Why a principal cannot stand for an asset.
#[derive(Copy, Clone, Debug, PartialEq, Eq, Structural, PartialOrd, Ord, Hash)]
pub enum AssetIdError {
    MustBeContractAddress,
}

impl AssetIdError {
    /// The numeric code under which the error is reported to callers.
    pub fn code(self) -> (c: u32)
        ensures
            c == 200,
    {
        200
    }
}

/// Whether a principal can stand for an asset: only a contract can.
pub open spec fn is_asset_id(p: Principal) -> bool {
    p.kind == PrincipalKind::Contract
}

/// Checks that `asset_id` names a contract.
pub fn validate_asset_id(asset_id: &AssetId) -> (r: Result<(), AssetIdError>)
    ensures
        r == if is_asset_id(*asset_id) {
            Ok::<(), AssetIdError>(())
        } else {
            Err::<(), AssetIdError>(AssetIdError::MustBeContractAddress)
        },
{
    match asset_id.kind {
        PrincipalKind::Contract => Ok(()),
        PrincipalKind::Account => Err(AssetIdError::MustBeContractAddress),
    }
}

/// Brings an asset identifier as it came in to the form in which it is
/// kept: it is checked, and kept as it is.
pub fn normalize_asset_id(raw_asset_id: &Principal) -> (r: Result<AssetId, AssetIdError>)
    ensures
        r == if is_asset_id(*raw_asset_id) {
            Ok::<AssetId, AssetIdError>(*raw_asset_id)
        } else {
            Err::<AssetId, AssetIdError>(AssetIdError::MustBeContractAddress)
        },
{
    match validate_asset_id(raw_asset_id) {
        Ok(()) => Ok(*raw_asset_id),
        Err(e) => Err(e),
    }
}

} // verus!
