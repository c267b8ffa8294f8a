use bounty_escrow::asset::{normalize_asset_id, validate_asset_id, AssetId, AssetIdError};
use bounty_escrow::principal::{Principal, PrincipalKind};
use soroban_sdk::testutils::{Address as _, EnvTestConfig};
use soroban_sdk::xdr::{AccountId, ContractId, PublicKey, ScAddress, Uint256};
use soroban_sdk::{Address, Env};

/// A test environment that keeps nothing on disk.
fn quiet_env() -> Env {
    Env::new_with_config(EnvTestConfig { capture_snapshot_at_drop: false })
}

fn asset_id_of(address: &Address) -> AssetId {
    match ScAddress::from(address) {
        ScAddress::Account(AccountId(PublicKey::PublicKeyTypeEd25519(Uint256(key)))) => {
            Principal { kind: PrincipalKind::Account, key }
        }
        ScAddress::Contract(ContractId(soroban_sdk::xdr::Hash(key))) => {
            Principal { kind: PrincipalKind::Contract, key }
        }
        other => panic!("neither an account nor a contract: {:?}", other),
    }
}

#[test]
fn accepts_contract_address_asset_id() {
    let env = quiet_env();
    let contract_address = Address::generate(&env);
    assert_eq!(validate_asset_id(&asset_id_of(&contract_address)), Ok(()));
}

#[test]
fn rejects_account_address_asset_id() {
    let env = quiet_env();
    let issuer_admin = Address::generate(&env);
    let stellar_asset = env.register_stellar_asset_contract_v2(issuer_admin);
    let account_address = stellar_asset.issuer().address();

    assert_eq!(
        validate_asset_id(&asset_id_of(&account_address)),
        Err(AssetIdError::MustBeContractAddress)
    );
}

#[test]
fn accepts_the_contract_of_a_stellar_asset() {
    let env = quiet_env();
    let issuer_admin = Address::generate(&env);
    let stellar_asset = env.register_stellar_asset_contract_v2(issuer_admin);
    assert_eq!(validate_asset_id(&asset_id_of(&stellar_asset.address())), Ok(()));
}

#[test]
fn normalize_keeps_a_contract_as_it_is() {
    let raw = Principal { kind: PrincipalKind::Contract, key: [9; 32] };
    assert_eq!(normalize_asset_id(&raw), Ok(raw));
}

#[test]
fn normalize_refuses_an_account() {
    let raw = Principal { kind: PrincipalKind::Account, key: [9; 32] };
    assert_eq!(normalize_asset_id(&raw), Err(AssetIdError::MustBeContractAddress));
    assert_eq!(AssetIdError::MustBeContractAddress.code(), 200);
}
