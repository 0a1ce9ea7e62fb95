use token_vault_system::accounts::{Signer, Vault};
use token_vault_system::authority::DerivedAuthority;
use token_vault_system::error::VaultError;
use token_vault_system::identity::Identity;
use token_vault_system::ledger::{transfer, Authorization, TokenAccount};

fn holder() -> Identity {
    Identity { bytes: [3; 32] }
}

fn receiver() -> Identity {
    Identity { bytes: [4; 32] }
}

fn asset() -> Identity {
    Identity { bytes: [9; 32] }
}

fn account_of(authority: Identity, balance: u64) -> TokenAccount {
    TokenAccount { authority, mint: asset(), balance }
}

fn signed_by(key: Identity) -> Authorization {
    Authorization::by_signature(&Signer { key, is_signer: true }).unwrap()
}

#[test]
fn transfer_debits_and_credits() {
    let mut from = account_of(holder(), 100);
    let mut to = account_of(receiver(), 5);
    assert_eq!(transfer(&mut from, &mut to, &signed_by(holder()), 40), Ok(()));
    assert_eq!(from, account_of(holder(), 60));
    assert_eq!(to, account_of(receiver(), 45));
}

#[test]
fn transfer_of_the_whole_balance_empties_the_source() {
    let mut from = account_of(holder(), 100);
    let mut to = account_of(receiver(), 0);
    assert_eq!(transfer(&mut from, &mut to, &signed_by(holder()), 100), Ok(()));
    assert_eq!(from.balance, 0);
    assert_eq!(to.balance, 100);
}

#[test]
fn transfer_of_nothing_changes_nothing() {
    let mut from = account_of(holder(), 0);
    let mut to = account_of(receiver(), u64::MAX);
    assert_eq!(transfer(&mut from, &mut to, &signed_by(holder()), 0), Ok(()));
    assert_eq!(from, account_of(holder(), 0));
    assert_eq!(to, account_of(receiver(), u64::MAX));
}

#[test]
fn transfer_beyond_the_balance_is_insufficient_funds() {
    let mut from = account_of(holder(), 100);
    let mut to = account_of(receiver(), 5);
    assert_eq!(
        transfer(&mut from, &mut to, &signed_by(holder()), 101),
        Err(VaultError::InsufficientFunds)
    );
    assert_eq!(from, account_of(holder(), 100));
    assert_eq!(to, account_of(receiver(), 5));
}

#[test]
fn transfer_by_another_signatory_is_unauthorized() {
    let mut from = account_of(holder(), 100);
    let mut to = account_of(receiver(), 5);
    assert_eq!(
        transfer(&mut from, &mut to, &signed_by(receiver()), 1),
        Err(VaultError::AuthorizationFailure)
    );
    assert_eq!(from.balance, 100);
    assert_eq!(to.balance, 5);
}

#[test]
fn transfer_between_asset_types_is_malformed() {
    let mut from = account_of(holder(), 100);
    let mut to = TokenAccount { authority: receiver(), mint: Identity { bytes: [8; 32] }, balance: 5 };
    assert_eq!(
        transfer(&mut from, &mut to, &signed_by(holder()), 1),
        Err(VaultError::MalformedInput)
    );
    assert_eq!(from.balance, 100);
    assert_eq!(to.balance, 5);
}

#[test]
fn transfer_past_the_largest_balance_is_malformed() {
    let mut from = account_of(holder(), 100);
    let mut to = account_of(receiver(), u64::MAX - 9);
    assert_eq!(
        transfer(&mut from, &mut to, &signed_by(holder()), 10),
        Err(VaultError::MalformedInput)
    );
    assert_eq!(from.balance, 100);
    assert_eq!(to.balance, u64::MAX - 9);
    assert_eq!(transfer(&mut from, &mut to, &signed_by(holder()), 9), Ok(()));
    assert_eq!(from.balance, 91);
    assert_eq!(to.balance, u64::MAX);
}

#[test]
fn unauthorized_comes_before_every_other_rejection() {
    let mut from = account_of(holder(), 1);
    let mut to = TokenAccount { authority: receiver(), mint: Identity { bytes: [8; 32] }, balance: u64::MAX };
    assert_eq!(
        transfer(&mut from, &mut to, &signed_by(receiver()), 2),
        Err(VaultError::AuthorizationFailure)
    );
    assert_eq!(
        transfer(&mut from, &mut to, &signed_by(holder()), 2),
        Err(VaultError::MalformedInput)
    );
    to.mint = asset();
    assert_eq!(
        transfer(&mut from, &mut to, &signed_by(holder()), 2),
        Err(VaultError::InsufficientFunds)
    );
    assert_eq!(
        transfer(&mut from, &mut to, &signed_by(holder()), 1),
        Err(VaultError::MalformedInput)
    );
}

#[test]
fn no_signature_no_authorization() {
    assert!(Authorization::by_signature(&Signer { key: holder(), is_signer: false }).is_none());
    assert!(Authorization::by_signature(&Signer { key: holder(), is_signer: true }).is_some());
}

#[test]
fn capability_authorizes_for_the_derived_address() {
    let derived = DerivedAuthority::derive(&Vault::SEED, &holder()).unwrap();
    let authorization = Authorization::by_capability(&derived.authority).unwrap();
    let mut escrow = account_of(derived.address, 70);
    let mut to = account_of(holder(), 0);
    assert_eq!(transfer(&mut escrow, &mut to, &authorization, 30), Ok(()));
    assert_eq!(escrow.balance, 40);
    assert_eq!(to.balance, 30);
}

#[test]
fn capability_does_not_authorize_for_its_owner() {
    let derived = DerivedAuthority::derive(&Vault::SEED, &holder()).unwrap();
    let authorization = Authorization::by_capability(&derived.authority).unwrap();
    let mut from = account_of(holder(), 70);
    let mut to = account_of(receiver(), 0);
    assert_eq!(
        transfer(&mut from, &mut to, &authorization, 30),
        Err(VaultError::AuthorizationFailure)
    );
    assert_eq!(from.balance, 70);
}

#[test]
fn capability_of_another_owner_does_not_authorize() {
    let derived = DerivedAuthority::derive(&Vault::SEED, &holder()).unwrap();
    let other = DerivedAuthority::derive(&Vault::SEED, &receiver()).unwrap();
    let authorization = Authorization::by_capability(&other.authority).unwrap();
    let mut escrow = account_of(derived.address, 70);
    let mut to = account_of(receiver(), 0);
    assert_eq!(
        transfer(&mut escrow, &mut to, &authorization, 30),
        Err(VaultError::AuthorizationFailure)
    );
    assert_eq!(escrow.balance, 70);
    assert_eq!(to.balance, 0);
}

#[test]
fn capability_that_derives_nothing_gives_no_authorization() {
    let forged = DerivedAuthority { namespace_tag: vec![0u8; 33], owner: holder(), nonce: 255 };
    assert!(Authorization::by_capability(&forged).is_none());
}
