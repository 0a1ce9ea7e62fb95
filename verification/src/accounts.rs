//! The accounts that a request presents, and the checks run on them before
//! anything changes.

use crate::authority::{address_of, Derivation};
use crate::error::VaultError;
use crate::identity::Identity;
use crate::ledger::TokenAccount;
use vstd::prelude::*;

verus! {

/// The record of a vault: who owns it. It is written once, when the vault is
/// initialized, and lives at the address derived from the owner.
#[derive(Clone, Copy, Debug, PartialEq, Eq)]
pub struct Vault {
    pub owner: Identity,
}

impl Vault {
    /// The bytes that a stored record takes: a tag of eight bytes and the owner.
    pub const MAX_SIZE: usize = 8 + 32;

    /// The namespace tag under which vault addresses are derived: `vault`.
    pub const SEED: [u8; 5] = [118, 97, 117, 108, 116];
}

impl Default for Vault {
    /// The record before an owner is written to it: the owner's bytes are
    /// all zero.
    fn default() -> (vault: Vault)
        ensures
            vault.owner@ == Seq::new(32, |i: int| 0u8),
    {
        let vault = Vault { owner: Identity { bytes: [0u8; 32] } };
        assert(vault.owner@ =~= Seq::new(32, |i: int| 0u8));
        vault
    }
}

/// The caller of a request: its identity, and whether the environment found
/// its signature on the request.
#[derive(Clone, Copy, Debug, PartialEq, Eq)]
pub struct Signer {
    pub key: Identity,
    pub is_signer: bool,
}

/// The accounts of a request to initialize a vault: the slot presented for the
/// record and the slot of the escrow, each with what it holds so far.
#[derive(Clone, Copy, Debug, PartialEq, Eq)]
pub struct InitializeVault {
    pub signer: Signer,
    pub mint: Identity,
    pub vault_address: Identity,
    pub vault: Option<Vault>,
    pub vault_ata: Option<TokenAccount>,
}

/// The accounts of a deposit into an active vault: the vault's record with
/// the address it was loaded from, its escrow, and the caller's own holding
/// account.
#[derive(Clone, Copy, Debug, PartialEq, Eq)]
pub struct DepositTokens {
    pub signer: Signer,
    pub mint: Identity,
    pub vault_address: Identity,
    pub vault: Vault,
    pub vault_ata: TokenAccount,
    pub signer_ata: TokenAccount,
}

/// The accounts of a withdrawal from an active vault: the same as those of a
/// deposit.
#[derive(Clone, Copy, Debug, PartialEq, Eq)]
pub struct WithdrawTokens {
    pub signer: Signer,
    pub mint: Identity,
    pub vault_address: Identity,
    pub vault: Vault,
    pub vault_ata: TokenAccount,
    pub signer_ata: TokenAccount,
}

/// The first check that fails on the accounts of a deposit or a withdrawal,
/// where `derived` is the address derived for the caller. The checks come in
/// this order: the caller's signature; that an address is derived for the
/// caller at all; that it is the authority of the escrow; that the caller is
/// the authority of its holding account; that the record was loaded from the
/// derived address; that both holding accounts are of the asset type named.
pub open spec fn accounts_rejection(
    signer: Signer,
    mint: Identity,
    vault_address: Identity,
    vault_ata: TokenAccount,
    signer_ata: TokenAccount,
    derived: Option<Seq<u8>>,
) -> Option<VaultError> {
    if !signer.is_signer {
        Some(VaultError::AuthorizationFailure)
    } else if derived is None {
        Some(VaultError::AuthorizationFailure)
    } else if vault_ata.authority@ != derived->0 {
        Some(VaultError::AuthorizationFailure)
    } else if signer_ata.authority != signer.key {
        Some(VaultError::AuthorizationFailure)
    } else if vault_address@ != derived->0 {
        Some(VaultError::MalformedInput)
    } else if vault_ata.mint != mint || signer_ata.mint != mint {
        Some(VaultError::MalformedInput)
    } else {
        None
    }
}

fn check_accounts(
    signer: &Signer,
    mint: &Identity,
    vault_address: &Identity,
    vault_ata: &TokenAccount,
    signer_ata: &TokenAccount,
    derived: &Option<Derivation>,
) -> (r: Result<(), VaultError>)
    ensures
        r == match accounts_rejection(
            *signer,
            *mint,
            *vault_address,
            *vault_ata,
            *signer_ata,
            address_of(*derived),
        ) {
            Some(e) => Err::<(), VaultError>(e),
            None => Ok(()),
        },
{
    if !signer.is_signer {
        return Err(VaultError::AuthorizationFailure);
    }
    match derived {
        None => Err(VaultError::AuthorizationFailure),
        Some(d) => {
            proof {
                vault_ata.authority.same_bytes_same_identity(d.address);
                vault_address.same_bytes_same_identity(d.address);
            }
            if vault_ata.authority != d.address {
                Err(VaultError::AuthorizationFailure)
            } else if signer_ata.authority != signer.key {
                Err(VaultError::AuthorizationFailure)
            } else if *vault_address != d.address {
                Err(VaultError::MalformedInput)
            } else if vault_ata.mint != *mint || signer_ata.mint != *mint {
                Err(VaultError::MalformedInput)
            } else {
                Ok(())
            }
        },
    }
}

impl InitializeVault {
    /// The first check that fails on these accounts, where `derived` is the
    /// address derived for the caller. The checks come in this order: the
    /// caller's signature; that an address is derived for the caller at all;
    /// that the slot presented lies at it; that the slot and the escrow's slot
    /// are both empty.
    pub open spec fn rejection(self, derived: Option<Seq<u8>>) -> Option<VaultError> {
        if !self.signer.is_signer {
            Some(VaultError::AuthorizationFailure)
        } else if derived is None {
            Some(VaultError::AuthorizationFailure)
        } else if self.vault_address@ != derived->0 {
            Some(VaultError::MalformedInput)
        } else if self.vault is Some || self.vault_ata is Some {
            Some(VaultError::StateConflict)
        } else {
            None
        }
    }

    /// Runs the checks of [`InitializeVault::rejection`] against a derivation
    /// made for the caller.
    pub fn validate(&self, derived: &Option<Derivation>) -> (r: Result<(), VaultError>)
        ensures
            r == match self.rejection(address_of(*derived)) {
                Some(e) => Err::<(), VaultError>(e),
                None => Ok(()),
            },
    {
        if !self.signer.is_signer {
            return Err(VaultError::AuthorizationFailure);
        }
        match derived {
            None => Err(VaultError::AuthorizationFailure),
            Some(d) => {
                proof {
                    self.vault_address.same_bytes_same_identity(d.address);
                }
                if self.vault_address != d.address {
                    Err(VaultError::MalformedInput)
                } else if self.vault.is_some() || self.vault_ata.is_some() {
                    Err(VaultError::StateConflict)
                } else {
                    Ok(())
                }
            },
        }
    }
}

impl DepositTokens {
    /// The first check that fails on these accounts, as
    /// [`accounts_rejection`] orders them.
    pub open spec fn rejection(self, derived: Option<Seq<u8>>) -> Option<VaultError> {
        accounts_rejection(
            self.signer,
            self.mint,
            self.vault_address,
            self.vault_ata,
            self.signer_ata,
            derived,
        )
    }

    /// Runs the checks of [`DepositTokens::rejection`] against a derivation
    /// made for the caller.
    pub fn validate(&self, derived: &Option<Derivation>) -> (r: Result<(), VaultError>)
        ensures
            r == match self.rejection(address_of(*derived)) {
                Some(e) => Err::<(), VaultError>(e),
                None => Ok(()),
            },
    {
        check_accounts(
            &self.signer,
            &self.mint,
            &self.vault_address,
            &self.vault_ata,
            &self.signer_ata,
            derived,
        )
    }
}

impl WithdrawTokens {
    /// The first check that fails on these accounts, as
    /// [`accounts_rejection`] orders them.
    pub open spec fn rejection(self, derived: Option<Seq<u8>>) -> Option<VaultError> {
        accounts_rejection(
            self.signer,
            self.mint,
            self.vault_address,
            self.vault_ata,
            self.signer_ata,
            derived,
        )
    }

    /// Runs the checks of [`WithdrawTokens::rejection`] against a derivation
    /// made for the caller.
    pub fn validate(&self, derived: &Option<Derivation>) -> (r: Result<(), VaultError>)
        ensures
            r == match self.rejection(address_of(*derived)) {
                Some(e) => Err::<(), VaultError>(e),
                None => Ok(()),
            },
    {
        check_accounts(
            &self.signer,
            &self.mint,
            &self.vault_address,
            &self.vault_ata,
            &self.signer_ata,
            derived,
        )
    }
}

} // verus!
