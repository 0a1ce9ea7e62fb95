//! The three operations on a vault: initialize it, deposit into it, withdraw
//! from it. Each runs every check before it changes anything, and a request
//! that is rejected leaves its accounts as they were.

use crate::accounts::{DepositTokens, InitializeVault, Vault, WithdrawTokens};
use crate::authority::{address_of, derivation, Derivation, DerivedAuthority};
use crate::error::VaultError;
use crate::identity::Identity;
use crate::ledger::{transfer, transfer_rejection, Authorization, TokenAccount};
use vstd::prelude::*;

verus! {

/// The address of the vault of `owner`, where the derivation gives one.
pub open spec fn vault_address(owner: Identity) -> Option<Seq<u8>> {
    match derivation(Vault::SEED@, owner) {
        Some((address, _)) => Some(address),
        None => None,
    }
}

/// A request that was to end as `outcome` says did so: it returned `r` and
/// turned the accounts `before` into `after`.
pub open spec fn concludes<C>(
    r: Result<(), VaultError>,
    before: C,
    after: C,
    outcome: Result<C, VaultError>,
) -> bool {
    match outcome {
        Ok(next) => r is Ok && after == next,
        Err(e) => r == Err::<(), VaultError>(e) && after == before,
    }
}

impl InitializeVault {
    /// The accounts once the vault is active: the record names the caller as
    /// owner, and the escrow is empty, of the asset type named, under the
    /// authority of the vault's address.
    pub open spec fn initialized(self) -> InitializeVault {
        InitializeVault {
            vault: Some(Vault { owner: self.signer.key }),
            vault_ata: Some(
                TokenAccount { authority: self.vault_address, mint: self.mint, balance: 0 },
            ),
            ..self
        }
    }

    /// How the request ends, where `derived` is the address derived for the
    /// caller.
    pub open spec fn outcome(self, derived: Option<Seq<u8>>) -> Result<InitializeVault, VaultError> {
        match self.rejection(derived) {
            Some(e) => Err(e),
            None => Ok(self.initialized()),
        }
    }
}

impl DepositTokens {
    /// The accounts once `amount` has moved from the caller into the escrow.
    pub open spec fn deposited(self, amount: u64) -> DepositTokens {
        DepositTokens {
            signer_ata: self.signer_ata.debited(amount),
            vault_ata: self.vault_ata.credited(amount),
            ..self
        }
    }

    /// How a deposit of `amount` ends, where `derived` is the address derived
    /// for the caller: with the first failing check on the accounts, else with
    /// what the ledger says of the transfer that the caller signed.
    pub open spec fn outcome(self, derived: Option<Seq<u8>>, amount: u64) -> Result<
        DepositTokens,
        VaultError,
    > {
        match self.rejection(derived) {
            Some(e) => Err(e),
            None => match transfer_rejection(
                self.signer_ata,
                self.vault_ata,
                self.signer.key,
                amount,
            ) {
                Some(e) => Err(e),
                None => Ok(self.deposited(amount)),
            },
        }
    }
}

impl WithdrawTokens {
    /// The accounts once `amount` has moved from the escrow to the caller.
    pub open spec fn withdrawn(self, amount: u64) -> WithdrawTokens {
        WithdrawTokens {
            vault_ata: self.vault_ata.debited(amount),
            signer_ata: self.signer_ata.credited(amount),
            ..self
        }
    }

    /// How a withdrawal of `amount` ends, where `derived` is the address
    /// derived for the caller and `signatory` the identity, if any, that the
    /// authorization presented stands for.
    pub open spec fn outcome_under(
        self,
        derived: Option<Seq<u8>>,
        signatory: Option<Identity>,
        amount: u64,
    ) -> Result<WithdrawTokens, VaultError> {
        match self.rejection(derived) {
            Some(e) => Err(e),
            None => match signatory {
                None => Err(VaultError::AuthorizationFailure),
                Some(s) => match transfer_rejection(self.vault_ata, self.signer_ata, s, amount) {
                    Some(e) => Err(e),
                    None => Ok(self.withdrawn(amount)),
                },
            },
        }
    }

    /// How a withdrawal of `amount` ends, where `derived` is the address
    /// derived for the caller and the capability derived with it is presented
    /// to the ledger: with the first failing check on the accounts, else with
    /// what the ledger says of the transfer that the vault's address stands
    /// behind.
    pub open spec fn outcome(self, derived: Option<Seq<u8>>, amount: u64) -> Result<
        WithdrawTokens,
        VaultError,
    > {
        self.outcome_under(derived, Some(self.vault_ata.authority), amount)
    }
}

/// The identity that an authorization stands for, where there is one.
pub open spec fn signatory_of(authorization: Option<Authorization>) -> Option<Identity> {
    match authorization {
        Some(a) => Some(a.signatory()),
        None => None,
    }
}

/// Initializes the vault of the caller against a derivation made for it: the
/// record and the escrow are created together, or nothing is.
pub fn initialize_vault_with(ctx: &mut InitializeVault, derived: &Option<Derivation>) -> (r: Result<
    (),
    VaultError,
>)
    ensures
        concludes(r, *old(ctx), *final(ctx), old(ctx).outcome(address_of(*derived))),
{
    match ctx.validate(derived) {
        Err(e) => Err(e),
        Ok(()) => {
            ctx.vault = Some(Vault { owner: ctx.signer.key });
            ctx.vault_ata = Some(
                TokenAccount { authority: ctx.vault_address, mint: ctx.mint, balance: 0 },
            );
            Ok(())
        },
    }
}

/// Initializes the vault of the caller: derives its address, and creates the
/// record with the caller as owner and an empty escrow under the authority of
/// that address. A second request for the same caller finds the slots taken
/// and is rejected.
pub fn initialize_vault(ctx: &mut InitializeVault) -> (r: Result<(), VaultError>)
    ensures
        concludes(r, *old(ctx), *final(ctx), old(ctx).outcome(vault_address(old(ctx).signer.key))),
{
    let derived = DerivedAuthority::derive(&Vault::SEED, &ctx.signer.key);
    initialize_vault_with(ctx, &derived)
}

/// Deposits `amount` against a derivation made for the caller: the transfer
/// is authorized by the caller's own signature.
pub fn deposit_tokens_with(ctx: &mut DepositTokens, derived: &Option<Derivation>, amount: u64) -> (r:
    Result<(), VaultError>)
    ensures
        concludes(r, *old(ctx), *final(ctx), old(ctx).outcome(address_of(*derived), amount)),
{
    match ctx.validate(derived) {
        Err(e) => Err(e),
        Ok(()) => match Authorization::by_signature(&ctx.signer) {
            None => Err(VaultError::AuthorizationFailure),
            Some(authorization) => transfer(
                &mut ctx.signer_ata,
                &mut ctx.vault_ata,
                &authorization,
                amount,
            ),
        },
    }
}

/// Moves `amount` from the caller's holding account into the escrow of the
/// caller's own vault. The vault is the one derived from the caller, whatever
/// accounts are presented.
pub fn deposit_tokens(ctx: &mut DepositTokens, amount: u64) -> (r: Result<(), VaultError>)
    ensures
        concludes(
            r,
            *old(ctx),
            *final(ctx),
            old(ctx).outcome(vault_address(old(ctx).signer.key), amount),
        ),
{
    let derived = DerivedAuthority::derive(&Vault::SEED, &ctx.signer.key);
    deposit_tokens_with(ctx, &derived, amount)
}

/// Withdraws `amount` against a derivation made for the caller and under the
/// authorization presented for the escrow's authority.
pub fn withdraw_tokens_with(
    ctx: &mut WithdrawTokens,
    derived: &Option<Derivation>,
    authorization: &Option<Authorization>,
    amount: u64,
) -> (r: Result<(), VaultError>)
    ensures
        concludes(
            r,
            *old(ctx),
            *final(ctx),
            old(ctx).outcome_under(address_of(*derived), signatory_of(*authorization), amount),
        ),
{
    match ctx.validate(derived) {
        Err(e) => Err(e),
        Ok(()) => match authorization {
            None => Err(VaultError::AuthorizationFailure),
            Some(a) => transfer(&mut ctx.vault_ata, &mut ctx.signer_ata, a, amount),
        },
    }
}

/// Moves `amount` from the escrow of the caller's vault to the caller's
/// holding account. The vault has no key: the transfer is authorized by the
/// capability derived from the caller, which stands for the vault's address.
pub fn withdraw_tokens(ctx: &mut WithdrawTokens, amount: u64) -> (r: Result<(), VaultError>)
    ensures
        concludes(
            r,
            *old(ctx),
            *final(ctx),
            old(ctx).outcome(vault_address(old(ctx).signer.key), amount),
        ),
{
    let derived = DerivedAuthority::derive(&Vault::SEED, &ctx.signer.key);
    let authorization = match &derived {
        Some(d) => Authorization::by_capability(&d.authority),
        None => None,
    };
    proof {
        if let Some(a) = authorization {
            a.signatory().same_bytes_same_identity(ctx.vault_ata.authority);
        }
    }
    withdraw_tokens_with(ctx, &derived, &authorization, amount)
}

} // verus!
