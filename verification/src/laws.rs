//! What holds of the vault whatever the inputs: laws over the functions by
//! which the operations state their results.

use crate::accounts::{DepositTokens, InitializeVault, WithdrawTokens};
use crate::authority::{address_of, derives, Capability, Derivation};
use crate::error::VaultError;
use crate::handlers::vault_address;
use crate::identity::Identity;
use vstd::prelude::*;

verus! {

/// One movement of tokens through a vault.
pub enum Flow {
    Deposit(u64),
    Withdraw(u64),
}

/// The accounts of a deposit, presented for a withdrawal.
pub open spec fn for_withdrawal(accounts: DepositTokens) -> WithdrawTokens {
    WithdrawTokens {
        signer: accounts.signer,
        mint: accounts.mint,
        vault_address: accounts.vault_address,
        vault: accounts.vault,
        vault_ata: accounts.vault_ata,
        signer_ata: accounts.signer_ata,
    }
}

/// The accounts of a withdrawal, presented for a deposit.
pub open spec fn for_deposit(accounts: WithdrawTokens) -> DepositTokens {
    DepositTokens {
        signer: accounts.signer,
        mint: accounts.mint,
        vault_address: accounts.vault_address,
        vault: accounts.vault,
        vault_ata: accounts.vault_ata,
        signer_ata: accounts.signer_ata,
    }
}

/// What the escrow gains by the flows: the deposits less the withdrawals.
pub open spec fn net(flows: Seq<Flow>) -> int
    decreases flows.len(),
{
    if flows.len() == 0 {
        0
    } else {
        net(flows.drop_last()) + match flows.last() {
            Flow::Deposit(amount) => amount as int,
            Flow::Withdraw(amount) => -(amount as int),
        }
    }
}

/// How one flow ends on the accounts of a vault, requested by their caller.
pub open spec fn step(accounts: DepositTokens, flow: Flow) -> Result<DepositTokens, VaultError> {
    let derived = vault_address(accounts.signer.key);
    match flow {
        Flow::Deposit(amount) => accounts.outcome(derived, amount),
        Flow::Withdraw(amount) => match for_withdrawal(accounts).outcome(derived, amount) {
            Ok(next) => Ok(for_deposit(next)),
            Err(e) => Err(e),
        },
    }
}

/// How the flows end when they are requested one after another: with the
/// accounts after the last, or with the first rejection.
pub open spec fn run(accounts: DepositTokens, flows: Seq<Flow>) -> Result<DepositTokens, VaultError>
    decreases flows.len(),
{
    if flows.len() == 0 {
        Ok(accounts)
    } else {
        match run(accounts, flows.drop_last()) {
            Ok(next) => step(next, flows.last()),
            Err(e) => Err(e),
        }
    }
}

/// The derivation is a function: two derivations for the same tag and owner
/// give the same address and the same nonce, or both give nothing.
pub proof fn derivation_is_deterministic(
    tag: Seq<u8>,
    owner: Identity,
    first: Option<Derivation>,
    second: Option<Derivation>,
)
    requires
        derives(tag, owner, first),
        derives(tag, owner, second),
    ensures
        first is Some <==> second is Some,
        address_of(first) == address_of(second),
        first matches Some(a) ==> (second matches Some(b) ==> a.address == b.address
            && a.authority@ == b.authority@),
{
    if let Some(a) = first {
        if let Some(b) = second {
            a.address.same_bytes_same_identity(b.address);
            assert(a.authority@.namespace_tag =~= b.authority@.namespace_tag);
        }
    }
}

/// The capabilities of two owners differ, whatever their tags and nonces: the
/// seeds of one are never the seeds of the other.
pub proof fn owners_have_their_own_capabilities(a: Capability, b: Capability)
    requires
        a.owner != b.owner,
    ensures
        a.seeds() != b.seeds(),
{
    a.owner.same_bytes_same_identity(b.owner);
    assert(a.seeds()[1] == a.owner@);
    assert(b.seeds()[1] == b.owner@);
}

/// Nobody but its owner withdraws from a vault: a withdrawal from the escrow
/// of `owner`'s vault that another caller requests is rejected as
/// unauthorized, whatever the amount and the other accounts, wherever the two
/// do not derive one and the same address.
pub proof fn withdrawal_by_another_is_unauthorized(
    accounts: WithdrawTokens,
    owner: Identity,
    amount: u64,
)
    requires
        accounts.signer.key != owner,
        vault_address(owner) == Some(accounts.vault_ata.authority@),
        vault_address(accounts.signer.key) != vault_address(owner),
    ensures
        accounts.outcome(vault_address(accounts.signer.key), amount) == Err::<
            WithdrawTokens,
            VaultError,
        >(VaultError::AuthorizationFailure),
{
}

/// Nobody deposits into the vault of another: a deposit into the escrow of
/// `owner`'s vault that another caller requests is rejected as unauthorized,
/// whatever the amount and the other accounts, wherever the two do not derive
/// one and the same address.
pub proof fn deposit_by_another_is_unauthorized(
    accounts: DepositTokens,
    owner: Identity,
    amount: u64,
)
    requires
        accounts.signer.key != owner,
        vault_address(owner) == Some(accounts.vault_ata.authority@),
        vault_address(accounts.signer.key) != vault_address(owner),
    ensures
        accounts.outcome(vault_address(accounts.signer.key), amount) == Err::<
            DepositTokens,
            VaultError,
        >(VaultError::AuthorizationFailure),
{
}

/// Tokens are conserved: after any flows that all succeed, the escrow holds
/// what it held plus the deposits less the withdrawals, the caller's account
/// holds what it held less the same, and nothing else has changed.
pub proof fn flows_are_conserved(accounts: DepositTokens, flows: Seq<Flow>)
    requires
        run(accounts, flows) is Ok,
    ensures
        run(accounts, flows) matches Ok(end) && {
            &&& end.vault_ata.balance == accounts.vault_ata.balance + net(flows)
            &&& end.signer_ata.balance == accounts.signer_ata.balance - net(flows)
            &&& end.vault_ata.authority == accounts.vault_ata.authority
            &&& end.vault_ata.mint == accounts.vault_ata.mint
            &&& end.signer_ata.authority == accounts.signer_ata.authority
            &&& end.signer_ata.mint == accounts.signer_ata.mint
            &&& end.signer == accounts.signer
            &&& end.mint == accounts.mint
            &&& end.vault_address == accounts.vault_address
            &&& end.vault == accounts.vault
        },
    decreases flows.len(),
{
    if flows.len() > 0 {
        flows_are_conserved(accounts, flows.drop_last());
    }
}

/// A vault is initialized once: where a request to initialize succeeds, the
/// same request on the accounts it left is rejected as a conflict.
pub proof fn second_initialization_conflicts(accounts: InitializeVault)
    requires
        accounts.outcome(vault_address(accounts.signer.key)) is Ok,
    ensures
        accounts.outcome(vault_address(accounts.signer.key)) matches Ok(active)
            && active.outcome(vault_address(active.signer.key)) == Err::<
            InitializeVault,
            VaultError,
        >(VaultError::StateConflict),
{
}

/// A deposit can be taken back: where a deposit succeeds, the withdrawal of
/// the same amount succeeds too and leaves both balances as they were before
/// the deposit.
pub proof fn deposit_then_withdrawal_restores(accounts: DepositTokens, amount: u64)
    requires
        accounts.outcome(vault_address(accounts.signer.key), amount) is Ok,
    ensures
        accounts.outcome(vault_address(accounts.signer.key), amount) matches Ok(held)
            && for_withdrawal(held).outcome(vault_address(held.signer.key), amount) == Ok::<
            WithdrawTokens,
            VaultError,
        >(for_withdrawal(accounts)),
{
}

} // verus!
