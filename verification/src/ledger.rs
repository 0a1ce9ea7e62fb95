//! The token ledger as the vault sees it: holding accounts, and the transfer
//! that debits one and credits another or changes nothing.

use crate::accounts::Signer;
use crate::authority::DerivedAuthority;
use crate::error::VaultError;
use crate::identity::Identity;
use vstd::prelude::*;

verus! {

/// A token-holding account: who may move its tokens out, of which asset type
/// they are, and how many it holds.
#[derive(Clone, Copy, Debug, PartialEq, Eq)]
pub struct TokenAccount {
    pub authority: Identity,
    pub mint: Identity,
    pub balance: u64,
}

impl TokenAccount {
    /// The account with `amount` taken out.
    pub open spec fn debited(self, amount: u64) -> TokenAccount {
        TokenAccount { balance: (self.balance - amount) as u64, ..self }
    }

    /// The account with `amount` put in.
    pub open spec fn credited(self, amount: u64) -> TokenAccount {
        TokenAccount { balance: (self.balance + amount) as u64, ..self }
    }
}

/// Proof that an identity stands behind a request: made from a signature that
/// the environment verified, or from a capability that re-derives the identity.
#[derive(Clone, Copy, Debug)]
pub struct Authorization {
    signatory: Identity,
}

impl Authorization {
    /// The identity that stands behind the request.
    pub closed spec fn signatory(self) -> Identity {
        self.signatory
    }

    /// The authorization of a caller by its own signature: there is one if and
    /// only if the signature is present.
    pub fn by_signature(signer: &Signer) -> (authorization: Option<Authorization>)
        ensures
            authorization is Some <==> signer.is_signer,
            authorization matches Some(a) ==> a.signatory() == signer.key,
    {
        if signer.is_signer {
            Some(Authorization { signatory: signer.key })
        } else {
            None
        }
    }

    /// The authorization of a derived address by its capability: the address
    /// is re-derived from the tag, the owner and the nonce, and there is no
    /// authorization where they derive none.
    pub fn by_capability(authority: &DerivedAuthority) -> (authorization: Option<Authorization>)
        ensures
            authorization matches Some(a) ==> authority@.stands_for() == Some(a.signatory()@),
            authorization is None ==> authority@.stands_for() is None,
    {
        match authority.address() {
            Some(address) => Some(Authorization { signatory: address }),
            None => None,
        }
    }
}

/// Why the ledger rejects a transfer of `amount` from `from` to `to` that
/// `signatory` stands behind, if it does. The checks come in this order: the
/// source's authority, the asset types, the source's balance, the room left in
/// the destination.
pub open spec fn transfer_rejection(
    from: TokenAccount,
    to: TokenAccount,
    signatory: Identity,
    amount: u64,
) -> Option<VaultError> {
    if from.authority != signatory {
        Some(VaultError::AuthorizationFailure)
    } else if from.mint != to.mint {
        Some(VaultError::MalformedInput)
    } else if from.balance < amount {
        Some(VaultError::InsufficientFunds)
    } else if to.balance + amount > u64::MAX {
        Some(VaultError::MalformedInput)
    } else {
        None
    }
}

/// Moves `amount` from `from` to `to`: both balances change, or neither does.
/// A transfer of nothing between accounts that pass the checks succeeds and
/// changes nothing.
pub fn transfer(
    from: &mut TokenAccount,
    to: &mut TokenAccount,
    authorization: &Authorization,
    amount: u64,
) -> (r: Result<(), VaultError>)
    ensures
        match transfer_rejection(*old(from), *old(to), authorization.signatory(), amount) {
            Some(e) => r == Err::<(), VaultError>(e) && *final(from) == *old(from) && *final(to)
                == *old(to),
            None => r is Ok && *final(from) == old(from).debited(amount) && *final(to) == old(
                to,
            ).credited(amount),
        },
{
    if from.authority != authorization.signatory {
        return Err(VaultError::AuthorizationFailure);
    }
    if from.mint != to.mint {
        return Err(VaultError::MalformedInput);
    }
    if from.balance < amount {
        return Err(VaultError::InsufficientFunds);
    }
    if amount > u64::MAX - to.balance {
        return Err(VaultError::MalformedInput);
    }
    from.balance = from.balance - amount;
    to.balance = to.balance + amount;
    Ok(())
}

} // verus!
