//! The errors a request can end in.

use vstd::prelude::*;

verus! {

/// Why a request was rejected. A rejected request changes nothing.
#[derive(Clone, Copy, Debug, PartialEq, Eq, Structural)]
pub enum VaultError {
    /// The caller's signature is missing, or the authority derived for the
    /// caller is not the authority of the account presented.
    AuthorizationFailure,
    /// The vault to initialize is already active.
    StateConflict,
    /// The transfer would drive a balance below zero.
    InsufficientFunds,
    /// The accounts are not of one asset type, an address is not the one
    /// derived for it, or a balance would leave the range of `u64`.
    MalformedInput,
}

} // verus!
