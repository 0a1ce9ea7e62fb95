//! A custodial token vault: each owner controls one escrow whose authority is an
//! address derived from the owner's identity, for which no private key exists.
//!
//! An owner deposits tokens into the escrow and may withdraw them later; nobody
//! else can move them out. Outbound transfers are authorized by re-deriving the
//! vault's address from the owner's identity, never by a key of the vault.

pub mod accounts;
pub mod address;
pub mod authority;
pub mod error;
pub mod handlers;
pub mod identity;
pub mod laws;
pub mod ledger;
