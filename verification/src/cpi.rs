//! The calls into the token program and the system program that a decision
//! of the escrow asks for, each by the accounts it names.
use vstd::prelude::*;
use crate::state::Key;

verus! {

/// The accounts of a token-program `transfer`: tokens go from `from` to `to`,
/// signed by `authority`.
#[derive(Clone, Copy, Debug, PartialEq, Eq)]
pub struct TokenTransfer {
    pub from: Key,
    pub to: Key,
    pub authority: Key,
}

/// The accounts of a system-program `transfer`: lamports go from `from` to `to`.
#[derive(Clone, Copy, Debug, PartialEq, Eq)]
pub struct SystemTransfer {
    pub from: Key,
    pub to: Key,
}

/// The accounts of a token-program `set_authority` that changes the account
/// owner of `account_or_mint`, signed by `current_authority`.
#[derive(Clone, Copy, Debug, PartialEq, Eq)]
pub struct AuthorityChange {
    pub account_or_mint: Key,
    pub current_authority: Key,
}

/// The accounts of a token-program `close_account`: `account` is closed and its
/// lamports go to `destination`, signed by `authority`.
#[derive(Clone, Copy, Debug, PartialEq, Eq)]
pub struct AccountClosure {
    pub account: Key,
    pub destination: Key,
    pub authority: Key,
}

} // verus!
