//! An escrow for swapping SOL and SPL tokens between two parties.
//!
//! The first party opens a trade by depositing SOL, SPL tokens or both; the
//! deposit is held by the program (lamports on the trade account, tokens in an
//! escrow token account owned by the program's escrow authority).  Cancelling a
//! trade gives every deposit back to the party that made it.
//!
//! The library decides, for the checks that it models (the program's own
//! errors, the first party's signature and the parties that a trade records),
//! which requests are refused and with which error; and it decides what is
//! moved where and what the trade account records.  The caller performs the
//! token-program and system-program calls that a decision lists, and keeps the
//! account checks of the framework that the library does not model (account
//! creation, derived-address seeds, token mints and owners, writability).
pub mod state;
pub mod address;
pub mod cpi;
pub mod instructions;
pub mod laws;

pub use instructions::cancel_trade::{cancel_trade, cancel_trade_handler, CancelTrade};
pub use instructions::create_trade::{create_trade, create_trade_handler, CreateTrade};
pub use state::{Trade, TradeType};

use vstd::prelude::*;

verus! {

/// The errors that the escrow program reports.
#[derive(Clone, Copy, Debug, PartialEq, Eq, Structural)]
pub enum Errors {
    /// Trade amount can't be zero
    TokenAmountZero,
    /// The inactive token must be zero
    AmountNotZero,
    /// Insufficient balance
    InsufficientBalance,
    /// SPL Token Account is not provided
    AccountNotProvided,
    /// the Escrow Account is not required in this trade
    AccountNotRequired,
    /// The signer is not a party to the trade
    NotTradeParty,
    /// The trade is already accepted by the party two
    TradeAlreadyAccepted,
    /// The trade is not yet accepted by the party two
    TradeNotAccepted,
    /// The mint account doesn't exist in the trade
    MintNotExist,
    /// The account details doesn't match with the trade
    IncorrectTokenAccount,
    /// The provided account is not initialized
    AccountNotInitialized,
    /// The signer is not the owner of the token account
    InvalidOwner,
}

/// Why an instruction is refused before it changes anything.
#[derive(Clone, Copy, Debug, PartialEq, Eq, Structural)]
pub enum Refusal {
    /// An error of the escrow program itself.
    Program(Errors),
    /// The first party did not sign the instruction.
    AccountNotSigner,
    /// A party account is not the party that the trade records.
    ConstraintHasOne,
}

} // verus!
