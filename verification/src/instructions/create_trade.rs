//! Opening a trade: the first party deposits SOL, SPL tokens or both.
use vstd::prelude::*;
use crate::{Errors, Refusal};
use crate::address::{escrow_authority, escrow_seed, program_address, program_id_bytes};
use crate::cpi::{AuthorityChange, SystemTransfer, TokenTransfer};
use crate::state::{Key, Trade, TradeType};

verus! {

/// A token account as the instruction reads it: its address and its balance.
#[derive(Clone, Copy, Debug, PartialEq, Eq)]
pub struct TokenAccount {
    pub address: Key,
    pub amount: u64,
}

/// The accounts of the instruction that opens a trade, as the escrow reads
/// them.
#[derive(Clone, Copy, Debug, PartialEq, Eq)]
pub struct CreateTrade {
    /// The trade account being opened; the SOL deposit goes here.
    pub trade_details: Key,
    /// The escrow token account of the first party, when one is given.
    pub escrow_party_one: Option<Key>,
    /// The first party's token account that the SPL deposit comes from, when
    /// one is given.
    pub one_send_address: Option<TokenAccount>,
    /// The first party, who signs and pays.
    pub party_one: Key,
    /// Whether the first party signed the instruction.
    pub party_one_is_signer: bool,
    /// The lamports of the first party when the accounts are checked.
    pub party_one_lamports: u64,
    /// The mint of the deposited token, when one is given.
    pub mint: Option<Key>,
    /// The second party of the trade.
    pub party_two: Key,
}

/// The SPL part of a deposit: the transfer into the escrow token account, and
/// the change of that account's owner to the escrow authority.
#[derive(Clone, Copy, Debug, PartialEq, Eq)]
pub struct SplDeposit {
    pub transfer: TokenTransfer,
    pub amount: u64,
    pub set_authority: AuthorityChange,
    /// The new account owner of the escrow token account.
    pub new_owner: Key,
}

/// The SOL part of a deposit: a system transfer into the trade account.
#[derive(Clone, Copy, Debug, PartialEq, Eq)]
pub struct SolDeposit {
    pub transfer: SystemTransfer,
    pub amount: u64,
}

/// What opening a trade does: the SPL deposit (made first), the SOL deposit,
/// and the data written to the trade account.
#[derive(Clone, Copy, Debug, PartialEq, Eq)]
pub struct CreatePlan {
    pub spl_deposit: Option<SplDeposit>,
    pub sol_deposit: Option<SolDeposit>,
    pub trade: Trade,
}

/// The key of the escrow authority, by its bytes.
pub open spec fn escrow_authority_bytes() -> Seq<u8> {
    program_address(escrow_seed(), program_id_bytes())->Some_0.0
}

/// Whether the escrow authority can be derived.
pub open spec fn escrow_authority_exists() -> bool {
    program_address(escrow_seed(), program_id_bytes()) is Some
}

impl CreateTrade {
    /// The address of the token account the SPL deposit comes from, if any.
    pub open spec fn send_address(self) -> Option<Key> {
        match self.one_send_address {
            Some(acc) => Some(acc.address),
            None => None,
        }
    }

    /// The program's own checks on the accounts: the sending token account
    /// holds the SPL amount and the first party holds the SOL amount.
    pub open spec fn balances_suffice(self, sol_amount: u64, spl_amount: u64) -> bool {
        &&& (self.one_send_address matches Some(acc) ==> acc.amount >= spl_amount)
        &&& self.party_one_lamports >= sol_amount
    }

    /// An SPL deposit of a positive amount from a given account reaches an
    /// escrow account that is missing.
    pub open spec fn spl_escrow_missing(self, spl_amount: u64) -> bool {
        spl_amount > 0 && self.one_send_address is Some && self.escrow_party_one is None
    }

    /// The SPL deposit is reached with everything it needs but the escrow
    /// authority.
    pub open spec fn spl_deposit_reached(self, spl_amount: u64) -> bool {
        spl_amount > 0 && self.one_send_address is Some
    }

    /// The inputs on which opening a trade stops with a panic: the escrow
    /// token account is missing where the SPL deposit needs it.
    pub open spec fn create_panics(self, sol_amount: u64, spl_amount: u64, trade_type: TradeType) -> bool {
        match trade_type {
            TradeType::Sol => false,
            TradeType::Spl => sol_amount == 0 && self.spl_escrow_missing(spl_amount),
            TradeType::Both => sol_amount > 0 && self.spl_escrow_missing(spl_amount),
        }
    }

    /// The inputs on which opening a trade derives the escrow authority.
    pub open spec fn needs_escrow_authority(self, sol_amount: u64, spl_amount: u64, trade_type: TradeType) -> bool {
        match trade_type {
            TradeType::Sol => false,
            TradeType::Spl => sol_amount == 0 && self.spl_deposit_reached(spl_amount),
            TradeType::Both => sol_amount > 0 && self.spl_deposit_reached(spl_amount),
        }
    }

    /// The error with which the handler refuses to open a trade, if any.
    pub open spec fn create_error(self, sol_amount: u64, spl_amount: u64, trade_type: TradeType) -> Option<Errors> {
        match trade_type {
            TradeType::Sol => if sol_amount == 0 {
                Some(Errors::TokenAmountZero)
            } else if spl_amount != 0 {
                Some(Errors::AmountNotZero)
            } else if self.escrow_party_one is Some {
                Some(Errors::AccountNotRequired)
            } else {
                None
            },
            TradeType::Spl => if sol_amount != 0 {
                Some(Errors::AmountNotZero)
            } else {
                self.spl_error(spl_amount)
            },
            TradeType::Both => if sol_amount == 0 {
                Some(Errors::TokenAmountZero)
            } else {
                self.spl_error(spl_amount)
            },
        }
    }

    /// The error with which the SPL deposit is refused, if any.
    pub open spec fn spl_error(self, spl_amount: u64) -> Option<Errors> {
        if spl_amount == 0 {
            Some(Errors::TokenAmountZero)
        } else if self.one_send_address is None {
            Some(Errors::AccountNotProvided)
        } else {
            None
        }
    }

    /// `d` is the SPL deposit of `spl_amount` from the given sending account
    /// into the escrow token account.
    pub open spec fn is_spl_deposit(self, spl_amount: u64, d: SplDeposit) -> bool {
        &&& d.transfer == (TokenTransfer {
            from: self.one_send_address->Some_0.address,
            to: self.escrow_party_one->Some_0,
            authority: self.party_one,
        })
        &&& d.amount == spl_amount
        &&& d.set_authority == (AuthorityChange {
            account_or_mint: self.escrow_party_one->Some_0,
            current_authority: self.party_one,
        })
        &&& d.new_owner@ == escrow_authority_bytes()
    }

    /// The mint that a new trade records: the given mint, when tokens are
    /// deposited.
    pub open spec fn recorded_mint(self, spl_amount: u64) -> Option<Key> {
        if spl_amount > 0 {
            self.mint
        } else {
            None
        }
    }

    /// `p` is what opening a trade of this type with these amounts does,
    /// once the handler accepts it.
    pub open spec fn is_create_plan(self, sol_amount: u64, spl_amount: u64, trade_type: TradeType, p: CreatePlan) -> bool {
        &&& (match trade_type {
            TradeType::Sol => p.spl_deposit is None,
            _ => p.spl_deposit matches Some(d) && self.is_spl_deposit(spl_amount, d),
        })
        &&& (match trade_type {
            TradeType::Spl => p.sol_deposit is None,
            _ => p.sol_deposit == Some(SolDeposit {
                transfer: SystemTransfer { from: self.party_one, to: self.trade_details },
                amount: sol_amount,
            }),
        })
        &&& Trade::opened(
            self.party_one,
            self.party_two,
            sol_amount,
            spl_amount,
            self.send_address(),
            self.recorded_mint(spl_amount),
            p.trade,
        )
    }

    /// The handler's answer: its error when it refuses, else a plan.
    pub open spec fn create_outcome(self, sol_amount: u64, spl_amount: u64, trade_type: TradeType, r: Result<CreatePlan, Errors>) -> bool {
        match self.create_error(sol_amount, spl_amount, trade_type) {
            Some(e) => r == Err::<CreatePlan, Errors>(e),
            None => r matches Ok(p) && self.is_create_plan(sol_amount, spl_amount, trade_type, p),
        }
    }

    /// The token transfer from the sending account into the escrow account,
    /// signed by the first party.
    pub fn transfer_spl_context(&self, one_send_address: &TokenAccount, escrow: &Key) -> (t: TokenTransfer)
        ensures
            t == (TokenTransfer { from: one_send_address.address, to: *escrow, authority: self.party_one }),
    {
        TokenTransfer { from: one_send_address.address, to: *escrow, authority: self.party_one }
    }

    /// The system transfer from the first party into the trade account.
    pub fn transfer_sol_context(&self) -> (t: SystemTransfer)
        ensures
            t == (SystemTransfer { from: self.party_one, to: self.trade_details }),
    {
        SystemTransfer { from: self.party_one, to: self.trade_details }
    }

    /// The owner change of the escrow account, signed by the first party.
    pub fn set_authority_context(&self, escrow: &Key) -> (a: AuthorityChange)
        ensures
            a == (AuthorityChange { account_or_mint: *escrow, current_authority: self.party_one }),
    {
        AuthorityChange { account_or_mint: *escrow, current_authority: self.party_one }
    }

    /// The SPL deposit of `spl_amount`: refused with `TokenAmountZero` for a
    /// zero amount and with `AccountNotProvided` without a sending account.
    pub fn transfer_spl(&self, spl_amount: u64) -> (r: Result<SplDeposit, Errors>)
        requires
            !self.spl_escrow_missing(spl_amount),
            self.spl_deposit_reached(spl_amount) ==> escrow_authority_exists(),
        ensures
            match self.spl_error(spl_amount) {
                Some(e) => r == Err::<SplDeposit, Errors>(e),
                None => r matches Ok(d) && self.is_spl_deposit(spl_amount, d),
            },
    {
        if spl_amount == 0 {
            return Err(Errors::TokenAmountZero);
        }
        match &self.one_send_address {
            Some(token_account) => {
                let escrow = match &self.escrow_party_one {
                    Some(e) => *e,
                    None => {
                        proof {
                            assert(false);
                        }
                        return Err(Errors::AccountNotProvided);
                    },
                };
                let transfer = self.transfer_spl_context(token_account, &escrow);
                let new_owner = match escrow_authority() {
                    Some((key, _bump)) => key,
                    None => {
                        proof {
                            assert(false);
                        }
                        return Err(Errors::AccountNotProvided);
                    },
                };
                let set_authority = self.set_authority_context(&escrow);
                Ok(SplDeposit { transfer, amount: spl_amount, set_authority, new_owner })
            },
            None => Err(Errors::AccountNotProvided),
        }
    }

    /// The program's own checks on the accounts, made before the handler runs:
    /// `InsufficientBalance` when the sending token account holds less than
    /// the SPL amount or the first party less than the SOL amount.
    pub fn check_balances(&self, sol_amount: u64, spl_amount: u64) -> (r: Result<(), Errors>)
        ensures
            self.balances_suffice(sol_amount, spl_amount) ==> r is Ok,
            !self.balances_suffice(sol_amount, spl_amount) ==> r == Err::<(), Errors>(Errors::InsufficientBalance),
            r is Ok <==> ((self.one_send_address is Some ==> self.one_send_address->Some_0.amount >= spl_amount)
                && self.party_one_lamports >= sol_amount),
    {
        if let Some(acc) = &self.one_send_address {
            if acc.amount < spl_amount {
                return Err(Errors::InsufficientBalance);
            }
        }
        if self.party_one_lamports < sol_amount {
            return Err(Errors::InsufficientBalance);
        }
        Ok(())
    }
}

/// Opens a trade: checks the amounts against the trade type and decides the
/// deposits and the trade record.
///
/// A SOL trade needs a positive SOL amount, no SPL amount and no escrow
/// account; an SPL trade needs no SOL amount, a positive SPL amount and a
/// sending token account; a trade of both needs both amounts positive and a
/// sending token account.
pub fn create_trade_handler(ctx: &CreateTrade, sol_amount: u64, spl_amount: u64, trade_type: TradeType) -> (r: Result<CreatePlan, Errors>)
    requires
        !ctx.create_panics(sol_amount, spl_amount, trade_type),
        ctx.needs_escrow_authority(sol_amount, spl_amount, trade_type) ==> escrow_authority_exists(),
    ensures
        ctx.create_outcome(sol_amount, spl_amount, trade_type, r),
        r is Ok <==> match trade_type {
            TradeType::Sol => sol_amount > 0 && spl_amount == 0 && ctx.escrow_party_one is None,
            TradeType::Spl => sol_amount == 0 && spl_amount > 0 && ctx.one_send_address is Some,
            TradeType::Both => sol_amount > 0 && spl_amount > 0 && ctx.one_send_address is Some,
        },
        r matches Ok(p) ==> (p.sol_deposit is Some <==> trade_type != TradeType::Spl),
        r matches Ok(p) ==> (p.spl_deposit is Some <==> trade_type != TradeType::Sol),
        r matches Ok(p) ==> (p.sol_deposit matches Some(d) ==> d.amount == sol_amount && d.transfer == (SystemTransfer {
            from: ctx.party_one,
            to: ctx.trade_details,
        })),
        r matches Ok(p) ==> (p.spl_deposit matches Some(d) ==> d.amount == spl_amount && d.transfer == (TokenTransfer {
            from: ctx.one_send_address->Some_0.address,
            to: ctx.escrow_party_one->Some_0,
            authority: ctx.party_one,
        }) && d.set_authority == (AuthorityChange {
            account_or_mint: ctx.escrow_party_one->Some_0,
            current_authority: ctx.party_one,
        }) && d.new_owner@ == program_address(escrow_seed(), program_id_bytes())->Some_0.0),
        r matches Ok(p) ==> p.trade.party_one == ctx.party_one && p.trade.party_two == ctx.party_two
            && p.trade.sol_amount[0] == sol_amount && p.trade.sol_amount[1] == 0 && p.trade.spl_amount[0] == spl_amount
            && p.trade.spl_amount[1] == 0 && !p.trade.is_confirmed && p.trade.two_send_address is None
            && p.trade.two_receive_address is None && p.trade.two_mint is None
            && p.trade.one_send_address == (if ctx.one_send_address is Some {
                Some(ctx.one_send_address->Some_0.address)
            } else {
                None::<Key>
            }) && p.trade.one_mint == (if spl_amount > 0 {
                ctx.mint
            } else {
                None::<Key>
            }),
{
    let mut spl_deposit: Option<SplDeposit> = None;
    let mut sol_deposit: Option<SolDeposit> = None;
    match trade_type {
        TradeType::Sol => {
            if sol_amount == 0 {
                return Err(Errors::TokenAmountZero);
            }
            if spl_amount != 0 {
                return Err(Errors::AmountNotZero);
            }
            if ctx.escrow_party_one.is_some() {
                return Err(Errors::AccountNotRequired);
            }
            sol_deposit = Some(SolDeposit { transfer: ctx.transfer_sol_context(), amount: sol_amount });
        },
        TradeType::Spl => {
            if sol_amount != 0 {
                return Err(Errors::AmountNotZero);
            }
            let d = ctx.transfer_spl(spl_amount)?;
            spl_deposit = Some(d);
        },
        TradeType::Both => {
            if sol_amount == 0 {
                return Err(Errors::TokenAmountZero);
            }
            let d = ctx.transfer_spl(spl_amount)?;
            spl_deposit = Some(d);
            sol_deposit = Some(SolDeposit { transfer: ctx.transfer_sol_context(), amount: sol_amount });
        },
    }
    let one_send_address = match &ctx.one_send_address {
        Some(token_account) => Some(token_account.address),
        None => None,
    };
    let one_mint = match &ctx.mint {
        Some(mint) => if spl_amount > 0 {
            Some(*mint)
        } else {
            None
        },
        None => None,
    };
    let trade = Trade::new(ctx.party_one, ctx.party_two, sol_amount, spl_amount, one_send_address, one_mint);
    Ok(CreatePlan { spl_deposit, sol_deposit, trade })
}

/// The whole instruction that opens a trade: the first party's signature, the
/// balance checks, then the handler.  `None` where the program stops with a
/// panic: the escrow token account is missing where the SPL deposit needs it,
/// or no escrow authority can be derived.
pub fn create_trade(ctx: &CreateTrade, sol_amount: u64, spl_amount: u64, trade_type: TradeType) -> (r: Option<Result<CreatePlan, Refusal>>)
    ensures
        !ctx.party_one_is_signer ==> r == Some(Err::<CreatePlan, Refusal>(Refusal::AccountNotSigner)),
        ctx.party_one_is_signer && !ctx.balances_suffice(sol_amount, spl_amount) ==> r == Some(
            Err::<CreatePlan, Refusal>(Refusal::Program(Errors::InsufficientBalance)),
        ),
        ctx.party_one_is_signer && ctx.balances_suffice(sol_amount, spl_amount) ==> (r is None <==> (ctx.create_panics(
            sol_amount,
            spl_amount,
            trade_type,
        ) || (ctx.needs_escrow_authority(sol_amount, spl_amount, trade_type) && !escrow_authority_exists()))),
        ctx.party_one_is_signer && ctx.balances_suffice(sol_amount, spl_amount) ==> match r {
            Some(Ok(p)) => ctx.create_outcome(sol_amount, spl_amount, trade_type, Ok(p)),
            Some(Err(Refusal::Program(e))) => ctx.create_outcome(sol_amount, spl_amount, trade_type, Err(e)),
            Some(Err(_)) => false,
            None => true,
        },
{
    if !ctx.party_one_is_signer {
        return Some(Err(Refusal::AccountNotSigner));
    }
    if let Err(e) = ctx.check_balances(sol_amount, spl_amount) {
        return Some(Err(Refusal::Program(e)));
    }
    let panics = match trade_type {
        TradeType::Sol => false,
        TradeType::Spl => sol_amount == 0 && spl_amount > 0 && ctx.one_send_address.is_some() && ctx.escrow_party_one.is_none(),
        TradeType::Both => sol_amount > 0 && spl_amount > 0 && ctx.one_send_address.is_some() && ctx.escrow_party_one.is_none(),
    };
    if panics {
        return None;
    }
    let needs_authority = match trade_type {
        TradeType::Sol => false,
        TradeType::Spl => sol_amount == 0 && spl_amount > 0 && ctx.one_send_address.is_some(),
        TradeType::Both => sol_amount > 0 && spl_amount > 0 && ctx.one_send_address.is_some(),
    };
    if needs_authority && escrow_authority().is_none() {
        return None;
    }
    match create_trade_handler(ctx, sol_amount, spl_amount, trade_type) {
        Ok(p) => Some(Ok(p)),
        Err(e) => Some(Err(Refusal::Program(e))),
    }
}

} // verus!
