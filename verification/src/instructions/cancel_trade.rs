//! Cancelling a trade: every deposit goes back to the party that made it.
use vstd::prelude::*;
use crate::{Errors, Refusal};
use crate::address::{escrow_authority, escrow_seed, keys_equal, program_address, program_id_bytes};
use crate::cpi::{AccountClosure, TokenTransfer};
use crate::instructions::create_trade::escrow_authority_exists;
use crate::state::{Key, Trade};

verus! {

/// The accounts of the instruction that cancels a trade, as the escrow reads
/// them.
#[derive(Clone, Copy, Debug, PartialEq, Eq)]
pub struct CancelTrade {
    /// The data of the trade account.
    pub trade_details: Trade,
    /// The escrow token account of the first party, when one is given.
    pub escrow_party_one: Option<Key>,
    /// The escrow token account of the second party, when one is given.
    pub escrow_party_two: Option<Key>,
    /// The token account that takes back the first party's tokens, when one is given.
    pub one_send_address: Option<Key>,
    /// The token account that takes back the second party's tokens, when one is given.
    pub two_send_address: Option<Key>,
    /// The first party, who signs.
    pub party_one: Key,
    /// Whether the first party signed the instruction.
    pub party_one_is_signer: bool,
    /// The second party.
    pub party_two: Key,
    /// The mint of the first party's token, when one is given.
    pub one_mint: Option<Key>,
    /// The mint of the second party's token, when one is given.
    pub two_mint: Option<Key>,
    /// The escrow authority account, which owns the escrow token accounts.
    pub escrow_authority: Key,
    /// The lamports of the trade account.
    pub trade_lamports: u64,
    /// The lamports of the first party.
    pub party_one_lamports: u64,
    /// The lamports of the second party (the same account as the first party's
    /// when both parties are one key).
    pub party_two_lamports: u64,
}

/// The release of one party's tokens from its escrow account: the transfer back
/// to the party's token account, then the closing of the escrow account in
/// favour of the party; both signed by the escrow authority with `signer_bump`.
#[derive(Clone, Copy, Debug, PartialEq, Eq)]
pub struct SplRelease {
    pub transfer: TokenTransfer,
    pub amount: u64,
    pub close: AccountClosure,
    pub signer_bump: u8,
}

/// What cancelling a trade does, in this order: the token release of the first
/// party, that of the second party, then the SOL refund of the first party and
/// that of the second party, each moved out of the trade account.
#[derive(Clone, Copy, Debug, PartialEq, Eq)]
pub struct CancelPlan {
    pub party_one_spl: Option<SplRelease>,
    pub party_two_spl: Option<SplRelease>,
    pub party_one_sol: Option<u64>,
    pub party_two_sol: Option<u64>,
}

/// The bump seed of the escrow authority.
pub open spec fn escrow_bump() -> u8 {
    program_address(escrow_seed(), program_id_bytes())->Some_0.1
}

/// One address check of the accounts: a given account must be the one that
/// the trade records; `None` where the check stops with a panic, because an
/// account is given that the trade does not record.
pub open spec fn address_check(given: Option<Key>, recorded: Option<Key>, error: Errors) -> Option<Result<(), Refusal>> {
    match given {
        None => Some(Ok(())),
        Some(k) => match recorded {
            None => None,
            Some(r) => if k == r {
                Some(Ok(()))
            } else {
                Some(Err(Refusal::Program(error)))
            },
        },
    }
}

/// `Some(x)` for a positive amount, else `None`.
pub open spec fn positive(amount: u64) -> Option<u64> {
    if amount > 0 {
        Some(amount)
    } else {
        None
    }
}

/// The lamports a refund moves: nothing for `None`.
pub open spec fn refund_amount(refund: Option<u64>) -> int {
    match refund {
        Some(a) => a as int,
        None => 0,
    }
}

impl CancelTrade {
    /// The checks on the accounts, in the order in which they run: the first
    /// party's signature, the two token accounts that take tokens back, the
    /// two parties that the trade records, then the two mints.  The first
    /// that fails decides; `None` where a check stops with a panic.
    pub open spec fn accounts_outcome(self) -> Option<Result<(), Refusal>> {
        let t = self.trade_details;
        let a = address_check(self.one_send_address, t.one_send_address, Errors::IncorrectTokenAccount);
        let b = address_check(self.two_send_address, t.two_send_address, Errors::IncorrectTokenAccount);
        let c = address_check(self.one_mint, t.one_mint, Errors::MintNotExist);
        let d = address_check(self.two_mint, t.two_mint, Errors::MintNotExist);
        if !self.party_one_is_signer {
            Some(Err(Refusal::AccountNotSigner))
        } else if a != Some(Ok::<(), Refusal>(())) {
            a
        } else if b != Some(Ok::<(), Refusal>(())) {
            b
        } else if !self.parties_recorded() {
            Some(Err(Refusal::ConstraintHasOne))
        } else if c != Some(Ok::<(), Refusal>(())) {
            c
        } else {
            d
        }
    }

    /// The given parties are the ones that the trade records.
    pub open spec fn parties_recorded(self) -> bool {
        self.party_one == self.trade_details.party_one && self.party_two == self.trade_details.party_two
    }

    /// Both parties are one account.
    pub open spec fn parties_alias(self) -> bool {
        self.party_one == self.party_two
    }

    /// The lamports read for the parties agree where both parties are one
    /// account.
    pub open spec fn lamports_consistent(self) -> bool {
        self.parties_alias() ==> self.party_one_lamports == self.party_two_lamports
    }

    /// The first party's tokens are released.
    pub open spec fn releases_one(self) -> bool {
        self.trade_details.spl_amount[0] > 0
    }

    /// The second party's tokens are released: only from a confirmed trade.
    pub open spec fn releases_two(self) -> bool {
        self.trade_details.is_confirmed && self.trade_details.spl_amount[1] > 0
    }

    /// The accounts that the release of `party`'s tokens uses are given.
    pub open spec fn release_accounts_given(self, party: u8) -> bool {
        if party == 0 {
            self.escrow_party_one is Some && self.one_send_address is Some
        } else {
            self.escrow_party_two is Some && self.two_send_address is Some
        }
    }

    /// The inputs on which cancelling stops with a panic: a token release
    /// lacks its escrow account or the party's token account.
    pub open spec fn cancel_panics(self) -> bool {
        ||| self.releases_one() && !self.release_accounts_given(0)
        ||| self.releases_two() && !self.release_accounts_given(1)
    }

    /// The release of `amount` tokens of `party` (0 for the first party, any
    /// other value for the second).
    pub open spec fn release(self, party: u8, amount: u64) -> SplRelease {
        if party == 0 {
            SplRelease {
                transfer: TokenTransfer {
                    from: self.escrow_party_one->Some_0,
                    to: self.one_send_address->Some_0,
                    authority: self.escrow_authority,
                },
                amount,
                close: AccountClosure {
                    account: self.escrow_party_one->Some_0,
                    destination: self.party_one,
                    authority: self.escrow_authority,
                },
                signer_bump: escrow_bump(),
            }
        } else {
            SplRelease {
                transfer: TokenTransfer {
                    from: self.escrow_party_two->Some_0,
                    to: self.two_send_address->Some_0,
                    authority: self.escrow_authority,
                },
                amount,
                close: AccountClosure {
                    account: self.escrow_party_two->Some_0,
                    destination: self.party_two,
                    authority: self.escrow_authority,
                },
                signer_bump: escrow_bump(),
            }
        }
    }

    /// `p` gives back what the trade records: the first party's deposits
    /// always, the second party's only from a confirmed trade; zero amounts
    /// are not moved.
    pub open spec fn is_cancel_plan(self, p: CancelPlan) -> bool {
        let t = self.trade_details;
        &&& p.party_one_spl == (if self.releases_one() {
            Some(self.release(0, t.spl_amount[0]))
        } else {
            None::<SplRelease>
        })
        &&& p.party_two_spl == (if self.releases_two() {
            Some(self.release(1, t.spl_amount[1]))
        } else {
            None::<SplRelease>
        })
        &&& p.party_one_sol == positive(t.sol_amount[0])
        &&& p.party_two_sol == (if t.is_confirmed {
            positive(t.sol_amount[1])
        } else {
            None::<u64>
        })
    }

    /// The lamports that the first party's account gains from refunds of
    /// `one` to the first party and `two` to the second.
    pub open spec fn gain_one(self, one: int, two: int) -> int {
        if self.parties_alias() {
            one + two
        } else {
            one
        }
    }

    /// The lamports that the second party's account gains from refunds of
    /// `one` to the first party and `two` to the second.
    pub open spec fn gain_two(self, one: int, two: int) -> int {
        if self.parties_alias() {
            one + two
        } else {
            two
        }
    }

    /// The SOL refunds of `p` can be moved out of the trade account and into
    /// the parties' accounts without going below zero or past `u64::MAX`.
    pub open spec fn refunds_fit(self, p: CancelPlan) -> bool {
        let one = refund_amount(p.party_one_sol);
        let two = refund_amount(p.party_two_sol);
        &&& self.lamports_consistent()
        &&& one + two <= self.trade_lamports
        &&& self.party_one_lamports + self.gain_one(one, two) <= u64::MAX
        &&& self.party_two_lamports + self.gain_two(one, two) <= u64::MAX
    }

    /// These accounts with the lamports of the trade account and of the two
    /// parties replaced.
    pub open spec fn with_lamports(self, trade: int, one: int, two: int) -> CancelTrade {
        CancelTrade {
            trade_lamports: trade as u64,
            party_one_lamports: one as u64,
            party_two_lamports: two as u64,
            ..self
        }
    }

    /// The total of the lamports of the trade account and of the parties'
    /// accounts, each account counted once.
    pub open spec fn total_lamports(self) -> int {
        self.trade_lamports + self.party_one_lamports + if self.parties_alias() {
            0
        } else {
            self.party_two_lamports as int
        }
    }

    /// The trade account can be closed in favour of the first party.
    pub open spec fn close_fits(self) -> bool {
        &&& self.lamports_consistent()
        &&& self.party_one_lamports + self.trade_lamports <= u64::MAX
    }

    /// Releases `amount` tokens of `party` (0 for the first party, any other
    /// value for the second) from its escrow account back to its token
    /// account, and closes the escrow account in favour of the party.
    pub fn transfer_spl(&self, party: u8, amount: u64) -> (r: SplRelease)
        requires
            self.release_accounts_given(party),
            escrow_authority_exists(),
        ensures
            r == self.release(party, amount),
            r.amount == amount,
            r.signer_bump == program_address(escrow_seed(), program_id_bytes())->Some_0.1,
            party == 0 ==> r.transfer == (TokenTransfer {
                from: self.escrow_party_one->Some_0,
                to: self.one_send_address->Some_0,
                authority: self.escrow_authority,
            }) && r.close == (AccountClosure {
                account: self.escrow_party_one->Some_0,
                destination: self.party_one,
                authority: self.escrow_authority,
            }),
            party != 0 ==> r.transfer == (TokenTransfer {
                from: self.escrow_party_two->Some_0,
                to: self.two_send_address->Some_0,
                authority: self.escrow_authority,
            }) && r.close == (AccountClosure {
                account: self.escrow_party_two->Some_0,
                destination: self.party_two,
                authority: self.escrow_authority,
            }),
    {
        let bump: u8 = match escrow_authority() {
            Some((_key, bump)) => bump,
            None => {
                proof {
                    assert(false);
                }
                0
            },
        };
        if party == 0 {
            let escrow = self.escrow_party_one.unwrap();
            SplRelease {
                transfer: TokenTransfer {
                    from: escrow,
                    to: self.one_send_address.unwrap(),
                    authority: self.escrow_authority,
                },
                amount,
                close: AccountClosure {
                    account: escrow,
                    destination: self.party_one,
                    authority: self.escrow_authority,
                },
                signer_bump: bump,
            }
        } else {
            let escrow = self.escrow_party_two.unwrap();
            SplRelease {
                transfer: TokenTransfer {
                    from: escrow,
                    to: self.two_send_address.unwrap(),
                    authority: self.escrow_authority,
                },
                amount,
                close: AccountClosure {
                    account: escrow,
                    destination: self.party_two,
                    authority: self.escrow_authority,
                },
                signer_bump: bump,
            }
        }
    }

    /// Moves `amount` lamports out of the trade account into the account of
    /// `party` (0 for the first party, any other value for the second).
    pub fn transfer_sol(&mut self, party: u8, amount: u64)
        requires
            old(self).lamports_consistent(),
            old(self).trade_lamports >= amount,
            party == 0 ==> old(self).party_one_lamports + old(self).gain_one(amount as int, 0) <= u64::MAX
                && old(self).party_two_lamports + old(self).gain_two(amount as int, 0) <= u64::MAX,
            party != 0 ==> old(self).party_one_lamports + old(self).gain_one(0, amount as int) <= u64::MAX
                && old(self).party_two_lamports + old(self).gain_two(0, amount as int) <= u64::MAX,
        ensures
            party == 0 ==> *final(self) == old(self).with_lamports(
                old(self).trade_lamports - amount,
                old(self).party_one_lamports + old(self).gain_one(amount as int, 0),
                old(self).party_two_lamports + old(self).gain_two(amount as int, 0),
            ),
            party != 0 ==> *final(self) == old(self).with_lamports(
                old(self).trade_lamports - amount,
                old(self).party_one_lamports + old(self).gain_one(0, amount as int),
                old(self).party_two_lamports + old(self).gain_two(0, amount as int),
            ),
            final(self).total_lamports() == old(self).total_lamports(),
            final(self).lamports_consistent(),
            final(self).trade_lamports == old(self).trade_lamports - amount,
            old(self).party_one != old(self).party_two && party == 0 ==> final(self).party_one_lamports
                == old(self).party_one_lamports + amount && final(self).party_two_lamports == old(self).party_two_lamports,
            old(self).party_one != old(self).party_two && party != 0 ==> final(self).party_one_lamports
                == old(self).party_one_lamports && final(self).party_two_lamports == old(self).party_two_lamports + amount,
            old(self).party_one == old(self).party_two ==> final(self).party_one_lamports == old(self).party_one_lamports
                + amount && final(self).party_two_lamports == old(self).party_two_lamports + amount,
    {
        let alias = keys_equal(&self.party_one, &self.party_two);
        self.trade_lamports = self.trade_lamports - amount;
        if party == 0 || alias {
            self.party_one_lamports = self.party_one_lamports + amount;
        }
        if party != 0 || alias {
            self.party_two_lamports = self.party_two_lamports + amount;
        }
    }

    /// Closes the trade account in favour of the first party: all its
    /// lamports go to the first party.
    pub fn close_trade_account(&mut self)
        requires
            old(self).close_fits(),
        ensures
            *final(self) == old(self).with_lamports(
                0,
                old(self).party_one_lamports + old(self).trade_lamports,
                old(self).party_two_lamports + if old(self).parties_alias() {
                    old(self).trade_lamports as int
                } else {
                    0
                },
            ),
            final(self).total_lamports() == old(self).total_lamports(),
            final(self).lamports_consistent(),
            final(self).trade_lamports == 0,
            final(self).party_one_lamports == old(self).party_one_lamports + old(self).trade_lamports,
            old(self).party_one != old(self).party_two ==> final(self).party_two_lamports == old(self).party_two_lamports,
            final(self).trade_details == old(self).trade_details,
    {
        let alias = keys_equal(&self.party_one, &self.party_two);
        let amount = self.trade_lamports;
        self.trade_lamports = 0;
        self.party_one_lamports = self.party_one_lamports + amount;
        if alias {
            self.party_two_lamports = self.party_two_lamports + amount;
        }
    }

    /// Whether the trade account can be closed in favour of the first party.
    pub fn can_close_trade_account(&self) -> (r: bool)
        ensures
            r <==> self.close_fits(),
    {
        let alias = keys_equal(&self.party_one, &self.party_two);
        if alias && self.party_one_lamports != self.party_two_lamports {
            return false;
        }
        self.trade_lamports <= u64::MAX - self.party_one_lamports
    }

    /// The checks on the accounts, made before the handler runs:
    /// `AccountNotSigner` without the first party's signature,
    /// `IncorrectTokenAccount` when a given token account is not the one the
    /// trade records, `ConstraintHasOne` when a given party is not the one the
    /// trade records, `MintNotExist` when a given mint is not the one the trade
    /// records; `None` where a given account is one that the trade does not
    /// record at all (the check panics).
    pub fn account_checks(&self) -> (r: Option<Result<(), Refusal>>)
        ensures
            r == self.accounts_outcome(),
    {
        if !self.party_one_is_signer {
            return Some(Err(Refusal::AccountNotSigner));
        }
        let t = &self.trade_details;
        let a = address_checkable(&self.one_send_address, &t.one_send_address, Errors::IncorrectTokenAccount);
        if !matches!(a, Some(Ok(()))) {
            return a;
        }
        let b = address_checkable(&self.two_send_address, &t.two_send_address, Errors::IncorrectTokenAccount);
        if !matches!(b, Some(Ok(()))) {
            return b;
        }
        if !keys_equal(&self.party_one, &t.party_one) || !keys_equal(&self.party_two, &t.party_two) {
            return Some(Err(Refusal::ConstraintHasOne));
        }
        let c = address_checkable(&self.one_mint, &t.one_mint, Errors::MintNotExist);
        if !matches!(c, Some(Ok(()))) {
            return c;
        }
        address_checkable(&self.two_mint, &t.two_mint, Errors::MintNotExist)
    }

    /// Whether the SOL refunds of `plan` fit the lamports of the accounts.
    pub fn can_settle_refunds(&self, plan: &CancelPlan) -> (r: bool)
        ensures
            r <==> self.refunds_fit(*plan),
    {
        let alias = keys_equal(&self.party_one, &self.party_two);
        if alias && self.party_one_lamports != self.party_two_lamports {
            return false;
        }
        let one: u64 = match plan.party_one_sol {
            Some(a) => a,
            None => 0,
        };
        let two: u64 = match plan.party_two_sol {
            Some(a) => a,
            None => 0,
        };
        if one > self.trade_lamports {
            return false;
        }
        if two > self.trade_lamports - one {
            return false;
        }
        let (gain_one, gain_two): (u64, u64) = if alias {
            (one + two, one + two)
        } else {
            (one, two)
        };
        gain_one <= u64::MAX - self.party_one_lamports && gain_two <= u64::MAX - self.party_two_lamports
    }
}

/// One address check, with `None` where it would panic.
fn address_checkable(given: &Option<Key>, recorded: &Option<Key>, error: Errors) -> (r: Option<Result<(), Refusal>>)
    ensures
        r == address_check(*given, *recorded, error),
{
    match given {
        None => Some(Ok(())),
        Some(k) => match recorded {
            None => None,
            Some(r) => if keys_equal(k, r) {
                Some(Ok(()))
            } else {
                Some(Err(Refusal::Program(error)))
            },
        },
    }
}

/// Cancels a trade: decides the token releases and the SOL refunds that give
/// every recorded deposit back.  The first party's deposits always go back;
/// the second party's only when the trade is confirmed.
pub fn cancel_trade_handler(ctx: &CancelTrade) -> (p: CancelPlan)
    requires
        !ctx.cancel_panics(),
        (ctx.releases_one() || ctx.releases_two()) ==> escrow_authority_exists(),
    ensures
        ctx.is_cancel_plan(p),
        ctx.trade_details.spl_amount[0] > 0 ==> p.party_one_spl == Some(SplRelease {
            transfer: TokenTransfer {
                from: ctx.escrow_party_one->Some_0,
                to: ctx.one_send_address->Some_0,
                authority: ctx.escrow_authority,
            },
            amount: ctx.trade_details.spl_amount[0],
            close: AccountClosure {
                account: ctx.escrow_party_one->Some_0,
                destination: ctx.party_one,
                authority: ctx.escrow_authority,
            },
            signer_bump: program_address(escrow_seed(), program_id_bytes())->Some_0.1,
        }),
        ctx.trade_details.spl_amount[0] == 0 ==> p.party_one_spl is None,
        ctx.trade_details.is_confirmed && ctx.trade_details.spl_amount[1] > 0 ==> p.party_two_spl == Some(SplRelease {
            transfer: TokenTransfer {
                from: ctx.escrow_party_two->Some_0,
                to: ctx.two_send_address->Some_0,
                authority: ctx.escrow_authority,
            },
            amount: ctx.trade_details.spl_amount[1],
            close: AccountClosure {
                account: ctx.escrow_party_two->Some_0,
                destination: ctx.party_two,
                authority: ctx.escrow_authority,
            },
            signer_bump: program_address(escrow_seed(), program_id_bytes())->Some_0.1,
        }),
        !ctx.trade_details.is_confirmed || ctx.trade_details.spl_amount[1] == 0 ==> p.party_two_spl is None,
        ctx.trade_details.sol_amount[0] > 0 ==> p.party_one_sol == Some(ctx.trade_details.sol_amount[0]),
        ctx.trade_details.sol_amount[0] == 0 ==> p.party_one_sol is None,
        ctx.trade_details.is_confirmed && ctx.trade_details.sol_amount[1] > 0 ==> p.party_two_sol == Some(
            ctx.trade_details.sol_amount[1],
        ),
        !ctx.trade_details.is_confirmed || ctx.trade_details.sol_amount[1] == 0 ==> p.party_two_sol is None,
{
    let t = &ctx.trade_details;
    let mut plan = CancelPlan { party_one_spl: None, party_two_spl: None, party_one_sol: None, party_two_sol: None };
    if t.is_confirmed {
        if t.spl_amount[0] > 0 {
            plan.party_one_spl = Some(ctx.transfer_spl(0, t.spl_amount[0]));
        }
        if t.spl_amount[1] > 0 {
            plan.party_two_spl = Some(ctx.transfer_spl(1, t.spl_amount[1]));
        }
        if t.sol_amount[0] > 0 {
            plan.party_one_sol = Some(t.sol_amount[0]);
        }
        if t.sol_amount[1] > 0 {
            plan.party_two_sol = Some(t.sol_amount[1]);
        }
    } else {
        if t.spl_amount[0] > 0 {
            plan.party_one_spl = Some(ctx.transfer_spl(0, t.spl_amount[0]));
        }
        if t.sol_amount[0] > 0 {
            plan.party_one_sol = Some(t.sol_amount[0]);
        }
    }
    plan
}

/// Moves the SOL refunds of `plan` out of the trade account: first the first
/// party's, then the second party's.
pub fn settle_sol_refunds(ctx: &mut CancelTrade, plan: &CancelPlan)
    requires
        old(ctx).refunds_fit(*plan),
    ensures
        *final(ctx) == old(ctx).with_lamports(
            old(ctx).trade_lamports - refund_amount(plan.party_one_sol) - refund_amount(plan.party_two_sol),
            old(ctx).party_one_lamports + old(ctx).gain_one(refund_amount(plan.party_one_sol), refund_amount(plan.party_two_sol)),
            old(ctx).party_two_lamports + old(ctx).gain_two(refund_amount(plan.party_one_sol), refund_amount(plan.party_two_sol)),
        ),
        final(ctx).total_lamports() == old(ctx).total_lamports(),
        final(ctx).lamports_consistent(),
        final(ctx).trade_lamports == old(ctx).trade_lamports - (if plan.party_one_sol is Some {
            plan.party_one_sol->Some_0 as int
        } else {
            0
        }) - (if plan.party_two_sol is Some {
            plan.party_two_sol->Some_0 as int
        } else {
            0
        }),
        old(ctx).party_one != old(ctx).party_two ==> final(ctx).party_one_lamports == old(ctx).party_one_lamports + (
        if plan.party_one_sol is Some {
            plan.party_one_sol->Some_0 as int
        } else {
            0
        }),
        old(ctx).party_one != old(ctx).party_two ==> final(ctx).party_two_lamports == old(ctx).party_two_lamports + (
        if plan.party_two_sol is Some {
            plan.party_two_sol->Some_0 as int
        } else {
            0
        }),
{
    if let Some(amount) = plan.party_one_sol {
        ctx.transfer_sol(0, amount);
    }
    if let Some(amount) = plan.party_two_sol {
        ctx.transfer_sol(1, amount);
    }
}

/// The whole instruction that cancels a trade, up to the token-program calls:
/// the account checks, then the handler.  `None` where the program stops with
/// a panic: a given account that the trade does not record, a token release
/// without its accounts, or no derivable escrow authority.  Once the checks
/// pass and nothing panics, the cancellation is accepted with the handler's
/// plan.
pub fn cancel_trade(ctx: &CancelTrade) -> (r: Option<Result<CancelPlan, Refusal>>)
    ensures
        ctx.accounts_outcome() is None ==> r is None,
        ctx.accounts_outcome() matches Some(Err(e)) ==> r == Some(Err::<CancelPlan, Refusal>(e)),
        ctx.accounts_outcome() == Some(Ok::<(), Refusal>(())) ==> (r is None <==> (ctx.cancel_panics() || ((ctx.releases_one()
            || ctx.releases_two()) && !escrow_authority_exists()))),
        ctx.accounts_outcome() == Some(Ok::<(), Refusal>(())) ==> (r is None || r matches Some(Ok(_))),
        ctx.accounts_outcome() == Some(Ok::<(), Refusal>(())) ==> (r is None <==> (
            (ctx.trade_details.spl_amount[0] > 0 && (ctx.escrow_party_one is None || ctx.one_send_address is None))
            || (ctx.trade_details.is_confirmed && ctx.trade_details.spl_amount[1] > 0 && (ctx.escrow_party_two is None
                || ctx.two_send_address is None))
            || ((ctx.trade_details.spl_amount[0] > 0 || (ctx.trade_details.is_confirmed && ctx.trade_details.spl_amount[1] > 0))
                && program_address(escrow_seed(), program_id_bytes()) is None))),
        r matches Some(Ok(p)) ==> ctx.is_cancel_plan(p),
{
    match ctx.account_checks() {
        None => return None,
        Some(Err(e)) => return Some(Err(e)),
        Some(Ok(())) => {},
    }
    let t = &ctx.trade_details;
    let releases_one = t.spl_amount[0] > 0;
    let releases_two = t.is_confirmed && t.spl_amount[1] > 0;
    if releases_one && (ctx.escrow_party_one.is_none() || ctx.one_send_address.is_none()) {
        return None;
    }
    if releases_two && (ctx.escrow_party_two.is_none() || ctx.two_send_address.is_none()) {
        return None;
    }
    if (releases_one || releases_two) && escrow_authority().is_none() {
        return None;
    }
    Some(Ok(cancel_trade_handler(ctx)))
}

} // verus!
