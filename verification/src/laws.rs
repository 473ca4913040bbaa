//! Properties of the escrow that span its instructions.
use vstd::prelude::*;
use crate::instructions::cancel_trade::{CancelPlan, CancelTrade};
use crate::instructions::create_trade::{CreatePlan, CreateTrade};
use crate::address::{escrow_seed, program_address, program_id_bytes};
use crate::instructions::create_trade::escrow_authority_exists;
use crate::cpi::{AccountClosure, AuthorityChange, SystemTransfer, TokenTransfer};
use crate::instructions::cancel_trade::SplRelease;
use crate::state::{Key, Trade, TradeType};
use crate::{Errors, Refusal};

verus! {

/// Cancelling a trade that was just opened gives the first party back exactly
/// what it deposited: the same SOL amount, the same SPL amount, the tokens to
/// the token account they came from (once the accounts pass their checks), and
/// nothing goes to the second party.  The escrow account is handed at the
/// deposit to the very authority whose bump seed signs its release.
pub proof fn lemma_cancel_returns_deposits(
    create: CreateTrade,
    sol_amount: u64,
    spl_amount: u64,
    trade_type: TradeType,
    opened: CreatePlan,
    cancel: CancelTrade,
    refund: CancelPlan,
)
    requires
        create.create_outcome(sol_amount, spl_amount, trade_type, Ok(opened)),
        cancel.trade_details == opened.trade,
        cancel.is_cancel_plan(refund),
    ensures
        refund.party_one_sol == (match opened.sol_deposit {
            Some(d) => Some(d.amount),
            None => None,
        }),
        refund.party_one_spl is Some <==> opened.spl_deposit is Some,
        refund.party_one_spl matches Some(r) ==> r.amount == opened.spl_deposit->Some_0.amount,
        refund.party_one_spl matches Some(r) ==> (cancel.accounts_outcome() == Some(Ok::<(), Refusal>(()))
            && cancel.one_send_address is Some ==> r.transfer.to == opened.spl_deposit->Some_0.transfer.from),
        refund.party_one_spl matches Some(r) ==> (escrow_authority_exists() ==> program_address(
            escrow_seed(),
            program_id_bytes(),
        ) == Some((opened.spl_deposit->Some_0.new_owner@, r.signer_bump))),
        refund.party_two_spl is None,
        refund.party_two_sol is None,
{
}

/// An unconfirmed trade is cancelled without paying the second party anything.
pub proof fn lemma_unconfirmed_pays_first_party_only(cancel: CancelTrade, refund: CancelPlan)
    requires
        !cancel.trade_details.is_confirmed,
        cancel.is_cancel_plan(refund),
    ensures
        refund.party_two_spl is None,
        refund.party_two_sol is None,
{
}

/// Every accepted opening of a trade deposits something: a positive SOL amount
/// or a positive SPL amount, and exactly the amounts that the trade records.
pub proof fn lemma_opening_deposits_what_it_records(
    create: CreateTrade,
    sol_amount: u64,
    spl_amount: u64,
    trade_type: TradeType,
    opened: CreatePlan,
)
    requires
        create.create_outcome(sol_amount, spl_amount, trade_type, Ok(opened)),
    ensures
        opened.sol_deposit is Some || opened.spl_deposit is Some,
        opened.sol_deposit matches Some(d) ==> d.amount > 0 && d.amount == opened.trade.sol_amount[0],
        opened.spl_deposit matches Some(d) ==> d.amount > 0 && d.amount == opened.trade.spl_amount[0],
        opened.sol_deposit is None ==> opened.trade.sol_amount[0] == 0,
        opened.spl_deposit is None ==> opened.trade.spl_amount[0] == 0,
{
}

/// Only the trade's own parties can cancel it, and only with the first
/// party's signature: every cancellation that passes the account checks names
/// the recorded parties and is signed.
pub proof fn lemma_only_the_parties_cancel(cancel: CancelTrade)
    requires
        cancel.accounts_outcome() == Some(Ok::<(), Refusal>(())),
    ensures
        cancel.party_one_is_signer,
        cancel.party_one == cancel.trade_details.party_one,
        cancel.party_two == cancel.trade_details.party_two,
{
}

/// Opening a trade has one outcome for given accounts, amounts and type:
/// the handler's answer is determined by its inputs.
pub proof fn lemma_create_outcome_is_unique(
    create: CreateTrade,
    sol_amount: u64,
    spl_amount: u64,
    trade_type: TradeType,
    r1: Result<CreatePlan, Errors>,
    r2: Result<CreatePlan, Errors>,
)
    requires
        create.create_outcome(sol_amount, spl_amount, trade_type, r1),
        create.create_outcome(sol_amount, spl_amount, trade_type, r2),
    ensures
        r1 == r2,
{
    if create.create_error(sol_amount, spl_amount, trade_type) is None {
        let p1 = r1->Ok_0;
        let p2 = r2->Ok_0;
        assert(p1.trade.sol_amount =~= p2.trade.sol_amount);
        assert(p1.trade.spl_amount =~= p2.trade.spl_amount);
        assert(p1.trade == p2.trade);
        if p1.spl_deposit is Some {
            assert(p1.spl_deposit->Some_0.new_owner =~= p2.spl_deposit->Some_0.new_owner);
        }
    }
}

/// Cancelling a trade has one plan for given accounts.
pub proof fn lemma_cancel_plan_is_unique(cancel: CancelTrade, p1: CancelPlan, p2: CancelPlan)
    requires
        cancel.is_cancel_plan(p1),
        cancel.is_cancel_plan(p2),
    ensures
        p1 == p2,
{
}

/// Every party number other than 0 selects the second party's token release.
pub proof fn lemma_nonzero_party_is_the_second(cancel: CancelTrade, p: u8, q: u8, amount: u64)
    requires
        p != 0,
        q != 0,
    ensures
        cancel.release(p, amount) == cancel.release(q, amount),
{
}

/// A trade account that holds no lamports pays no more SOL: once it is
/// closed, no cancellation of positive SOL amounts fits.
pub proof fn lemma_empty_trade_account_pays_no_sol(cancel: CancelTrade, refund: CancelPlan)
    requires
        cancel.trade_lamports == 0,
        cancel.is_cancel_plan(refund),
        cancel.refunds_fit(refund),
    ensures
        refund.party_one_sol is None,
        refund.party_two_sol is None,
{
}

/// Opening a trade is accepted exactly when the amounts fit the trade type: a
/// SOL trade moves a positive SOL amount, no tokens and uses no escrow
/// account; an SPL trade moves a positive token amount from a given token
/// account and no SOL; a trade of both moves positive amounts of both from a
/// given token account.
pub proof fn lemma_opening_is_accepted_when_amounts_fit_the_type(
    create: CreateTrade,
    sol_amount: u64,
    spl_amount: u64,
    trade_type: TradeType,
    r: Result<CreatePlan, Errors>,
)
    requires
        create.create_outcome(sol_amount, spl_amount, trade_type, r),
    ensures
        r is Ok <==> match trade_type {
            TradeType::Sol => sol_amount > 0 && spl_amount == 0 && create.escrow_party_one is None,
            TradeType::Spl => sol_amount == 0 && spl_amount > 0 && create.one_send_address is Some,
            TradeType::Both => sol_amount > 0 && spl_amount > 0 && create.one_send_address is Some,
        },
{
}

/// Every deposit of an accepted opening goes into the escrow: the SOL from the
/// first party into the trade account, the tokens from the given token
/// account into the first party's escrow token account, which is then handed
/// to the escrow authority; each of exactly the amount asked for.
pub proof fn lemma_deposits_go_into_the_escrow(
    create: CreateTrade,
    sol_amount: u64,
    spl_amount: u64,
    trade_type: TradeType,
    opened: CreatePlan,
)
    requires
        create.create_outcome(sol_amount, spl_amount, trade_type, Ok(opened)),
    ensures
        opened.sol_deposit is Some <==> trade_type != TradeType::Spl,
        opened.spl_deposit is Some <==> trade_type != TradeType::Sol,
        opened.sol_deposit matches Some(d) ==> d.amount == sol_amount && d.transfer == (SystemTransfer {
            from: create.party_one,
            to: create.trade_details,
        }),
        opened.spl_deposit matches Some(d) ==> d.amount == spl_amount && d.transfer == (TokenTransfer {
            from: create.one_send_address->Some_0.address,
            to: create.escrow_party_one->Some_0,
            authority: create.party_one,
        }) && d.set_authority == (AuthorityChange {
            account_or_mint: create.escrow_party_one->Some_0,
            current_authority: create.party_one,
        }) && d.new_owner@ == program_address(escrow_seed(), program_id_bytes())->Some_0.0,
        opened.trade.party_one == create.party_one,
        opened.trade.party_two == create.party_two,
        opened.trade.sol_amount[0] == sol_amount && opened.trade.sol_amount[1] == 0,
        opened.trade.spl_amount[0] == spl_amount && opened.trade.spl_amount[1] == 0,
        !opened.trade.is_confirmed,
{
}

/// The balance checks compare each asset with its own amount only: the given
/// token account with the SPL amount, the first party's lamports with the SOL
/// amount.
pub proof fn lemma_balances_compare_each_asset_with_its_amount(create: CreateTrade, sol_amount: u64, spl_amount: u64)
    ensures
        create.balances_suffice(sol_amount, spl_amount) <==> ((create.one_send_address is Some
            ==> create.one_send_address->Some_0.amount >= spl_amount) && create.party_one_lamports >= sol_amount),
{
}

/// Cancelling releases each party's escrowed tokens to that party: the first
/// party's recorded tokens whenever there are any, the second party's
/// whenever the trade is confirmed and there are any; each from the party's
/// own escrow account to the party's own token account, closing the escrow
/// account in favour of the party.  SOL goes back by the same rule.
pub proof fn lemma_cancel_releases_each_party_its_own_deposit(cancel: CancelTrade, refund: CancelPlan)
    requires
        cancel.is_cancel_plan(refund),
    ensures
        cancel.trade_details.spl_amount[0] > 0 ==> refund.party_one_spl == Some(SplRelease {
            transfer: TokenTransfer {
                from: cancel.escrow_party_one->Some_0,
                to: cancel.one_send_address->Some_0,
                authority: cancel.escrow_authority,
            },
            amount: cancel.trade_details.spl_amount[0],
            close: AccountClosure {
                account: cancel.escrow_party_one->Some_0,
                destination: cancel.party_one,
                authority: cancel.escrow_authority,
            },
            signer_bump: program_address(escrow_seed(), program_id_bytes())->Some_0.1,
        }),
        cancel.trade_details.spl_amount[0] == 0 ==> refund.party_one_spl is None,
        cancel.trade_details.is_confirmed && cancel.trade_details.spl_amount[1] > 0 ==> refund.party_two_spl == Some(
            SplRelease {
                transfer: TokenTransfer {
                    from: cancel.escrow_party_two->Some_0,
                    to: cancel.two_send_address->Some_0,
                    authority: cancel.escrow_authority,
                },
                amount: cancel.trade_details.spl_amount[1],
                close: AccountClosure {
                    account: cancel.escrow_party_two->Some_0,
                    destination: cancel.party_two,
                    authority: cancel.escrow_authority,
                },
                signer_bump: program_address(escrow_seed(), program_id_bytes())->Some_0.1,
            },
        ),
        !cancel.trade_details.is_confirmed || cancel.trade_details.spl_amount[1] == 0 ==> refund.party_two_spl is None,
        cancel.trade_details.sol_amount[0] > 0 ==> refund.party_one_sol == Some(cancel.trade_details.sol_amount[0]),
        cancel.trade_details.sol_amount[0] == 0 ==> refund.party_one_sol is None,
        cancel.trade_details.is_confirmed && cancel.trade_details.sol_amount[1] > 0 ==> refund.party_two_sol == Some(
            cancel.trade_details.sol_amount[1],
        ),
        !cancel.trade_details.is_confirmed || cancel.trade_details.sol_amount[1] == 0 ==> refund.party_two_sol is None,
{
}

/// What the second party gets back does not depend on the first party's
/// amounts: two cancellations that differ only there give the second party the
/// same release and the same refund.
pub proof fn lemma_second_party_refund_ignores_first_party_amounts(
    c1: CancelTrade,
    c2: CancelTrade,
    p1: CancelPlan,
    p2: CancelPlan,
)
    requires
        c1.is_cancel_plan(p1),
        c2.is_cancel_plan(p2),
        c1.trade_details.is_confirmed == c2.trade_details.is_confirmed,
        c1.trade_details.spl_amount[1] == c2.trade_details.spl_amount[1],
        c1.trade_details.sol_amount[1] == c2.trade_details.sol_amount[1],
        c1.escrow_party_two == c2.escrow_party_two,
        c1.two_send_address == c2.two_send_address,
        c1.party_two == c2.party_two,
        c1.escrow_authority == c2.escrow_authority,
    ensures
        p1.party_two_spl == p2.party_two_spl,
        p1.party_two_sol == p2.party_two_sol,
{
}

/// Cancelling stops with a panic only where a token release that happens lacks
/// its escrow account or its token account: the first party's when it has
/// tokens recorded, the second party's when the trade is confirmed and it has
/// tokens recorded.  A trade without tokens of the second party needs none of
/// the second party's token accounts.
pub proof fn lemma_cancel_stops_only_for_missing_release_accounts(cancel: CancelTrade)
    ensures
        cancel.cancel_panics() <==> ((cancel.trade_details.spl_amount[0] > 0 && (cancel.escrow_party_one is None
            || cancel.one_send_address is None)) || (cancel.trade_details.is_confirmed
            && cancel.trade_details.spl_amount[1] > 0 && (cancel.escrow_party_two is None
            || cancel.two_send_address is None))),
        cancel.releases_one() || cancel.releases_two() <==> (cancel.trade_details.spl_amount[0] > 0 || (
        cancel.trade_details.is_confirmed && cancel.trade_details.spl_amount[1] > 0)),
{
}

/// A SOL refund reaches the party it is for: with distinct parties, a refund to
/// the first party leaves the second party's account as it is and the other
/// way round; where both parties are one account, that account gets both.
pub proof fn lemma_refunds_reach_their_own_party(cancel: CancelTrade, one: int, two: int)
    ensures
        cancel.party_one != cancel.party_two ==> cancel.gain_one(one, two) == one && cancel.gain_two(one, two) == two,
        cancel.party_one == cancel.party_two ==> cancel.gain_one(one, two) == one + two && cancel.gain_two(one, two)
            == one + two,
{
}

/// The account checks pass only for the accounts that the trade records: a
/// given token account or mint is the recorded one, and the parties are the
/// recorded parties, with the first party's signature.
pub proof fn lemma_checked_accounts_are_the_recorded_ones(cancel: CancelTrade)
    requires
        cancel.accounts_outcome() == Some(Ok::<(), Refusal>(())),
    ensures
        cancel.party_one_is_signer,
        cancel.party_one == cancel.trade_details.party_one,
        cancel.party_two == cancel.trade_details.party_two,
        cancel.one_send_address is Some ==> cancel.one_send_address == cancel.trade_details.one_send_address,
        cancel.two_send_address is Some ==> cancel.two_send_address == cancel.trade_details.two_send_address,
        cancel.one_mint is Some ==> cancel.one_mint == cancel.trade_details.one_mint,
        cancel.two_mint is Some ==> cancel.two_mint == cancel.trade_details.two_mint,
{
}

/// Each refusal of an opening names what is wrong, checked in this order: for
/// a SOL trade a zero SOL amount, then a token amount, then an escrow account;
/// for an SPL trade a SOL amount, then a zero token amount, then a missing
/// token account; for a trade of both a zero SOL amount, then a zero token
/// amount, then a missing token account.
pub proof fn lemma_opening_refusals_name_the_fault(
    create: CreateTrade,
    sol_amount: u64,
    spl_amount: u64,
    trade_type: TradeType,
    r: Result<CreatePlan, Errors>,
)
    requires
        create.create_outcome(sol_amount, spl_amount, trade_type, r),
    ensures
        trade_type == TradeType::Sol && sol_amount == 0 ==> r == Err::<CreatePlan, Errors>(Errors::TokenAmountZero),
        trade_type == TradeType::Sol && sol_amount > 0 && spl_amount != 0 ==> r == Err::<CreatePlan, Errors>(
            Errors::AmountNotZero,
        ),
        trade_type == TradeType::Sol && sol_amount > 0 && spl_amount == 0 && create.escrow_party_one is Some ==> r
            == Err::<CreatePlan, Errors>(Errors::AccountNotRequired),
        trade_type == TradeType::Spl && sol_amount != 0 ==> r == Err::<CreatePlan, Errors>(Errors::AmountNotZero),
        trade_type == TradeType::Spl && sol_amount == 0 && spl_amount == 0 ==> r == Err::<CreatePlan, Errors>(
            Errors::TokenAmountZero,
        ),
        trade_type == TradeType::Spl && sol_amount == 0 && spl_amount > 0 && create.one_send_address is None ==> r
            == Err::<CreatePlan, Errors>(Errors::AccountNotProvided),
        trade_type == TradeType::Both && (sol_amount == 0 || spl_amount == 0) ==> r == Err::<CreatePlan, Errors>(
            Errors::TokenAmountZero,
        ),
        trade_type == TradeType::Both && sol_amount > 0 && spl_amount > 0 && create.one_send_address is None ==> r
            == Err::<CreatePlan, Errors>(Errors::AccountNotProvided),
{
}

/// An opened trade records the first party's deposit and the accounts it came
/// from: the token account given, and the mint only when tokens are deposited.
pub proof fn lemma_opened_trade_records_the_deposit(
    create: CreateTrade,
    sol_amount: u64,
    spl_amount: u64,
    trade_type: TradeType,
    opened: CreatePlan,
)
    requires
        create.create_outcome(sol_amount, spl_amount, trade_type, Ok(opened)),
    ensures
        opened.trade.one_send_address == (if create.one_send_address is Some {
            Some(create.one_send_address->Some_0.address)
        } else {
            None::<Key>
        }),
        opened.trade.one_mint == (if spl_amount > 0 {
            create.mint
        } else {
            None::<Key>
        }),
        opened.trade.two_send_address is None,
        opened.trade.two_receive_address is None,
        opened.trade.two_mint is None,
{
}

/// A freshly opened trade holds the first party's amounts at index 0, nothing
/// for the second party, no account of the second party, and is unconfirmed.
pub proof fn lemma_new_trade_is_unconfirmed_and_one_sided(
    party_one: Key,
    party_two: Key,
    sol_amount: u64,
    spl_amount: u64,
    one_send_address: Option<Key>,
    one_mint: Option<Key>,
    t: Trade,
)
    requires
        Trade::opened(party_one, party_two, sol_amount, spl_amount, one_send_address, one_mint, t),
    ensures
        t.party_one == party_one && t.party_two == party_two,
        t.sol_amount[0] == sol_amount && t.sol_amount[1] == 0,
        t.spl_amount[0] == spl_amount && t.spl_amount[1] == 0,
        t.one_send_address == one_send_address && t.one_mint == one_mint,
        t.two_send_address is None && t.two_receive_address is None && t.two_mint is None,
        !t.is_confirmed,
{
}

/// Opening a trade stops with a panic only where a positive token deposit from
/// a given token account has no escrow account to go to, and derives the
/// escrow authority exactly where such a deposit is made.
pub proof fn lemma_opening_stops_only_without_escrow_account(
    create: CreateTrade,
    sol_amount: u64,
    spl_amount: u64,
    trade_type: TradeType,
)
    ensures
        create.create_panics(sol_amount, spl_amount, trade_type) <==> (trade_type != TradeType::Sol && (
        trade_type == TradeType::Spl ==> sol_amount == 0) && (trade_type == TradeType::Both ==> sol_amount > 0)
            && spl_amount > 0 && create.one_send_address is Some && create.escrow_party_one is None),
        create.needs_escrow_authority(sol_amount, spl_amount, trade_type) <==> (trade_type != TradeType::Sol && (
        trade_type == TradeType::Spl ==> sol_amount == 0) && (trade_type == TradeType::Both ==> sol_amount > 0)
            && spl_amount > 0 && create.one_send_address is Some),
{
}

/// The checks of a cancellation refuse in this order: a missing signature of
/// the first party; a given token account other than the recorded one (the
/// first party's, then the second's); parties other than the recorded ones; a
/// given mint other than the recorded one.
pub proof fn lemma_cancel_refusals_in_order(cancel: CancelTrade)
    ensures
        !cancel.party_one_is_signer ==> cancel.accounts_outcome() == Some(Err::<(), Refusal>(Refusal::AccountNotSigner)),
        cancel.party_one_is_signer && cancel.one_send_address is Some && cancel.trade_details.one_send_address is Some
            && cancel.one_send_address != cancel.trade_details.one_send_address ==> cancel.accounts_outcome() == Some(
            Err::<(), Refusal>(Refusal::Program(Errors::IncorrectTokenAccount)),
        ),
        cancel.party_one_is_signer && (cancel.one_send_address is None || cancel.one_send_address
            == cancel.trade_details.one_send_address) && cancel.two_send_address is Some
            && cancel.trade_details.two_send_address is Some && cancel.two_send_address
            != cancel.trade_details.two_send_address ==> cancel.accounts_outcome() == Some(
            Err::<(), Refusal>(Refusal::Program(Errors::IncorrectTokenAccount)),
        ),
        cancel.party_one_is_signer && (cancel.one_send_address is None || cancel.one_send_address
            == cancel.trade_details.one_send_address) && (cancel.two_send_address is None || cancel.two_send_address
            == cancel.trade_details.two_send_address) && (cancel.party_one != cancel.trade_details.party_one
            || cancel.party_two != cancel.trade_details.party_two) ==> cancel.accounts_outcome() == Some(
            Err::<(), Refusal>(Refusal::ConstraintHasOne),
        ),
        cancel.party_one_is_signer && (cancel.one_send_address is None || cancel.one_send_address
            == cancel.trade_details.one_send_address) && (cancel.two_send_address is None || cancel.two_send_address
            == cancel.trade_details.two_send_address) && cancel.party_one == cancel.trade_details.party_one
            && cancel.party_two == cancel.trade_details.party_two && cancel.one_mint is Some
            && cancel.trade_details.one_mint is Some && cancel.one_mint != cancel.trade_details.one_mint
            ==> cancel.accounts_outcome() == Some(Err::<(), Refusal>(Refusal::Program(Errors::MintNotExist))),
{
}

/// The SOL refunds fit exactly when the trade account holds both of them and
/// each party's account can take what it is owed.
pub proof fn lemma_refunds_fit_what_the_accounts_hold(cancel: CancelTrade, refund: CancelPlan)
    requires
        cancel.party_one != cancel.party_two,
    ensures
        cancel.refunds_fit(refund) <==> ({
            let one: int = if refund.party_one_sol is Some {
                refund.party_one_sol->Some_0 as int
            } else {
                0
            };
            let two: int = if refund.party_two_sol is Some {
                refund.party_two_sol->Some_0 as int
            } else {
                0
            };
            &&& one + two <= cancel.trade_lamports
            &&& cancel.party_one_lamports + one <= u64::MAX
            &&& cancel.party_two_lamports + two <= u64::MAX
        }),
        cancel.close_fits() <==> cancel.party_one_lamports + cancel.trade_lamports <= u64::MAX,
{
}

} // verus!
