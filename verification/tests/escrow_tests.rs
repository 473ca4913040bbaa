use anchor_lang::solana_program::pubkey::Pubkey;
use std::str::FromStr;

use escrow::address::{escrow_authority, keys_equal, program_id};
use escrow::cpi::{AccountClosure, AuthorityChange, SystemTransfer, TokenTransfer};
use escrow::instructions::cancel_trade::{
    cancel_trade, cancel_trade_handler, settle_sol_refunds, CancelPlan, CancelTrade,
};
use escrow::instructions::create_trade::{
    create_trade, create_trade_handler, CreatePlan, CreateTrade, TokenAccount,
};
use escrow::state::{Key, Trade, TradeType};
use escrow::{Errors, Refusal};

fn key(b: u8) -> Key {
    [b; 32]
}

fn pda() -> (Key, u8) {
    let id = Pubkey::from_str("AsEUn846nbfmDkvzfEDzgZoMiJ4WBDzmRSBYtqQqYuvZ").unwrap();
    let (k, b) = Pubkey::find_program_address(&[b"escrow"], &id);
    (k.to_bytes(), b)
}

const P1: u8 = 1;
const P2: u8 = 2;
const TRADE: u8 = 3;
const ESCROW1: u8 = 4;
const SEND1: u8 = 5;
const MINT1: u8 = 6;
const ESCROW2: u8 = 7;
const SEND2: u8 = 8;
const MINT2: u8 = 9;
const AUTH: u8 = 10;

fn create_ctx(escrow: bool, send: Option<u64>, mint: bool, lamports: u64) -> CreateTrade {
    CreateTrade {
        trade_details: key(TRADE),
        escrow_party_one: if escrow { Some(key(ESCROW1)) } else { None },
        one_send_address: send.map(|amount| TokenAccount { address: key(SEND1), amount }),
        party_one: key(P1),
        party_one_is_signer: true,
        party_one_lamports: lamports,
        mint: if mint { Some(key(MINT1)) } else { None },
        party_two: key(P2),
    }
}

fn cancel_ctx(trade: Trade) -> CancelTrade {
    CancelTrade {
        trade_details: trade,
        escrow_party_one: Some(key(ESCROW1)),
        escrow_party_two: Some(key(ESCROW2)),
        one_send_address: Some(key(SEND1)),
        two_send_address: Some(key(SEND2)),
        party_one: key(P1),
        party_one_is_signer: true,
        party_two: key(P2),
        one_mint: None,
        two_mint: None,
        escrow_authority: key(AUTH),
        trade_lamports: 1_000,
        party_one_lamports: 50,
        party_two_lamports: 70,
    }
}

fn confirmed_trade() -> Trade {
    Trade {
        party_one: key(P1),
        party_two: key(P2),
        sol_amount: [10, 20],
        spl_amount: [30, 40],
        one_send_address: Some(key(SEND1)),
        one_mint: Some(key(MINT1)),
        two_send_address: Some(key(SEND2)),
        two_receive_address: None,
        two_mint: Some(key(MINT2)),
        is_confirmed: true,
    }
}

#[test]
fn program_id_is_the_declared_id() {
    let id = Pubkey::from_str("AsEUn846nbfmDkvzfEDzgZoMiJ4WBDzmRSBYtqQqYuvZ").unwrap();
    assert_eq!(program_id(), id.to_bytes());
}

#[test]
fn escrow_authority_is_the_derived_address() {
    let got = escrow_authority();
    assert_eq!(got, Some(pda()));
    assert_ne!(got.unwrap().0, program_id());
    let seed: Key = {
        let mut s = [0u8; 32];
        s[..6].copy_from_slice(b"escrow");
        s
    };
    assert_ne!(got.unwrap().0, seed);
}

#[test]
fn keys_equal_compares_every_byte() {
    let a = key(7);
    let mut b = key(7);
    assert!(keys_equal(&a, &b));
    b[31] = 8;
    assert!(!keys_equal(&a, &b));
    b = key(7);
    b[0] = 0;
    assert!(!keys_equal(&a, &b));
}

#[test]
fn trade_len_is_the_account_space() {
    assert_eq!(Trade::LEN, 270);
}

#[test]
fn new_trade_records_the_first_party_only() {
    let t = Trade::new(key(P1), key(P2), 5, 6, Some(key(SEND1)), Some(key(MINT1)));
    assert_eq!(t.party_one, key(P1));
    assert_eq!(t.party_two, key(P2));
    assert_eq!(t.sol_amount, [5, 0]);
    assert_eq!(t.spl_amount, [6, 0]);
    assert_eq!(t.one_send_address, Some(key(SEND1)));
    assert_eq!(t.one_mint, Some(key(MINT1)));
    assert_eq!(t.two_send_address, None);
    assert_eq!(t.two_receive_address, None);
    assert_eq!(t.two_mint, None);
    assert!(!t.is_confirmed);
}

#[test]
fn sol_trade_deposits_lamports_into_the_trade_account() {
    let ctx = create_ctx(false, None, false, 100);
    let plan = create_trade_handler(&ctx, 25, 0, TradeType::Sol).unwrap();
    assert_eq!(plan.spl_deposit, None);
    let sol = plan.sol_deposit.unwrap();
    assert_eq!(sol.amount, 25);
    assert_eq!(sol.transfer, SystemTransfer { from: key(P1), to: key(TRADE) });
    assert_eq!(plan.trade, Trade::new(key(P1), key(P2), 25, 0, None, None));
}

#[test]
fn sol_trade_refusals() {
    let ctx = create_ctx(false, None, false, 100);
    assert_eq!(create_trade_handler(&ctx, 0, 0, TradeType::Sol), Err(Errors::TokenAmountZero));
    assert_eq!(create_trade_handler(&ctx, 5, 1, TradeType::Sol), Err(Errors::AmountNotZero));
    let with_escrow = create_ctx(true, None, false, 100);
    assert_eq!(create_trade_handler(&with_escrow, 5, 0, TradeType::Sol), Err(Errors::AccountNotRequired));
}

#[test]
fn spl_trade_deposits_tokens_and_hands_the_escrow_to_the_authority() {
    let ctx = create_ctx(true, Some(500), true, 100);
    let plan = create_trade_handler(&ctx, 0, 40, TradeType::Spl).unwrap();
    assert_eq!(plan.sol_deposit, None);
    let spl = plan.spl_deposit.unwrap();
    assert_eq!(spl.amount, 40);
    assert_eq!(spl.transfer, TokenTransfer { from: key(SEND1), to: key(ESCROW1), authority: key(P1) });
    assert_eq!(spl.set_authority, AuthorityChange { account_or_mint: key(ESCROW1), current_authority: key(P1) });
    assert_eq!(spl.new_owner, pda().0);
    assert_eq!(plan.trade, Trade::new(key(P1), key(P2), 0, 40, Some(key(SEND1)), Some(key(MINT1))));
}

#[test]
fn spl_trade_refusals() {
    let ctx = create_ctx(true, Some(500), true, 100);
    assert_eq!(create_trade_handler(&ctx, 1, 40, TradeType::Spl), Err(Errors::AmountNotZero));
    assert_eq!(create_trade_handler(&ctx, 0, 0, TradeType::Spl), Err(Errors::TokenAmountZero));
    let no_send = create_ctx(true, None, true, 100);
    assert_eq!(create_trade_handler(&no_send, 0, 40, TradeType::Spl), Err(Errors::AccountNotProvided));
}

#[test]
fn both_trade_deposits_tokens_then_lamports() {
    let ctx = create_ctx(true, Some(500), false, 100);
    let plan = create_trade_handler(&ctx, 7, 8, TradeType::Both).unwrap();
    assert_eq!(plan.spl_deposit.unwrap().amount, 8);
    assert_eq!(plan.sol_deposit.unwrap().amount, 7);
    assert_eq!(plan.trade, Trade::new(key(P1), key(P2), 7, 8, Some(key(SEND1)), None));
}

#[test]
fn both_trade_refusals() {
    let ctx = create_ctx(true, Some(500), true, 100);
    assert_eq!(create_trade_handler(&ctx, 0, 8, TradeType::Both), Err(Errors::TokenAmountZero));
    assert_eq!(create_trade_handler(&ctx, 7, 0, TradeType::Both), Err(Errors::TokenAmountZero));
    let no_send = create_ctx(true, None, true, 100);
    assert_eq!(create_trade_handler(&no_send, 7, 8, TradeType::Both), Err(Errors::AccountNotProvided));
}

#[test]
fn sol_trade_with_a_mint_records_no_mint() {
    let ctx = create_ctx(false, Some(3), true, 100);
    let plan = create_trade_handler(&ctx, 9, 0, TradeType::Sol).unwrap();
    assert_eq!(plan.trade.one_mint, None);
    assert_eq!(plan.trade.one_send_address, Some(key(SEND1)));
}

#[test]
fn create_checks_balances_first() {
    let poor_tokens = create_ctx(true, Some(3), true, 100);
    assert_eq!(create_trade(&poor_tokens, 0, 4, TradeType::Spl), Some(Err(Refusal::Program(Errors::InsufficientBalance))));
    let poor_lamports = create_ctx(false, None, false, 10);
    assert_eq!(create_trade(&poor_lamports, 11, 0, TradeType::Sol), Some(Err(Refusal::Program(Errors::InsufficientBalance))));
    let fine = create_ctx(false, None, false, 10);
    assert_eq!(create_trade(&fine, 10, 0, TradeType::Sol), Some(Ok(create_trade_handler(&fine, 10, 0, TradeType::Sol).unwrap())));
    assert_eq!(create_trade(&fine, 0, 0, TradeType::Sol), Some(Err(Refusal::Program(Errors::TokenAmountZero))));
    let mut unsigned = create_ctx(false, None, false, 0);
    unsigned.party_one_is_signer = false;
    assert_eq!(create_trade(&unsigned, 11, 0, TradeType::Sol), Some(Err(Refusal::AccountNotSigner)));
}

#[test]
fn create_without_escrow_account_stops() {
    let ctx = create_ctx(false, Some(500), true, 100);
    assert_eq!(create_trade(&ctx, 0, 4, TradeType::Spl), None);
    assert_eq!(create_trade(&ctx, 1, 4, TradeType::Both), None);
    assert_eq!(create_trade(&ctx, 1, 4, TradeType::Spl), Some(Err(Refusal::Program(Errors::AmountNotZero))));
}

#[test]
fn cancel_unconfirmed_trade_pays_back_the_first_party() {
    let mut trade = confirmed_trade();
    trade.is_confirmed = false;
    let ctx = cancel_ctx(trade);
    let plan = cancel_trade_handler(&ctx);
    let (_, bump) = pda();
    assert_eq!(
        plan,
        CancelPlan {
            party_one_spl: Some(escrow::instructions::cancel_trade::SplRelease {
                transfer: TokenTransfer { from: key(ESCROW1), to: key(SEND1), authority: key(AUTH) },
                amount: 30,
                close: AccountClosure { account: key(ESCROW1), destination: key(P1), authority: key(AUTH) },
                signer_bump: bump,
            }),
            party_two_spl: None,
            party_one_sol: Some(10),
            party_two_sol: None,
        }
    );
}

#[test]
fn cancel_confirmed_trade_pays_back_both_parties() {
    let ctx = cancel_ctx(confirmed_trade());
    let plan = cancel_trade_handler(&ctx);
    let two = plan.party_two_spl.unwrap();
    assert_eq!(two.amount, 40);
    assert_eq!(two.transfer, TokenTransfer { from: key(ESCROW2), to: key(SEND2), authority: key(AUTH) });
    assert_eq!(two.close, AccountClosure { account: key(ESCROW2), destination: key(P2), authority: key(AUTH) });
    assert_eq!(plan.party_one_spl.unwrap().amount, 30);
    assert_eq!(plan.party_one_sol, Some(10));
    assert_eq!(plan.party_two_sol, Some(20));
}

#[test]
fn cancel_skips_zero_amounts() {
    let mut trade = confirmed_trade();
    trade.sol_amount = [0, 0];
    trade.spl_amount = [0, 0];
    let mut ctx = cancel_ctx(trade);
    ctx.escrow_party_one = None;
    ctx.escrow_party_two = None;
    let plan = cancel_trade_handler(&ctx);
    assert_eq!(plan, CancelPlan { party_one_spl: None, party_two_spl: None, party_one_sol: None, party_two_sol: None });
}

#[test]
fn cancel_checks_the_recorded_accounts() {
    let mut ctx = cancel_ctx(confirmed_trade());
    ctx.one_send_address = Some(key(99));
    assert_eq!(cancel_trade(&ctx), Some(Err(Refusal::Program(Errors::IncorrectTokenAccount))));
    let mut ctx = cancel_ctx(confirmed_trade());
    ctx.two_send_address = Some(key(99));
    assert_eq!(cancel_trade(&ctx), Some(Err(Refusal::Program(Errors::IncorrectTokenAccount))));
    let mut ctx = cancel_ctx(confirmed_trade());
    ctx.one_mint = Some(key(99));
    assert_eq!(cancel_trade(&ctx), Some(Err(Refusal::Program(Errors::MintNotExist))));
    let mut ctx = cancel_ctx(confirmed_trade());
    ctx.two_mint = Some(key(99));
    assert_eq!(cancel_trade(&ctx), Some(Err(Refusal::Program(Errors::MintNotExist))));
    let mut ctx = cancel_ctx(confirmed_trade());
    ctx.one_mint = Some(key(MINT1));
    ctx.two_mint = Some(key(MINT2));
    assert_eq!(cancel_trade(&ctx), Some(Ok(cancel_trade_handler(&ctx))));
    assert_eq!(ctx.account_checks(), Some(Ok(())));
}

#[test]
fn cancel_stops_on_missing_or_unrecorded_accounts() {
    let mut ctx = cancel_ctx(confirmed_trade());
    ctx.escrow_party_two = None;
    assert_eq!(cancel_trade(&ctx), None);
    let mut trade = confirmed_trade();
    trade.two_send_address = None;
    let ctx = cancel_ctx(trade);
    assert_eq!(ctx.account_checks(), None);
    assert_eq!(cancel_trade(&ctx), None);
}

#[test]
fn settling_refunds_keeps_the_lamport_total() {
    let mut ctx = cancel_ctx(confirmed_trade());
    let plan = cancel_trade_handler(&ctx);
    assert!(ctx.can_settle_refunds(&plan));
    settle_sol_refunds(&mut ctx, &plan);
    assert_eq!(ctx.trade_lamports, 970);
    assert_eq!(ctx.party_one_lamports, 60);
    assert_eq!(ctx.party_two_lamports, 90);
}

#[test]
fn transfer_sol_moves_lamports_out_of_the_trade_account() {
    let mut ctx = cancel_ctx(confirmed_trade());
    ctx.transfer_sol(0, 5);
    assert_eq!((ctx.trade_lamports, ctx.party_one_lamports, ctx.party_two_lamports), (995, 55, 70));
    ctx.transfer_sol(1, 6);
    assert_eq!((ctx.trade_lamports, ctx.party_one_lamports, ctx.party_two_lamports), (989, 55, 76));
}

#[test]
fn refunds_that_do_not_fit_are_detected() {
    let mut ctx = cancel_ctx(confirmed_trade());
    ctx.trade_lamports = 29;
    let plan = cancel_trade_handler(&ctx);
    assert!(!ctx.can_settle_refunds(&plan));
    ctx.trade_lamports = 30;
    assert!(ctx.can_settle_refunds(&plan));
    ctx.party_two_lamports = u64::MAX - 19;
    assert!(!ctx.can_settle_refunds(&plan));
}

#[test]
fn cancelling_a_new_trade_returns_the_deposits() {
    let create = create_ctx(true, Some(500), true, 100);
    let opened: CreatePlan = create_trade(&create, 12, 34, TradeType::Both).unwrap().unwrap();
    let mut ctx = cancel_ctx(opened.trade);
    ctx.two_send_address = None;
    ctx.escrow_party_two = None;
    ctx.trade_lamports = 12;
    let refund = cancel_trade(&ctx).unwrap().unwrap();
    assert_eq!(refund.party_one_sol, Some(opened.sol_deposit.unwrap().amount));
    let spl = refund.party_one_spl.unwrap();
    assert_eq!(spl.amount, opened.spl_deposit.unwrap().amount);
    assert_eq!(spl.transfer.to, opened.spl_deposit.unwrap().transfer.from);
    assert_eq!(spl.transfer.from, opened.spl_deposit.unwrap().transfer.to);
    assert_eq!(refund.party_two_spl, None);
    assert_eq!(refund.party_two_sol, None);
    settle_sol_refunds(&mut ctx, &refund);
    assert_eq!(ctx.trade_lamports, 0);
    assert_eq!(ctx.party_one_lamports, 62);
}

#[test]
fn cancel_needs_the_first_party_signature() {
    let mut ctx = cancel_ctx(confirmed_trade());
    ctx.party_one_is_signer = false;
    ctx.one_send_address = Some(key(99));
    assert_eq!(cancel_trade(&ctx), Some(Err(Refusal::AccountNotSigner)));
}

#[test]
fn cancel_by_other_parties_is_refused() {
    let mut ctx = cancel_ctx(confirmed_trade());
    ctx.party_one = key(99);
    assert_eq!(cancel_trade(&ctx), Some(Err(Refusal::ConstraintHasOne)));
    let mut ctx = cancel_ctx(confirmed_trade());
    ctx.party_two = key(99);
    assert_eq!(cancel_trade(&ctx), Some(Err(Refusal::ConstraintHasOne)));
    // The token accounts are checked before the parties.
    ctx.one_send_address = Some(key(98));
    assert_eq!(cancel_trade(&ctx), Some(Err(Refusal::Program(Errors::IncorrectTokenAccount))));
    // The parties are checked before the mints.
    let mut ctx = cancel_ctx(confirmed_trade());
    ctx.party_two = key(99);
    ctx.one_mint = Some(key(98));
    assert_eq!(cancel_trade(&ctx), Some(Err(Refusal::ConstraintHasOne)));
}

#[test]
fn refunds_to_one_account_for_both_parties_add_up() {
    let mut trade = confirmed_trade();
    trade.party_two = key(P1);
    let mut ctx = cancel_ctx(trade);
    ctx.party_two = key(P1);
    ctx.party_two_lamports = ctx.party_one_lamports;
    let plan = cancel_trade(&ctx).unwrap().unwrap();
    assert!(ctx.can_settle_refunds(&plan));
    settle_sol_refunds(&mut ctx, &plan);
    assert_eq!(ctx.trade_lamports, 970);
    assert_eq!(ctx.party_one_lamports, 80);
    assert_eq!(ctx.party_two_lamports, 80);
    ctx.party_two_lamports = 81;
    assert!(!ctx.can_settle_refunds(&plan));
    assert!(!ctx.can_close_trade_account());
}

#[test]
fn closing_the_trade_account_pays_the_first_party() {
    let mut ctx = cancel_ctx(confirmed_trade());
    let plan = cancel_trade_handler(&ctx);
    settle_sol_refunds(&mut ctx, &plan);
    assert!(ctx.can_close_trade_account());
    ctx.close_trade_account();
    assert_eq!((ctx.trade_lamports, ctx.party_one_lamports, ctx.party_two_lamports), (0, 1030, 90));
    assert!(!ctx.can_settle_refunds(&plan));
    ctx.party_one_lamports = u64::MAX;
    ctx.trade_lamports = 1;
    assert!(!ctx.can_close_trade_account());
}
