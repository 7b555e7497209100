use escrow::error::EscrowError;
use escrow::make::Make;
use escrow::refund::Refund;
use escrow::state::escrow_address;
use escrow::state::Address;
use escrow::state::TokenAccount;
use escrow::take::Take;

const MAKER: u64 = 7;
const TAKER: u64 = 9;
const MINT_A: u64 = 1;
const MINT_B: u64 = 2;

fn make_ctx(balance: u64) -> Make {
    Make {
        maker: MAKER,
        mint_a: MINT_A,
        mint_b: MINT_B,
        maker_ata_a: TokenAccount {
            mint: MINT_A,
            authority: Address::Party(MAKER),
            amount: balance,
        },
        escrow: None,
    }
}

/// Runs a successful make of (seed=1, deposit=100, receive=50) from a maker
/// balance of 100 and returns the context afterward.
fn opened_escrow() -> Make {
    let mut ctx = make_ctx(100);
    let r = escrow::make(&mut ctx, 1, 100, 50);
    assert_eq!(r, Ok(()));
    ctx
}

fn take_ctx_for(opened: &Make, taker_b_balance: u64) -> Take {
    Take {
        taker: TAKER,
        mint_a: MINT_A,
        mint_b: MINT_B,
        taker_ata_a: TokenAccount {
            mint: MINT_A,
            authority: Address::Party(TAKER),
            amount: 0,
        },
        taker_ata_b: TokenAccount {
            mint: MINT_B,
            authority: Address::Party(TAKER),
            amount: taker_b_balance,
        },
        maker_ata_b: TokenAccount {
            mint: MINT_B,
            authority: Address::Party(MAKER),
            amount: 0,
        },
        escrow_address: escrow_address(MAKER, 1),
        escrow: opened.escrow,
    }
}

fn refund_ctx_for(opened: &Make) -> Refund {
    Refund {
        maker: MAKER,
        mint_a: MINT_A,
        maker_ata_a: opened.maker_ata_a,
        escrow_address: escrow_address(MAKER, 1),
        escrow: opened.escrow,
    }
}

#[test]
fn make_creates_pair_and_debits_maker() {
    let ctx = opened_escrow();
    assert_eq!(ctx.maker_ata_a.amount, 0);
    let pair = ctx.escrow.expect("make must leave a live pair");
    assert_eq!(pair.record.seed, 1);
    assert_eq!(pair.record.maker, MAKER);
    assert_eq!(pair.record.mint_a, MINT_A);
    assert_eq!(pair.record.mint_b, MINT_B);
    assert_eq!(pair.record.receive, 50);
    assert_eq!(pair.vault.mint, MINT_A);
    assert_eq!(pair.vault.amount, 100);
    assert_eq!(pair.vault.authority, escrow_address(MAKER, 1));
}

#[test]
fn make_insufficient_funds_fails_atomically() {
    let mut ctx = make_ctx(100);
    let r = escrow::make(&mut ctx, 1, 101, 50);
    assert_eq!(r, Err(EscrowError::InsufficientFunds));
    assert_eq!(ctx, make_ctx(100));
}

#[test]
fn make_on_used_seed_rejected() {
    let mut ctx = opened_escrow();
    ctx.maker_ata_a.amount = 100;
    let before = ctx;
    let r = escrow::make(&mut ctx, 1, 10, 5);
    assert_eq!(r, Err(EscrowError::AddressInUse));
    assert_eq!(ctx, before);
}

#[test]
fn make_with_wrong_asset_account_rejected() {
    let mut ctx = make_ctx(100);
    ctx.maker_ata_a.mint = MINT_B;
    let before = ctx;
    let r = escrow::make(&mut ctx, 1, 10, 5);
    assert_eq!(r, Err(EscrowError::AssetMismatch));
    assert_eq!(ctx, before);
}

#[test]
fn make_from_foreign_account_rejected() {
    let mut ctx = make_ctx(100);
    ctx.maker_ata_a.authority = Address::Party(TAKER);
    let before = ctx;
    let r = escrow::make(&mut ctx, 1, 10, 5);
    assert_eq!(r, Err(EscrowError::AuthorityMismatch));
    assert_eq!(ctx, before);
}

#[test]
fn take_settles_both_legs() {
    let opened = opened_escrow();
    let mut tctx = take_ctx_for(&opened, 50);
    let r = escrow::take(&mut tctx);
    assert_eq!(r, Ok(()));
    assert_eq!(tctx.maker_ata_b.amount, 50);
    assert_eq!(tctx.taker_ata_b.amount, 0);
    assert_eq!(tctx.taker_ata_a.amount, 100);
    assert_eq!(tctx.escrow, None);
}

#[test]
fn refund_restores_maker_balance() {
    let opened = opened_escrow();
    let mut rctx = refund_ctx_for(&opened);
    let r = escrow::refund(&mut rctx);
    assert_eq!(r, Ok(()));
    assert_eq!(rctx.maker_ata_a.amount, 100);
    assert_eq!(rctx.escrow, None);
}

#[test]
fn take_replay_fails_without_side_effects() {
    let opened = opened_escrow();
    let mut tctx = take_ctx_for(&opened, 50);
    assert_eq!(escrow::take(&mut tctx), Ok(()));
    let closed = tctx;
    let r = escrow::take(&mut tctx);
    assert_eq!(r, Err(EscrowError::EscrowNotFound));
    assert_eq!(tctx, closed);
}

#[test]
fn refund_replay_fails_without_side_effects() {
    let opened = opened_escrow();
    let mut rctx = refund_ctx_for(&opened);
    assert_eq!(escrow::refund(&mut rctx), Ok(()));
    let closed = rctx;
    let r = escrow::refund(&mut rctx);
    assert_eq!(r, Err(EscrowError::EscrowNotFound));
    assert_eq!(rctx, closed);
}

#[test]
fn refund_after_take_fails() {
    let opened = opened_escrow();
    let mut tctx = take_ctx_for(&opened, 50);
    assert_eq!(escrow::take(&mut tctx), Ok(()));
    let mut rctx = refund_ctx_for(&opened);
    rctx.escrow = tctx.escrow;
    let before = rctx;
    assert_eq!(escrow::refund(&mut rctx), Err(EscrowError::EscrowNotFound));
    assert_eq!(rctx, before);
}

#[test]
fn mismatched_vault_rejected_on_take() {
    let opened = opened_escrow();
    let mut tctx = take_ctx_for(&opened, 50);
    let mut pair = tctx.escrow.unwrap();
    pair.vault.mint = MINT_B;
    tctx.escrow = Some(pair);
    let before = tctx;
    let r = escrow::take(&mut tctx);
    assert_eq!(r, Err(EscrowError::AssetMismatch));
    assert_eq!(tctx, before);
}

#[test]
fn mismatched_vault_rejected_on_refund() {
    let opened = opened_escrow();
    let mut rctx = refund_ctx_for(&opened);
    let mut pair = rctx.escrow.unwrap();
    pair.vault.mint = MINT_B;
    rctx.escrow = Some(pair);
    let before = rctx;
    let r = escrow::refund(&mut rctx);
    assert_eq!(r, Err(EscrowError::AssetMismatch));
    assert_eq!(rctx, before);
}

#[test]
fn refund_by_stranger_rejected() {
    let opened = opened_escrow();
    let mut rctx = refund_ctx_for(&opened);
    rctx.maker = TAKER;
    rctx.maker_ata_a.authority = Address::Party(TAKER);
    let before = rctx;
    let r = escrow::refund(&mut rctx);
    assert_eq!(r, Err(EscrowError::UnauthorizedSigner));
    assert_eq!(rctx, before);
}

#[test]
fn substituted_record_rejected_on_take() {
    let opened = opened_escrow();
    let mut tctx = take_ctx_for(&opened, 50);
    // The record re-derives to seed 1; presenting it at seed 2's address is
    // a substitution.
    tctx.escrow_address = escrow_address(MAKER, 2);
    let before = tctx;
    let r = escrow::take(&mut tctx);
    assert_eq!(r, Err(EscrowError::DerivationMismatch));
    assert_eq!(tctx, before);
}

#[test]
fn substituted_record_rejected_on_refund() {
    let opened = opened_escrow();
    let mut rctx = refund_ctx_for(&opened);
    rctx.escrow_address = escrow_address(TAKER, 1);
    let before = rctx;
    let r = escrow::refund(&mut rctx);
    assert_eq!(r, Err(EscrowError::DerivationMismatch));
    assert_eq!(rctx, before);
}

#[test]
fn take_short_of_payment_leaves_escrow_open() {
    let opened = opened_escrow();
    let mut tctx = take_ctx_for(&opened, 49);
    let before = tctx;
    let r = escrow::take(&mut tctx);
    assert_eq!(r, Err(EscrowError::InsufficientFunds));
    assert_eq!(tctx, before);
    // The escrow stays open for a funded taker.
    tctx.taker_ata_b.amount = 50;
    assert_eq!(escrow::take(&mut tctx), Ok(()));
}

#[test]
fn take_overflowing_maker_account_rejected() {
    let opened = opened_escrow();
    let mut tctx = take_ctx_for(&opened, 50);
    tctx.maker_ata_b.amount = u64::MAX;
    let before = tctx;
    let r = escrow::take(&mut tctx);
    assert_eq!(r, Err(EscrowError::BalanceOverflow));
    assert_eq!(tctx, before);
}

#[test]
fn refund_overflowing_maker_account_rejected() {
    let opened = opened_escrow();
    let mut rctx = refund_ctx_for(&opened);
    rctx.maker_ata_a.amount = u64::MAX;
    let before = rctx;
    let r = escrow::refund(&mut rctx);
    assert_eq!(r, Err(EscrowError::BalanceOverflow));
    assert_eq!(rctx, before);
}

#[test]
fn free_take_of_zero_receive_is_permitted() {
    let mut ctx = make_ctx(100);
    assert_eq!(escrow::make(&mut ctx, 1, 100, 0), Ok(()));
    let mut tctx = take_ctx_for(&ctx, 0);
    assert_eq!(escrow::take(&mut tctx), Ok(()));
    assert_eq!(tctx.taker_ata_a.amount, 100);
    assert_eq!(tctx.maker_ata_b.amount, 0);
}

#[test]
fn whole_balance_escrow_round_trips() {
    let mut ctx = make_ctx(u64::MAX);
    assert_eq!(escrow::make(&mut ctx, 1, u64::MAX, 1), Ok(()));
    assert_eq!(ctx.maker_ata_a.amount, 0);
    let mut rctx = refund_ctx_for(&ctx);
    assert_eq!(escrow::refund(&mut rctx), Ok(()));
    assert_eq!(rctx.maker_ata_a.amount, u64::MAX);
}

#[test]
fn derived_addresses_are_distinct() {
    assert_eq!(escrow_address(MAKER, 1), escrow_address(MAKER, 1));
    assert_ne!(escrow_address(MAKER, 1), escrow_address(MAKER, 2));
    assert_ne!(escrow_address(MAKER, 1), escrow_address(TAKER, 1));
    assert_ne!(escrow_address(MAKER, 1), Address::Party(MAKER));
}

#[test]
fn two_escrows_of_one_maker_are_independent() {
    let mut first = make_ctx(100);
    assert_eq!(escrow::make(&mut first, 1, 60, 50), Ok(()));
    let mut second = make_ctx(40);
    second.maker_ata_a = first.maker_ata_a;
    assert_eq!(escrow::make(&mut second, 2, 40, 10), Ok(()));
    assert_eq!(second.maker_ata_a.amount, 0);
    // Refunding the second leaves the first untouched and live.
    let mut rctx = Refund {
        maker: MAKER,
        mint_a: MINT_A,
        maker_ata_a: second.maker_ata_a,
        escrow_address: escrow_address(MAKER, 2),
        escrow: second.escrow,
    };
    assert_eq!(escrow::refund(&mut rctx), Ok(()));
    assert_eq!(rctx.maker_ata_a.amount, 40);
    assert!(first.escrow.is_some());
    assert_eq!(first.escrow.unwrap().vault.amount, 60);
}
