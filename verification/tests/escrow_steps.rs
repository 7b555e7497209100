//! The single steps the three operations are built from, exercised directly.

use escrow::error::EscrowError;
use escrow::make::Make;
use escrow::state::escrow_address;
use escrow::state::Address;
use escrow::state::TokenAccount;
use escrow::take::Take;

#[test]
fn save_escrow_writes_record_and_empty_vault() {
    let mut ctx = Make {
        maker: 7,
        mint_a: 1,
        mint_b: 2,
        maker_ata_a: TokenAccount {
            mint: 1,
            authority: Address::Party(7),
            amount: 100,
        },
        escrow: None,
    };
    assert_eq!(ctx.save_escrow(5, 50), Ok(()));
    let pair = ctx.escrow.unwrap();
    assert_eq!(pair.record.seed, 5);
    assert_eq!(pair.vault.amount, 0);
    assert_eq!(pair.vault.authority, escrow_address(7, 5));
    // The deposit then moves the funds in.
    assert_eq!(ctx.deposit(100), Ok(()));
    assert_eq!(ctx.maker_ata_a.amount, 0);
    assert_eq!(ctx.escrow.unwrap().vault.amount, 100);
}

#[test]
fn deposit_without_record_rejected() {
    let mut ctx = Make {
        maker: 7,
        mint_a: 1,
        mint_b: 2,
        maker_ata_a: TokenAccount {
            mint: 1,
            authority: Address::Party(7),
            amount: 100,
        },
        escrow: None,
    };
    let before = ctx;
    assert_eq!(ctx.deposit(10), Err(EscrowError::EscrowNotFound));
    assert_eq!(ctx, before);
}

#[test]
fn payment_leg_moves_only_asset_b() {
    let mut mctx = Make {
        maker: 7,
        mint_a: 1,
        mint_b: 2,
        maker_ata_a: TokenAccount {
            mint: 1,
            authority: Address::Party(7),
            amount: 100,
        },
        escrow: None,
    };
    assert_eq!(escrow::make(&mut mctx, 1, 100, 50), Ok(()));
    let mut tctx = Take {
        taker: 9,
        mint_a: 1,
        mint_b: 2,
        taker_ata_a: TokenAccount {
            mint: 1,
            authority: Address::Party(9),
            amount: 3,
        },
        taker_ata_b: TokenAccount {
            mint: 2,
            authority: Address::Party(9),
            amount: 80,
        },
        maker_ata_b: TokenAccount {
            mint: 2,
            authority: Address::Party(7),
            amount: 4,
        },
        escrow_address: escrow_address(7, 1),
        escrow: mctx.escrow,
    };
    assert_eq!(tctx.deposit(), Ok(()));
    assert_eq!(tctx.taker_ata_b.amount, 30);
    assert_eq!(tctx.maker_ata_b.amount, 54);
    assert_eq!(tctx.taker_ata_a.amount, 3);
    assert!(tctx.escrow.is_some());
    // The withdrawal leg then empties the vault and closes the pair.
    assert_eq!(tctx.withdraw_and_close_account(), Ok(()));
    assert_eq!(tctx.taker_ata_a.amount, 103);
    assert_eq!(tctx.escrow, None);
}
