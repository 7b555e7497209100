//! Make: a maker opens an escrow, creating the record/vault pair at the
//! derived address and moving the deposit into the vault, all as one atomic
//! unit.

use vstd::prelude::*;

use crate::error::EscrowError;
use crate::state::derived_address;
use crate::state::Address;
use crate::state::Escrow;
use crate::state::EscrowPair;
use crate::state::TokenAccount;

verus! {

/// The accounts a make instruction runs against, as the ledger runtime hands
/// them to the protocol: the maker is the transaction's authenticated signer,
/// and `escrow` is whatever lives at `derived_address(maker, seed)` for the
/// seed the instruction names — `None` while that address is vacant.
#[derive(Clone, Copy, PartialEq, Eq, Structural, Debug)]
pub struct Make {
    /// The authenticated signer; becomes the record's maker.
    pub maker: u64,
    /// Asset to be deposited.
    pub mint_a: u64,
    /// Asset the maker demands in return.
    pub mint_b: u64,
    /// The maker's holding account for `mint_a`, the source of the deposit.
    pub maker_ata_a: TokenAccount,
    /// The account at the derived address of `(maker, seed)`.
    pub escrow: Option<EscrowPair>,
}

/// First reason a make of `deposit` units would be rejected, or `None` when
/// it must succeed. Checked in this order: the derived address must be
/// vacant, the funding account must be the maker's own `mint_a` account, and
/// it must hold the deposit.
pub open spec fn make_check(ctx: Make, deposit: u64) -> Option<EscrowError> {
    if ctx.escrow is Some {
        Some(EscrowError::AddressInUse)
    } else if ctx.maker_ata_a.mint != ctx.mint_a {
        Some(EscrowError::AssetMismatch)
    } else if ctx.maker_ata_a.authority != Address::Party(ctx.maker) {
        Some(EscrowError::AuthorityMismatch)
    } else if ctx.maker_ata_a.amount < deposit {
        Some(EscrowError::InsufficientFunds)
    } else {
        None
    }
}

/// The record/vault pair a successful make leaves at the derived address:
/// every record field fixed from the instruction, and the vault holding
/// exactly the deposit under the record's own authority.
pub open spec fn made_pair(ctx: Make, seed: u64, deposit: u64, receive: u64) -> EscrowPair {
    EscrowPair {
        record: Escrow {
            seed,
            maker: ctx.maker,
            mint_a: ctx.mint_a,
            mint_b: ctx.mint_b,
            receive,
        },
        vault: TokenAccount {
            mint: ctx.mint_a,
            authority: derived_address(ctx.maker, seed),
            amount: deposit,
        },
    }
}

/// The atomic outcome of a make: on the first failed check the state is
/// returned untouched with that error; otherwise the pair appears at the
/// derived address and the maker's balance drops by exactly the deposit.
pub open spec fn make_transition(ctx: Make, seed: u64, deposit: u64, receive: u64) -> (
    Make,
    Result<(), EscrowError>,
) {
    match make_check(ctx, deposit) {
        Some(e) => (ctx, Err(e)),
        None => (
            Make {
                maker: ctx.maker,
                mint_a: ctx.mint_a,
                mint_b: ctx.mint_b,
                maker_ata_a: TokenAccount {
                    mint: ctx.maker_ata_a.mint,
                    authority: ctx.maker_ata_a.authority,
                    amount: (ctx.maker_ata_a.amount - deposit) as u64,
                },
                escrow: Some(made_pair(ctx, seed, deposit, receive)),
            },
            Ok(()),
        ),
    }
}

impl Make {
    /// Writes the record and its empty vault at the derived address, which
    /// must still be vacant. Moving the deposit in is [`Make::deposit`]'s
    /// step; [`crate::make`] performs both as one atomic unit.
    pub fn save_escrow(&mut self, seed: u64, receive: u64) -> (r: Result<(), EscrowError>)
        ensures
            old(self).escrow is Some ==> r == Err::<(), EscrowError>(EscrowError::AddressInUse)
                && *final(self) == *old(self),
            old(self).escrow is None ==> r == Ok::<(), EscrowError>(()) && *final(self) == (Make {
                escrow: Some(
                    EscrowPair {
                        record: Escrow {
                            seed,
                            maker: old(self).maker,
                            mint_a: old(self).mint_a,
                            mint_b: old(self).mint_b,
                            receive,
                        },
                        vault: TokenAccount {
                            mint: old(self).mint_a,
                            authority: derived_address(old(self).maker, seed),
                            amount: 0,
                        },
                    },
                ),
                ..*old(self)
            }),
    {
        if self.escrow.is_some() {
            return Err(EscrowError::AddressInUse);
        }
        let record = Escrow {
            seed,
            maker: self.maker,
            mint_a: self.mint_a,
            mint_b: self.mint_b,
            receive,
        };
        let vault = TokenAccount {
            mint: self.mint_a,
            authority: crate::state::escrow_address(record.maker, record.seed),
            amount: 0,
        };
        self.escrow = Some(EscrowPair { record, vault });
        Ok(())
    }

    /// Moves `amount` of `mint_a` from the maker's holding account into the
    /// vault, with the transfer primitive's own checks: asset identity on
    /// both legs, custody authority of the source, source balance, and room
    /// in the destination.
    pub fn deposit(&mut self, amount: u64) -> (r: Result<(), EscrowError>)
        ensures
            match deposit_check(*old(self), amount) {
                Some(e) => r == Err::<(), EscrowError>(e) && *final(self) == *old(self),
                None => r == Ok::<(), EscrowError>(()) && *final(self) == (Make {
                    maker_ata_a: TokenAccount {
                        amount: (old(self).maker_ata_a.amount - amount) as u64,
                        ..old(self).maker_ata_a
                    },
                    escrow: Some(
                        EscrowPair {
                            vault: TokenAccount {
                                amount: (old(self).escrow->Some_0.vault.amount + amount) as u64,
                                ..old(self).escrow->Some_0.vault
                            },
                            ..old(self).escrow->Some_0
                        },
                    ),
                    ..*old(self)
                }),
            },
    {
        let pair = match self.escrow {
            None => {
                return Err(EscrowError::EscrowNotFound);
            },
            Some(p) => p,
        };
        if self.maker_ata_a.mint != self.mint_a {
            return Err(EscrowError::AssetMismatch);
        }
        if self.maker_ata_a.authority != (Address::Party(self.maker)) {
            return Err(EscrowError::AuthorityMismatch);
        }
        if self.maker_ata_a.amount < amount {
            return Err(EscrowError::InsufficientFunds);
        }
        if pair.vault.mint != self.mint_a {
            return Err(EscrowError::AssetMismatch);
        }
        if pair.vault.amount > u64::MAX - amount {
            return Err(EscrowError::BalanceOverflow);
        }
        self.maker_ata_a.amount = self.maker_ata_a.amount - amount;
        self.escrow = Some(
            EscrowPair {
                record: pair.record,
                vault: TokenAccount {
                    mint: pair.vault.mint,
                    authority: pair.vault.authority,
                    amount: pair.vault.amount + amount,
                },
            },
        );
        Ok(())
    }
}

/// First reason moving `amount` into the vault would be rejected, in the
/// order [`Make::deposit`] tests them.
pub open spec fn deposit_check(ctx: Make, amount: u64) -> Option<EscrowError> {
    if ctx.escrow is None {
        Some(EscrowError::EscrowNotFound)
    } else if ctx.maker_ata_a.mint != ctx.mint_a {
        Some(EscrowError::AssetMismatch)
    } else if ctx.maker_ata_a.authority != Address::Party(ctx.maker) {
        Some(EscrowError::AuthorityMismatch)
    } else if ctx.maker_ata_a.amount < amount {
        Some(EscrowError::InsufficientFunds)
    } else if ctx.escrow->Some_0.vault.mint != ctx.mint_a {
        Some(EscrowError::AssetMismatch)
    } else if ctx.escrow->Some_0.vault.amount + amount > u64::MAX {
        Some(EscrowError::BalanceOverflow)
    } else {
        None
    }
}

} // verus!
