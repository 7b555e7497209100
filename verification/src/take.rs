//! Take: any taker fulfils an open escrow. The taker pays the maker the
//! demanded quantity of the counter-asset and receives the vault's whole
//! balance; the record/vault pair is destroyed. One atomic unit: there is no
//! state in which one leg has happened and the other has not.

use vstd::prelude::*;

use crate::error::EscrowError;
use crate::state::derived_address;
use crate::state::Address;
use crate::state::EscrowPair;
use crate::state::TokenAccount;

verus! {

/// The accounts a take instruction runs against. `taker` is the
/// transaction's authenticated signer — any party may take; `escrow` is
/// whatever lives at the address the caller pointed at (`escrow_address`),
/// `None` if nothing does.
#[derive(Clone, Copy, PartialEq, Eq, Structural, Debug)]
pub struct Take {
    /// The authenticated signer; no identity restriction.
    pub taker: u64,
    /// The asset the caller says the escrow deposited.
    pub mint_a: u64,
    /// The asset the caller says the maker demands.
    pub mint_b: u64,
    /// The taker's holding account for `mint_a`, destination of the proceeds.
    pub taker_ata_a: TokenAccount,
    /// The taker's holding account for `mint_b`, source of the payment.
    pub taker_ata_b: TokenAccount,
    /// The maker's holding account for `mint_b`, destination of the payment.
    pub maker_ata_b: TokenAccount,
    /// The address the caller pointed at.
    pub escrow_address: Address,
    /// What lives at that address.
    pub escrow: Option<EscrowPair>,
}

/// First reason a take would be rejected, or `None` when it must succeed, in
/// the order [`crate::take`] tests them: the record must exist and re-derive
/// to the presented address; record, vault and every holding account must
/// agree on the two assets; custody must be held as the protocol demands;
/// the taker must hold the demanded payment; and both destinations must have
/// room.
pub open spec fn take_check(ctx: Take) -> Option<EscrowError> {
    if ctx.escrow is None {
        Some(EscrowError::EscrowNotFound)
    } else {
        let pair = ctx.escrow->Some_0;
        if ctx.escrow_address != derived_address(pair.record.maker, pair.record.seed) {
            Some(EscrowError::DerivationMismatch)
        } else if pair.record.mint_a != ctx.mint_a {
            Some(EscrowError::AssetMismatch)
        } else if pair.record.mint_b != ctx.mint_b {
            Some(EscrowError::AssetMismatch)
        } else if pair.vault.mint != ctx.mint_a {
            Some(EscrowError::AssetMismatch)
        } else if pair.vault.authority != ctx.escrow_address {
            Some(EscrowError::AuthorityMismatch)
        } else if ctx.taker_ata_b.mint != ctx.mint_b {
            Some(EscrowError::AssetMismatch)
        } else if ctx.taker_ata_b.authority != Address::Party(ctx.taker) {
            Some(EscrowError::AuthorityMismatch)
        } else if ctx.maker_ata_b.mint != ctx.mint_b {
            Some(EscrowError::AssetMismatch)
        } else if ctx.maker_ata_b.authority != Address::Party(pair.record.maker) {
            Some(EscrowError::AuthorityMismatch)
        } else if ctx.taker_ata_a.mint != ctx.mint_a {
            Some(EscrowError::AssetMismatch)
        } else if ctx.taker_ata_a.authority != Address::Party(ctx.taker) {
            Some(EscrowError::AuthorityMismatch)
        } else if ctx.taker_ata_b.amount < pair.record.receive {
            Some(EscrowError::InsufficientFunds)
        } else if ctx.maker_ata_b.amount + pair.record.receive > u64::MAX {
            Some(EscrowError::BalanceOverflow)
        } else if ctx.taker_ata_a.amount + pair.vault.amount > u64::MAX {
            Some(EscrowError::BalanceOverflow)
        } else {
            None
        }
    }
}

/// The atomic outcome of a take: on the first failed check the state is
/// returned untouched with that error; otherwise the taker has paid the
/// maker exactly the demanded amount, received the vault's whole balance,
/// and the pair no longer exists.
pub open spec fn take_transition(ctx: Take) -> (Take, Result<(), EscrowError>) {
    match take_check(ctx) {
        Some(e) => (ctx, Err(e)),
        None => {
            let pair = ctx.escrow->Some_0;
            (
                Take {
                    taker_ata_b: TokenAccount {
                        amount: (ctx.taker_ata_b.amount - pair.record.receive) as u64,
                        ..ctx.taker_ata_b
                    },
                    maker_ata_b: TokenAccount {
                        amount: (ctx.maker_ata_b.amount + pair.record.receive) as u64,
                        ..ctx.maker_ata_b
                    },
                    taker_ata_a: TokenAccount {
                        amount: (ctx.taker_ata_a.amount + pair.vault.amount) as u64,
                        ..ctx.taker_ata_a
                    },
                    escrow: None,
                    ..ctx
                },
                Ok(()),
            )
        },
    }
}

/// First reason the payment leg alone would be rejected, in the order
/// [`Take::deposit`] tests them.
pub open spec fn pay_check(ctx: Take) -> Option<EscrowError> {
    if ctx.escrow is None {
        Some(EscrowError::EscrowNotFound)
    } else {
        let pair = ctx.escrow->Some_0;
        if pair.record.mint_b != ctx.mint_b {
            Some(EscrowError::AssetMismatch)
        } else if ctx.taker_ata_b.mint != ctx.mint_b {
            Some(EscrowError::AssetMismatch)
        } else if ctx.taker_ata_b.authority != Address::Party(ctx.taker) {
            Some(EscrowError::AuthorityMismatch)
        } else if ctx.maker_ata_b.mint != ctx.mint_b {
            Some(EscrowError::AssetMismatch)
        } else if ctx.maker_ata_b.authority != Address::Party(pair.record.maker) {
            Some(EscrowError::AuthorityMismatch)
        } else if ctx.taker_ata_b.amount < pair.record.receive {
            Some(EscrowError::InsufficientFunds)
        } else if ctx.maker_ata_b.amount + pair.record.receive > u64::MAX {
            Some(EscrowError::BalanceOverflow)
        } else {
            None
        }
    }
}

/// First reason the withdrawal-and-closure leg alone would be rejected, in
/// the order [`Take::withdraw_and_close_account`] tests them.
pub open spec fn withdraw_check(ctx: Take) -> Option<EscrowError> {
    if ctx.escrow is None {
        Some(EscrowError::EscrowNotFound)
    } else {
        let pair = ctx.escrow->Some_0;
        if ctx.escrow_address != derived_address(pair.record.maker, pair.record.seed) {
            Some(EscrowError::DerivationMismatch)
        } else if pair.record.mint_a != ctx.mint_a {
            Some(EscrowError::AssetMismatch)
        } else if pair.vault.mint != ctx.mint_a {
            Some(EscrowError::AssetMismatch)
        } else if pair.vault.authority != ctx.escrow_address {
            Some(EscrowError::AuthorityMismatch)
        } else if ctx.taker_ata_a.mint != ctx.mint_a {
            Some(EscrowError::AssetMismatch)
        } else if ctx.taker_ata_a.authority != Address::Party(ctx.taker) {
            Some(EscrowError::AuthorityMismatch)
        } else if ctx.taker_ata_a.amount + pair.vault.amount > u64::MAX {
            Some(EscrowError::BalanceOverflow)
        } else {
            None
        }
    }
}

impl Take {
    /// The payment leg: moves the demanded quantity of `mint_b` from the
    /// taker's holding account to the maker's, with the transfer primitive's
    /// own checks. [`crate::take`] performs it together with the withdrawal
    /// as one atomic unit.
    pub fn deposit(&mut self) -> (r: Result<(), EscrowError>)
        ensures
            match pay_check(*old(self)) {
                Some(e) => r == Err::<(), EscrowError>(e) && *final(self) == *old(self),
                None => r == Ok::<(), EscrowError>(()) && *final(self) == (Take {
                    taker_ata_b: TokenAccount {
                        amount: (old(self).taker_ata_b.amount
                            - old(self).escrow->Some_0.record.receive) as u64,
                        ..old(self).taker_ata_b
                    },
                    maker_ata_b: TokenAccount {
                        amount: (old(self).maker_ata_b.amount
                            + old(self).escrow->Some_0.record.receive) as u64,
                        ..old(self).maker_ata_b
                    },
                    ..*old(self)
                }),
            },
    {
        let pair = match self.escrow {
            None => {
                return Err(EscrowError::EscrowNotFound);
            },
            Some(p) => p,
        };
        if pair.record.mint_b != self.mint_b {
            return Err(EscrowError::AssetMismatch);
        }
        if self.taker_ata_b.mint != self.mint_b {
            return Err(EscrowError::AssetMismatch);
        }
        if self.taker_ata_b.authority != (Address::Party(self.taker)) {
            return Err(EscrowError::AuthorityMismatch);
        }
        if self.maker_ata_b.mint != self.mint_b {
            return Err(EscrowError::AssetMismatch);
        }
        if self.maker_ata_b.authority != (Address::Party(pair.record.maker)) {
            return Err(EscrowError::AuthorityMismatch);
        }
        if self.taker_ata_b.amount < pair.record.receive {
            return Err(EscrowError::InsufficientFunds);
        }
        if self.maker_ata_b.amount > u64::MAX - pair.record.receive {
            return Err(EscrowError::BalanceOverflow);
        }
        self.taker_ata_b.amount = self.taker_ata_b.amount - pair.record.receive;
        self.maker_ata_b.amount = self.maker_ata_b.amount + pair.record.receive;
        Ok(())
    }

    /// The withdrawal leg: verifies the presented record/vault pair, moves
    /// the vault's whole balance to the taker — authorized by the record's
    /// own derived address, never by a party's key — and closes vault and
    /// record.
    pub fn withdraw_and_close_account(&mut self) -> (r: Result<(), EscrowError>)
        ensures
            match withdraw_check(*old(self)) {
                Some(e) => r == Err::<(), EscrowError>(e) && *final(self) == *old(self),
                None => r == Ok::<(), EscrowError>(()) && *final(self) == (Take {
                    taker_ata_a: TokenAccount {
                        amount: (old(self).taker_ata_a.amount
                            + old(self).escrow->Some_0.vault.amount) as u64,
                        ..old(self).taker_ata_a
                    },
                    escrow: None,
                    ..*old(self)
                }),
            },
    {
        let pair = match self.escrow {
            None => {
                return Err(EscrowError::EscrowNotFound);
            },
            Some(p) => p,
        };
        // Recompute-and-compare: a record that does not re-derive to the
        // address it was presented at is forged or substituted.
        let derived = crate::state::escrow_address(pair.record.maker, pair.record.seed);
        if self.escrow_address != derived {
            return Err(EscrowError::DerivationMismatch);
        }
        if pair.record.mint_a != self.mint_a {
            return Err(EscrowError::AssetMismatch);
        }
        if pair.vault.mint != self.mint_a {
            return Err(EscrowError::AssetMismatch);
        }
        if pair.vault.authority != self.escrow_address {
            return Err(EscrowError::AuthorityMismatch);
        }
        if self.taker_ata_a.mint != self.mint_a {
            return Err(EscrowError::AssetMismatch);
        }
        if self.taker_ata_a.authority != (Address::Party(self.taker)) {
            return Err(EscrowError::AuthorityMismatch);
        }
        if self.taker_ata_a.amount > u64::MAX - pair.vault.amount {
            return Err(EscrowError::BalanceOverflow);
        }
        // Move the whole balance out, then destroy vault and record: no dust
        // stays behind, and the escrow stops resolving.
        self.taker_ata_a.amount = self.taker_ata_a.amount + pair.vault.amount;
        self.escrow = None;
        Ok(())
    }
}

} // verus!
