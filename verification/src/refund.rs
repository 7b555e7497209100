//! Refund: the maker cancels an open, unfulfilled escrow. The vault's whole
//! balance returns to the maker's holding account and the record/vault pair
//! is destroyed, all as one atomic unit.

use vstd::prelude::*;

use crate::error::EscrowError;
use crate::state::derived_address;
use crate::state::Address;
use crate::state::EscrowPair;
use crate::state::TokenAccount;

verus! {

/// The accounts a refund instruction runs against. `maker` is the
/// transaction's authenticated signer; `escrow` is whatever lives at the
/// address the caller pointed at (`escrow_address`), `None` if nothing does.
#[derive(Clone, Copy, PartialEq, Eq, Structural, Debug)]
pub struct Refund {
    /// The authenticated signer, claiming to be the record's maker.
    pub maker: u64,
    /// The asset the caller says the escrow deposited.
    pub mint_a: u64,
    /// The maker's holding account for `mint_a`, destination of the refund.
    pub maker_ata_a: TokenAccount,
    /// The address the caller pointed at.
    pub escrow_address: Address,
    /// What lives at that address.
    pub escrow: Option<EscrowPair>,
}

/// First reason a refund would be rejected, or `None` when it must succeed,
/// in the order [`Refund::refund_and_close_vault`] tests them: the record
/// must exist, the signer must be its maker, the record must re-derive to
/// the presented address, record, vault and destination must agree on the
/// asset, custody must be held as the protocol demands, and the maker's
/// account must have room for the vault's balance.
pub open spec fn refund_check(ctx: Refund) -> Option<EscrowError> {
    if ctx.escrow is None {
        Some(EscrowError::EscrowNotFound)
    } else {
        let pair = ctx.escrow->Some_0;
        if pair.record.maker != ctx.maker {
            Some(EscrowError::UnauthorizedSigner)
        } else if ctx.escrow_address != derived_address(pair.record.maker, pair.record.seed) {
            Some(EscrowError::DerivationMismatch)
        } else if pair.record.mint_a != ctx.mint_a {
            Some(EscrowError::AssetMismatch)
        } else if pair.vault.mint != ctx.mint_a {
            Some(EscrowError::AssetMismatch)
        } else if pair.vault.authority != ctx.escrow_address {
            Some(EscrowError::AuthorityMismatch)
        } else if ctx.maker_ata_a.mint != ctx.mint_a {
            Some(EscrowError::AssetMismatch)
        } else if ctx.maker_ata_a.authority != Address::Party(ctx.maker) {
            Some(EscrowError::AuthorityMismatch)
        } else if ctx.maker_ata_a.amount + pair.vault.amount > u64::MAX {
            Some(EscrowError::BalanceOverflow)
        } else {
            None
        }
    }
}

/// The atomic outcome of a refund: on the first failed check the state is
/// returned untouched with that error; otherwise the maker's balance grows by
/// exactly the vault's whole balance and the pair no longer exists.
pub open spec fn refund_transition(ctx: Refund) -> (Refund, Result<(), EscrowError>) {
    match refund_check(ctx) {
        Some(e) => (ctx, Err(e)),
        None => (
            Refund {
                maker_ata_a: TokenAccount {
                    amount: (ctx.maker_ata_a.amount + ctx.escrow->Some_0.vault.amount) as u64,
                    ..ctx.maker_ata_a
                },
                escrow: None,
                ..ctx
            },
            Ok(()),
        ),
    }
}

impl Refund {
    /// Verifies the presented record/vault pair, moves the vault's whole
    /// balance back to the maker — authorized by the record's own derived
    /// address, never by a party's key — and closes vault and record.
    pub fn refund_and_close_vault(&mut self) -> (r: Result<(), EscrowError>)
        ensures
            *final(self) == refund_transition(*old(self)).0,
            r == refund_transition(*old(self)).1,
    {
        let pair = match self.escrow {
            None => {
                return Err(EscrowError::EscrowNotFound);
            },
            Some(p) => p,
        };
        // Only the maker may cancel.
        if pair.record.maker != self.maker {
            return Err(EscrowError::UnauthorizedSigner);
        }
        // Recompute-and-compare: a record that does not re-derive to the
        // address it was presented at is forged or substituted.
        let derived = crate::state::escrow_address(pair.record.maker, pair.record.seed);
        if self.escrow_address != derived {
            return Err(EscrowError::DerivationMismatch);
        }
        if pair.record.mint_a != self.mint_a {
            return Err(EscrowError::AssetMismatch);
        }
        if pair.vault.mint != self.mint_a {
            return Err(EscrowError::AssetMismatch);
        }
        if pair.vault.authority != self.escrow_address {
            return Err(EscrowError::AuthorityMismatch);
        }
        if self.maker_ata_a.mint != self.mint_a {
            return Err(EscrowError::AssetMismatch);
        }
        if self.maker_ata_a.authority != (Address::Party(self.maker)) {
            return Err(EscrowError::AuthorityMismatch);
        }
        if self.maker_ata_a.amount > u64::MAX - pair.vault.amount {
            return Err(EscrowError::BalanceOverflow);
        }
        // Move the whole balance back, then destroy vault and record: no
        // dust stays behind, and the escrow stops resolving.
        self.maker_ata_a.amount = self.maker_ata_a.amount + pair.vault.amount;
        self.escrow = None;
        Ok(())
    }
}

} // verus!
