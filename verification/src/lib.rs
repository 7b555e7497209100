//! A trustless two-party escrow over a custody ledger.
//!
//! A maker locks a deposit of one fungible asset in a vault and names the
//! quantity of another asset wanted in return; any taker may fulfil the trade
//! atomically, or the maker may cancel and reclaim the deposit. Each
//! operation is one atomic transition: it either applies all of its effects
//! or rejects with an [`error::EscrowError`] and leaves every account exactly
//! as it was.

use vstd::prelude::*;

pub mod error;
pub mod laws;
pub mod make;
pub mod refund;
pub mod state;
pub mod take;

verus! {

use crate::error::EscrowError;
use crate::make::make_check;
use crate::make::make_transition;
use crate::make::Make;

/// Opens an escrow: creates the record/vault pair at the derived address of
/// `(ctx.maker, seed)` and moves `deposit` units of `mint_a` from the maker's
/// holding account into the vault, as one atomic unit.
///
/// On success the pair exists, well-formed, with the vault holding exactly
/// the deposit, and the maker's balance has dropped by exactly the deposit;
/// nothing else changed. On any failed check — address in use, wrong funding
/// account, or a deposit above the maker's balance — the whole operation
/// aborts and the state is exactly as it was.
pub fn make(ctx: &mut Make, seed: u64, deposit: u64, receive: u64) -> (r: Result<
    (),
    EscrowError,
>)
    ensures
        *final(ctx) == make_transition(*old(ctx), seed, deposit, receive).0,
        r == make_transition(*old(ctx), seed, deposit, receive).1,
        r is Ok <==> make_check(*old(ctx), deposit) is None,
        r is Err ==> *final(ctx) == *old(ctx),
        r is Ok ==> {
            &&& final(ctx).escrow == Some(
                crate::make::made_pair(*old(ctx), seed, deposit, receive),
            )
            &&& final(ctx).escrow->Some_0.wf()
            &&& final(ctx).maker_ata_a.amount == old(ctx).maker_ata_a.amount - deposit
        },
{
    if ctx.escrow.is_some() {
        return Err(EscrowError::AddressInUse);
    }
    if ctx.maker_ata_a.mint != ctx.mint_a {
        return Err(EscrowError::AssetMismatch);
    }
    if ctx.maker_ata_a.authority != (crate::state::Address::Party(ctx.maker)) {
        return Err(EscrowError::AuthorityMismatch);
    }
    if ctx.maker_ata_a.amount < deposit {
        return Err(EscrowError::InsufficientFunds);
    }
    // Every check of both steps has passed: from here the whole instruction
    // goes through, which is what makes the two steps one atomic unit.
    let saved = ctx.save_escrow(seed, receive);
    assert(saved is Ok);
    let deposited = ctx.deposit(deposit);
    assert(deposited is Ok);
    Ok(())
}

/// Cancels an open escrow: returns the vault's whole balance to the maker's
/// holding account and destroys the record/vault pair, as one atomic unit.
///
/// Only the record's maker may refund; the record must re-derive to the
/// presented address and the vault must match the record's asset and be in
/// the record's custody, else the operation aborts with the state exactly as
/// it was.
pub fn refund(ctx: &mut crate::refund::Refund) -> (r: Result<(), EscrowError>)
    ensures
        *final(ctx) == crate::refund::refund_transition(*old(ctx)).0,
        r == crate::refund::refund_transition(*old(ctx)).1,
        r is Ok <==> crate::refund::refund_check(*old(ctx)) is None,
        r is Err ==> *final(ctx) == *old(ctx),
        r is Ok ==> {
            &&& final(ctx).escrow is None
            &&& final(ctx).maker_ata_a.amount == old(ctx).maker_ata_a.amount + old(
                ctx,
            ).escrow->Some_0.vault.amount
        },
{
    ctx.refund_and_close_vault()
}

/// Fulfils an open escrow: the taker pays the maker exactly the demanded
/// quantity of `mint_b` and receives the vault's whole `mint_a` balance; the
/// record/vault pair is destroyed. One atomic unit: a failure anywhere —
/// missing or forged record, wrong asset on either leg, a taker short of the
/// payment — aborts the whole operation with the state exactly as it was, so
/// there is no state in which the maker was paid but the taker was not, or
/// the reverse.
pub fn take(ctx: &mut crate::take::Take) -> (r: Result<(), EscrowError>)
    ensures
        *final(ctx) == crate::take::take_transition(*old(ctx)).0,
        r == crate::take::take_transition(*old(ctx)).1,
        r is Ok <==> crate::take::take_check(*old(ctx)) is None,
        r is Err ==> *final(ctx) == *old(ctx),
        r is Ok ==> {
            &&& final(ctx).escrow is None
            &&& final(ctx).maker_ata_b.amount == old(ctx).maker_ata_b.amount + old(
                ctx,
            ).escrow->Some_0.record.receive
            &&& final(ctx).taker_ata_b.amount == old(ctx).taker_ata_b.amount - old(
                ctx,
            ).escrow->Some_0.record.receive
            &&& final(ctx).taker_ata_a.amount == old(ctx).taker_ata_a.amount + old(
                ctx,
            ).escrow->Some_0.vault.amount
        },
{
    let pair = match ctx.escrow {
        None => {
            return Err(EscrowError::EscrowNotFound);
        },
        Some(p) => p,
    };
    let derived = crate::state::escrow_address(pair.record.maker, pair.record.seed);
    if ctx.escrow_address != derived {
        return Err(EscrowError::DerivationMismatch);
    }
    if pair.record.mint_a != ctx.mint_a {
        return Err(EscrowError::AssetMismatch);
    }
    if pair.record.mint_b != ctx.mint_b {
        return Err(EscrowError::AssetMismatch);
    }
    if pair.vault.mint != ctx.mint_a {
        return Err(EscrowError::AssetMismatch);
    }
    if pair.vault.authority != ctx.escrow_address {
        return Err(EscrowError::AuthorityMismatch);
    }
    if ctx.taker_ata_b.mint != ctx.mint_b {
        return Err(EscrowError::AssetMismatch);
    }
    if ctx.taker_ata_b.authority != (crate::state::Address::Party(ctx.taker)) {
        return Err(EscrowError::AuthorityMismatch);
    }
    if ctx.maker_ata_b.mint != ctx.mint_b {
        return Err(EscrowError::AssetMismatch);
    }
    if ctx.maker_ata_b.authority != (crate::state::Address::Party(pair.record.maker)) {
        return Err(EscrowError::AuthorityMismatch);
    }
    if ctx.taker_ata_a.mint != ctx.mint_a {
        return Err(EscrowError::AssetMismatch);
    }
    if ctx.taker_ata_a.authority != (crate::state::Address::Party(ctx.taker)) {
        return Err(EscrowError::AuthorityMismatch);
    }
    if ctx.taker_ata_b.amount < pair.record.receive {
        return Err(EscrowError::InsufficientFunds);
    }
    if ctx.maker_ata_b.amount > u64::MAX - pair.record.receive {
        return Err(EscrowError::BalanceOverflow);
    }
    if ctx.taker_ata_a.amount > u64::MAX - pair.vault.amount {
        return Err(EscrowError::BalanceOverflow);
    }
    // Every check of both legs has passed: from here the whole instruction
    // goes through, which is what makes the two transfers and the closure one
    // atomic unit.
    let paid = ctx.deposit();
    assert(paid is Ok);
    let withdrawn = ctx.withdraw_and_close_account();
    assert(withdrawn is Ok);
    Ok(())
}

} // verus!
