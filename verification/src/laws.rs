//! The protocol's laws, stated over the transition functions and proved once
//! and for all: what a round trip restores, when fulfilment is owed, that a
//! closed escrow is terminal, and that a mismatched vault is always rejected.

use vstd::prelude::*;

use crate::error::EscrowError;
use crate::make::make_check;
use crate::make::make_transition;
use crate::make::Make;
use crate::refund::refund_check;
use crate::refund::refund_transition;
use crate::refund::Refund;
use crate::state::derived_address;
use crate::state::Address;
use crate::take::take_check;
use crate::take::take_transition;
use crate::take::Take;

verus! {

/// Derived addresses form a registry-free namespace: `(maker, seed)`
/// determines the escrow's address uniquely, two distinct pairs can never
/// collide, and no derived address is a party's own key — so custody held by
/// a derived address is out of every party's direct reach.
pub proof fn lemma_derivation_unique(m1: u64, s1: u64, m2: u64, s2: u64)
    ensures
        derived_address(m1, s1) == derived_address(m2, s2) <==> (m1 == m2 && s1 == s2),
        derived_address(m1, s1) != Address::Party(m2),
{
}

/// A make followed by a refund of the same escrow is a complete round trip:
/// the refund is owed, the maker's asset-A holding account returns exactly to
/// its value before the make, and the record/vault pair no longer exists.
pub proof fn lemma_refund_restores_maker(ctx: Make, seed: u64, deposit: u64, receive: u64)
    requires
        make_check(ctx, deposit) is None,
    ensures
        ({
            let after_make = make_transition(ctx, seed, deposit, receive).0;
            let rctx = Refund {
                maker: ctx.maker,
                mint_a: ctx.mint_a,
                maker_ata_a: after_make.maker_ata_a,
                escrow_address: derived_address(ctx.maker, seed),
                escrow: after_make.escrow,
            };
            &&& refund_check(rctx) is None
            &&& refund_transition(rctx).0.maker_ata_a == ctx.maker_ata_a
            &&& refund_transition(rctx).0.escrow is None
        }),
{
}

/// Fulfilment is owed: on a well-formed open escrow, presented with matching
/// holding accounts and a taker who holds at least the demanded payment, take
/// succeeds; the maker's asset-B balance grows by exactly the demanded
/// amount, the taker's asset-A balance by exactly the vault's whole balance,
/// the taker pays exactly the demanded amount, and the pair no longer
/// exists. The two bounds on the destination balances leave out only inputs
/// on which the token primitive itself would refuse the transfer.
pub proof fn lemma_take_fulfils(ctx: Take)
    requires
        ctx.escrow is Some,
        ctx.escrow->Some_0.wf(),
        ctx.escrow_address == derived_address(
            ctx.escrow->Some_0.record.maker,
            ctx.escrow->Some_0.record.seed,
        ),
        ctx.mint_a == ctx.escrow->Some_0.record.mint_a,
        ctx.mint_b == ctx.escrow->Some_0.record.mint_b,
        ctx.taker_ata_b.mint == ctx.mint_b,
        ctx.taker_ata_b.authority == Address::Party(ctx.taker),
        ctx.maker_ata_b.mint == ctx.mint_b,
        ctx.maker_ata_b.authority == Address::Party(ctx.escrow->Some_0.record.maker),
        ctx.taker_ata_a.mint == ctx.mint_a,
        ctx.taker_ata_a.authority == Address::Party(ctx.taker),
        ctx.taker_ata_b.amount >= ctx.escrow->Some_0.record.receive,
        ctx.maker_ata_b.amount + ctx.escrow->Some_0.record.receive <= u64::MAX,
        ctx.taker_ata_a.amount + ctx.escrow->Some_0.vault.amount <= u64::MAX,
    ensures
        take_check(ctx) is None,
        ({
            let pair = ctx.escrow->Some_0;
            let after = take_transition(ctx).0;
            &&& after.maker_ata_b.amount == ctx.maker_ata_b.amount + pair.record.receive
            &&& after.taker_ata_b.amount == ctx.taker_ata_b.amount - pair.record.receive
            &&& after.taker_ata_a.amount == ctx.taker_ata_a.amount + pair.vault.amount
            &&& after.escrow is None
        }),
{
}

/// A closed escrow is terminal: once nothing lives at the address — as after
/// every successful take or refund — any further take or refund of it fails
/// with the state error and returns the state untouched.
pub proof fn lemma_closed_is_terminal(tctx: Take, rctx: Refund)
    requires
        tctx.escrow is None,
        rctx.escrow is None,
    ensures
        take_transition(tctx) == (tctx, Err::<(), EscrowError>(EscrowError::EscrowNotFound)),
        refund_transition(rctx) == (rctx, Err::<(), EscrowError>(EscrowError::EscrowNotFound)),
{
}

/// A vault whose declared asset differs from the record's deposited asset is
/// rejected by both take and refund, whatever else is presented: the
/// operation fails and the state is returned untouched.
pub proof fn lemma_mismatched_vault_rejected(tctx: Take, rctx: Refund)
    requires
        tctx.escrow is Some,
        tctx.escrow->Some_0.vault.mint != tctx.escrow->Some_0.record.mint_a,
        rctx.escrow is Some,
        rctx.escrow->Some_0.vault.mint != rctx.escrow->Some_0.record.mint_a,
    ensures
        take_check(tctx) is Some,
        take_transition(tctx).0 == tctx,
        take_transition(tctx).1 is Err,
        refund_check(rctx) is Some,
        refund_transition(rctx).0 == rctx,
        refund_transition(rctx).1 is Err,
{
}

} // verus!
