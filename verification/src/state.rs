//! Data model of the custody ledger as the escrow protocol sees it.
//!
//! Parties and fungible assets are named by plain 64-bit identifiers. An
//! account's location is an [`Address`]: either a party's own signing key or
//! an address derived deterministically from a maker's key and a seed, so
//! that an escrow record is reproducibly addressable from `(maker, seed)`
//! alone and the derivation can be checked by recomputing it.

use vstd::prelude::*;

verus! {

/// Location of an account on the custody ledger.
///
/// `Derived` addresses are computed, never signed for: a derived address can
/// never equal a party's key, so custody held by a derived address can only
/// be exercised by the protocol itself.
#[derive(Clone, Copy, PartialEq, Eq, Structural, Debug)]
pub enum Address {
    /// The key of a human party; the party can sign for it.
    Party(u64),
    /// The address derived from a maker's key and a seed.
    Derived { maker: u64, seed: u64 },
}

/// The address at which the escrow record of `(maker, seed)` lives.
///
/// Derivation is deterministic and collision-resistant by construction:
/// two distinct `(maker, seed)` pairs give two distinct addresses, and no
/// derived address equals a party address.
pub open spec fn derived_address(maker: u64, seed: u64) -> Address {
    Address::Derived { maker, seed }
}

/// Recomputes the derived address of `(maker, seed)`; the executable side of
/// [`derived_address`]. Verifying a presented record is recompute-and-compare.
pub fn escrow_address(maker: u64, seed: u64) -> (a: Address)
    ensures
        a == derived_address(maker, seed),
{
    Address::Derived { maker, seed }
}

/// A fungible-asset holding account: which asset it holds, who may move the
/// balance out, and how much it currently holds.
#[derive(Clone, Copy, PartialEq, Eq, Structural, Debug)]
pub struct TokenAccount {
    /// Identifier of the asset this account is denominated in.
    pub mint: u64,
    /// The custody authority: the only address that may move funds out.
    pub authority: Address,
    /// Current balance.
    pub amount: u64,
}

/// The persistent record of one pending trade. All fields are set at creation
/// and never change; only closure destroys the record. The stored `(maker,
/// seed)` pair is the record's derivation data: the record is authentic only
/// if it lives at `derived_address(maker, seed)`.
#[derive(Clone, Copy, PartialEq, Eq, Structural, Debug)]
pub struct Escrow {
    /// Maker-chosen disambiguator, so one maker can keep several escrows open.
    pub seed: u64,
    /// The party that created the escrow; the only authority allowed to refund.
    pub maker: u64,
    /// Asset deposited into the vault.
    pub mint_a: u64,
    /// Asset the maker demands in return.
    pub mint_b: u64,
    /// Quantity of `mint_b` the maker demands.
    pub receive: u64,
}

/// An escrow record together with its custody vault. The two are created and
/// destroyed together: a record exists exactly when its vault does.
#[derive(Clone, Copy, PartialEq, Eq, Structural, Debug)]
pub struct EscrowPair {
    pub record: Escrow,
    pub vault: TokenAccount,
}

impl EscrowPair {
    /// Well-formedness of a live pair: the vault is denominated in the
    /// deposited asset and its custody authority is the record's own derived
    /// address, never a party's key.
    pub open spec fn wf(self) -> bool {
        &&& self.vault.mint == self.record.mint_a
        &&& self.vault.authority == derived_address(self.record.maker, self.record.seed)
    }
}

} // verus!
