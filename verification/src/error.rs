//! Why an operation was rejected. Every rejection is total: the operation
//! aborts as a whole and the ledger state it was given is unchanged.

use vstd::prelude::*;

verus! {

/// The reasons an escrow operation aborts.
///
/// Authorization: [`UnauthorizedSigner`](EscrowError::UnauthorizedSigner),
/// [`DerivationMismatch`](EscrowError::DerivationMismatch),
/// [`AuthorityMismatch`](EscrowError::AuthorityMismatch).
/// Balance: [`InsufficientFunds`](EscrowError::InsufficientFunds),
/// [`BalanceOverflow`](EscrowError::BalanceOverflow).
/// Asset identity: [`AssetMismatch`](EscrowError::AssetMismatch).
/// State: [`EscrowNotFound`](EscrowError::EscrowNotFound).
/// Allocation: [`AddressInUse`](EscrowError::AddressInUse).
#[derive(Clone, Copy, PartialEq, Eq, Structural, Debug)]
pub enum EscrowError {
    /// No live escrow record at the presented address (never created, or
    /// already closed by a take or a refund).
    EscrowNotFound,
    /// An escrow record already lives at the derived address; the maker must
    /// pick an unused seed.
    AddressInUse,
    /// The transaction's signer is not the record's maker.
    UnauthorizedSigner,
    /// The presented record does not re-derive to the address it was
    /// presented at: a forged or substituted record.
    DerivationMismatch,
    /// An account's declared asset differs from the one the operation needs.
    AssetMismatch,
    /// An account's custody authority is not the party or record required.
    AuthorityMismatch,
    /// A transfer's source holds less than the amount to be moved.
    InsufficientFunds,
    /// A transfer would push a destination balance past the representable
    /// maximum; the token primitive rejects it.
    BalanceOverflow,
}

} // verus!
