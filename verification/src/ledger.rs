//! The interface the core presents to the external asset ledger.
//!
//! The ledger is the system of record for token supply and balances; the
//! core only tells it what to do. Each operation of the registry or the
//! pool returns the instructions below, and the host executes them against
//! the ledger in the order given, atomically with the record update.

use vstd::prelude::*;

verus! {

/// Identifier of a token-holding account in the external asset ledger.
pub type AccountId = u64;

/// Identifier of an asset (a mint) in the external asset ledger.
pub type AssetId = u64;

/// The transfer-fee rate is a basis-point fraction, so it never exceeds
/// the whole: 10000 basis points.
pub const MAX_FEE_BASIS_POINTS: u16 = 10000;

/// Who authorizes a ledger instruction: the caller of the operation, who
/// signs for their own accounts, or the record itself, which presents its
/// derived authority capability when it moves assets on its own behalf.
#[derive(Clone, Copy, Debug, PartialEq, Eq, Structural)]
pub enum Authorizer {
    /// The invoking user signs; the ledger checks the signature itself.
    Caller(AccountId),
    /// The record's own derived authority signs, never exposed to callers.
    Record,
}

/// One instruction for the external asset ledger.
///
/// Which asset an instruction targets follows from the operation that
/// returned it: `Mint` and `Burn` act on the claim or share asset owned by
/// the record, `Transfer` moves the settlement (base) asset between the
/// named accounts, and `CreateAsset` asks the ledger for a fresh asset
/// controlled by the record. The ledger fails an instruction atomically
/// when the authorizer lacks authority or a balance is insufficient; the
/// host must then roll back the whole operation, record update included.
#[derive(Clone, Copy, Debug, PartialEq, Eq, Structural)]
pub enum LedgerInstruction {
    /// Create a new asset with the given precision, controlled by the
    /// record; the fee rate is forwarded opaquely to the ledger's
    /// transfer-fee configuration.
    CreateAsset { decimals: u8, transfer_fee_basis_points: u16 },
    /// Mint `amount` units of the record's asset to `to`.
    Mint { to: AccountId, amount: u64, authority: Authorizer },
    /// Move `amount` units from `from` to `to`.
    Transfer { from: AccountId, to: AccountId, amount: u64, authority: Authorizer },
    /// Destroy `amount` units held by `from`.
    Burn { from: AccountId, amount: u64, authority: Authorizer },
}

} // verus!
