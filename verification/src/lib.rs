//! A ledger-accounting core for tokenized inventory units.
//!
//! Two subsystems share one shape: a revenue registry (`hotel`) that issues
//! one claim token per inventory unit, records booking revenue, and
//! distributes it pro rata to token holders; and a liquidity pool
//! (`liquidity_pool`) that mints and burns a share token 1:1 against
//! deposits of a base asset.
//!
//! Token supply and balances live in an external asset ledger. The core
//! never moves balances itself: each operation validates its preconditions,
//! updates its own record, and returns the [`ledger::LedgerInstruction`]s
//! the host must execute, together with the event to publish. The host is
//! expected to apply the record update and the instructions as one atomic
//! transaction, discarding the whole operation if any instruction fails.

pub mod hotel;
pub mod ledger;
pub mod liquidity_pool;
