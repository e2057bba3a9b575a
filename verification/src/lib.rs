//! Accounting core of a two-asset liquidity pool.
//!
//! The pool holds a reserve of a native settlement asset and a reserve of a
//! paired fungible token, and issues proportional ownership shares against
//! deposits. This crate is the verified core: the pool ledger record, the
//! share-pricing arithmetic of the two operations (adding and removing
//! liquidity), the slippage-bound checks, and the instructions the host must
//! execute atomically with each ledger mutation. Storage, message encoding,
//! and the token ledger itself are the host's business; they hand this crate
//! plain values and take plain values back.

pub mod contract;
pub mod error;
pub mod laws;
pub mod state;
