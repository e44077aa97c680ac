//! On-ledger payment escrow engine: a deterministic instruction processor
//! that establishes a fee/authority configuration record, executes a token
//! transfer between two parties with an optional fee split, and reverses a
//! completed payment under refund.
//!
//! The processor is a pure state-transition function: it validates a request
//! against model values of the participating accounts and returns the effects
//! (transfers to perform, records to create or rewrite) that the host
//! environment applies atomically.

use vstd::prelude::*;

pub mod error;
pub mod keys;
pub mod laws;
pub mod instruction;
pub mod pda;
pub mod processor;
pub mod state;
pub mod token;

verus! {

/// Fee rate applied whenever a fee account is supplied, in basis points
/// (hundredths of a percent). The processor uses this fixed rate; it does
/// not consult the rate stored in a configuration record.
pub const FEE_BPS_APPLIED: u16 = 100;

/// Divisor converting basis points to a fraction of the amount.
pub const BPS_DENOMINATOR: u16 = 10000;

} // verus!
