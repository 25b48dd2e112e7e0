//! Accounting engine of a two-asset constant-product liquidity pool.
//!
//! The pool record, its invariant and the four state transitions
//! (initialize, deposit, withdraw, swap) are verified here; moving the
//! assets themselves is left to the host program.

pub mod math;
pub mod pool;
pub mod deposit;
pub mod withdraw;
pub mod swap;
pub mod laws;
