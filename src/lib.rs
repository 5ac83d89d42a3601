//! Accounting core of a two-asset constant-product liquidity pool.
//!
//! Every operation is a pure transition on the pool record and a snapshot of
//! the balances it reads; the asset movements it decides are returned to the
//! caller, which carries them out.
pub mod amm_v2;
pub mod errors;
pub mod instructions;
pub mod state;
