//! Off-chain quoting engine for a constant-product automated market maker
//! whose two reserves are held inside yield-bearing vaults.
//!
//! Given an immutable snapshot of on-chain state (pool configuration, the two
//! vaults, their LP token balances and LP mint supplies, and the underlying
//! token balances) together with a timestamp and a requested input amount,
//! the library computes the exact output amount, fee amount and fee mint that
//! the on-chain program would produce, reproducing its rounding directions
//! and overflow checks step for step.  Every arithmetic step is verified
//! against a specification-level model, and the library's global properties
//! (value conservation, round-trip monotonicity of share accounting,
//! direction symmetry) are proved as lemmas.

pub mod accounts;
pub mod edge;
pub mod fees;
pub mod instructions;
pub mod math;
pub mod pool;
pub mod vault;
