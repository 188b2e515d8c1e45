//! The pool's fee schedule: trading fee and owner (protocol) fee, each a
//! rational fraction of the nominal input amount.

use vstd::prelude::*;

verus! {

/// Fee schedule of a pool.  Each fee is `numerator / denominator` of the
/// traded amount, rounded down, but never rounded down to zero: a nonzero
/// trade always pays at least one unit of a configured nonzero fee.
#[derive(Clone, Copy, Debug, PartialEq, Eq)]
pub struct PoolFees {
    pub trade_fee_numerator: u64,
    pub trade_fee_denominator: u64,
    pub owner_trade_fee_numerator: u64,
    pub owner_trade_fee_denominator: u64,
}

/// The protocol's fee formula: zero when the rate or the amount is zero,
/// otherwise `amount * numerator / denominator` rounded down, with a floor of
/// one unit.  `None` on a zero denominator (with a nonzero rate) or if the
/// product overflows the 128-bit width.
pub open spec fn spec_calculate_fee(token_amount: u128, numerator: u64, denominator: u64) -> Option<
    u128,
> {
    if numerator == 0 || token_amount == 0 {
        Some(0u128)
    } else if token_amount * numerator > u128::MAX {
        None
    } else if denominator == 0 {
        None
    } else {
        let fee = token_amount * numerator / (denominator as int);
        if fee == 0 {
            Some(1u128)
        } else {
            Some(fee as u128)
        }
    }
}

/// The trading fee owed on `trading_tokens` input tokens.
pub open spec fn spec_trading_fee(fees: PoolFees, trading_tokens: u128) -> Option<u128> {
    spec_calculate_fee(trading_tokens, fees.trade_fee_numerator, fees.trade_fee_denominator)
}

/// The owner (protocol) fee owed on `trading_tokens` input tokens.
pub open spec fn spec_owner_trading_fee(fees: PoolFees, trading_tokens: u128) -> Option<u128> {
    spec_calculate_fee(
        trading_tokens,
        fees.owner_trade_fee_numerator,
        fees.owner_trade_fee_denominator,
    )
}

fn calculate_fee(token_amount: u128, numerator: u64, denominator: u64) -> (r: Option<u128>)
    ensures
        r == spec_calculate_fee(token_amount, numerator, denominator),
{
    if numerator == 0 || token_amount == 0 {
        return Some(0);
    }
    let product = match token_amount.checked_mul(numerator as u128) {
        Some(p) => p,
        None => {
            return None;
        },
    };
    if denominator == 0 {
        return None;
    }
    let fee = product / (denominator as u128);
    if fee == 0 {
        Some(1)
    } else {
        Some(fee)
    }
}

impl PoolFees {
    /// Trading fee on `trading_tokens`, per the pool's fee schedule.
    pub fn trading_fee(&self, trading_tokens: u128) -> (r: Option<u128>)
        ensures
            r == spec_trading_fee(*self, trading_tokens),
    {
        calculate_fee(trading_tokens, self.trade_fee_numerator, self.trade_fee_denominator)
    }

    /// Owner (protocol) fee on `trading_tokens`, per the pool's fee schedule.
    pub fn owner_trading_fee(&self, trading_tokens: u128) -> (r: Option<u128>)
        ensures
            r == spec_owner_trading_fee(*self, trading_tokens),
    {
        calculate_fee(
            trading_tokens,
            self.owner_trade_fee_numerator,
            self.owner_trade_fee_denominator,
        )
    }
}

} // verus!
