//! The vault share valuator: converts between a vault's LP-share accounting
//! and absolute token amounts at a given timestamp.
//!
//! A vault holds a total deposited amount plus a locked-profit schedule:
//! freshly reported profit unlocks linearly over time, so the amount backing
//! the outstanding shares at a timestamp is the total minus the still-locked
//! profit.  All arithmetic is unsigned, rounds down, and fails (`None`)
//! instead of wrapping on overflow or dividing by zero.

use crate::accounts::Pubkey;
use crate::math::{lemma_div_mul_le, lemma_floor_mul_div_le};
use vstd::prelude::*;

verus! {

/// Scale of the locked-profit degradation rate: a vault with degradation `d`
/// unlocks the fraction `d / LOCKED_PROFIT_DEGRADATION_DENOMINATOR` of its
/// reported profit each second.
pub const LOCKED_PROFIT_DEGRADATION_DENOMINATOR: u128 = 1_000_000_000_000;

/// The vault's record of profit still locked: how much was locked at the
/// last report, when that report happened, and how fast it unlocks.
#[derive(Clone, Copy, Debug, PartialEq, Eq)]
pub struct LockedProfitTracker {
    pub last_updated_locked_profit: u64,
    pub last_report: u64,
    pub locked_profit_degradation: u64,
}

/// An interest-bearing wrapper around one token reserve.
#[derive(Clone, Copy, Debug, PartialEq, Eq)]
pub struct Vault {
    /// Total tokens the vault accounts for, locked profit included.
    pub total_amount: u64,
    /// Schedule by which reported profit unlocks.
    pub locked_profit_tracker: LockedProfitTracker,
    /// Identity of the vault's underlying token reserve account.
    pub token_vault: Pubkey,
    /// Identity of the vault's LP share mint.
    pub lp_mint: Pubkey,
}

/// Profit still locked at `current_time`: the last reported locked profit,
/// scaled down linearly by the time elapsed since the report.  `None` when
/// the clock reads earlier than the last report; zero once the elapsed time
/// times the degradation rate passes the full scale.
pub open spec fn spec_locked_profit(t: LockedProfitTracker, current_time: u64) -> Option<u64> {
    if current_time < t.last_report {
        None
    } else {
        let locked_fund_ratio = (current_time - t.last_report) * t.locked_profit_degradation;
        if locked_fund_ratio > LOCKED_PROFIT_DEGRADATION_DENOMINATOR {
            Some(0u64)
        } else {
            Some(
                ((t.last_updated_locked_profit * (LOCKED_PROFIT_DEGRADATION_DENOMINATOR
                    - locked_fund_ratio)) / (LOCKED_PROFIT_DEGRADATION_DENOMINATOR as int)) as u64,
            )
        }
    }
}

/// Tokens backing the outstanding shares at `current_time`: the total minus
/// the still-locked profit.  `None` if the locked profit is not computable
/// or exceeds the recorded total.
pub open spec fn spec_unlocked_amount(v: Vault, current_time: u64) -> Option<u64> {
    match spec_locked_profit(v.locked_profit_tracker, current_time) {
        None => None,
        Some(locked) => if v.total_amount < locked {
            None
        } else {
            Some((v.total_amount - locked) as u64)
        },
    }
}

/// Tokens redeemable for `share` shares out of `total_supply` outstanding at
/// `current_time`: `share * unlocked / total_supply`, rounded down.  `None`
/// on a degenerate vault (zero supply, uncomputable unlocked amount) or when
/// the quotient exceeds the 64-bit width.
pub open spec fn spec_amount_by_share(
    v: Vault,
    current_time: u64,
    share: u64,
    total_supply: u64,
) -> Option<u64> {
    match spec_unlocked_amount(v, current_time) {
        None => None,
        Some(unlocked) => if total_supply == 0 {
            None
        } else {
            let amount = share * unlocked / (total_supply as int);
            if amount > u64::MAX {
                None
            } else {
                Some(amount as u64)
            }
        },
    }
}

/// Shares that depositing `out_token` tokens mints at `current_time`, with
/// `total_supply` shares outstanding: `out_token * total_supply / unlocked`,
/// rounded down.  `None` on an empty vault (zero unlocked), an uncomputable
/// unlocked amount, or a quotient beyond the 64-bit width.
pub open spec fn spec_unmint_amount(
    v: Vault,
    current_time: u64,
    out_token: u64,
    total_supply: u64,
) -> Option<u64> {
    match spec_unlocked_amount(v, current_time) {
        None => None,
        Some(unlocked) => if unlocked == 0 {
            None
        } else {
            let share = out_token * total_supply / (unlocked as int);
            if share > u64::MAX {
                None
            } else {
                Some(share as u64)
            }
        },
    }
}

impl LockedProfitTracker {
    /// Profit still locked at `current_time` under this schedule.
    pub fn calculate_locked_profit(&self, current_time: u64) -> (r: Option<u64>)
        ensures
            r == spec_locked_profit(*self, current_time),
    {
        if current_time < self.last_report {
            return None;
        }
        let duration = current_time - self.last_report;
        proof {
            assert((duration as int) * (self.locked_profit_degradation as int) <= (u64::MAX as int)
                * (u64::MAX as int)) by (nonlinear_arith)
                requires
                    0 <= duration <= u64::MAX,
                    0 <= self.locked_profit_degradation <= u64::MAX,
            ;
        }
        let locked_fund_ratio: u128 = (duration as u128) * (self.locked_profit_degradation
            as u128);
        if locked_fund_ratio > LOCKED_PROFIT_DEGRADATION_DENOMINATOR {
            return Some(0);
        }
        let locked = self.last_updated_locked_profit;
        proof {
            assert((locked as int) * ((LOCKED_PROFIT_DEGRADATION_DENOMINATOR - locked_fund_ratio)
                as int) <= (locked as int) * (LOCKED_PROFIT_DEGRADATION_DENOMINATOR as int))
                by (nonlinear_arith)
                requires
                    0 <= locked,
                    0 <= locked_fund_ratio <= LOCKED_PROFIT_DEGRADATION_DENOMINATOR,
            ;
            assert((u64::MAX as int) * (LOCKED_PROFIT_DEGRADATION_DENOMINATOR as int)
                < u128::MAX) by (nonlinear_arith);
            assert((locked as int) * (LOCKED_PROFIT_DEGRADATION_DENOMINATOR as int) <= (u64::MAX
                as int) * (LOCKED_PROFIT_DEGRADATION_DENOMINATOR as int)) by (nonlinear_arith)
                requires
                    0 <= locked <= u64::MAX,
            ;
        }
        let numer: u128 = (locked as u128) * (LOCKED_PROFIT_DEGRADATION_DENOMINATOR
            - locked_fund_ratio);
        let current_locked: u128 = numer / LOCKED_PROFIT_DEGRADATION_DENOMINATOR;
        proof {
            lemma_floor_mul_div_le(
                numer as int,
                locked as int,
                LOCKED_PROFIT_DEGRADATION_DENOMINATOR as int,
            );
        }
        Some(current_locked as u64)
    }
}

impl Vault {
    /// Tokens backing the outstanding shares at `current_time`.
    pub fn get_unlocked_amount(&self, current_time: u64) -> (r: Option<u64>)
        ensures
            r == spec_unlocked_amount(*self, current_time),
    {
        let locked = match self.locked_profit_tracker.calculate_locked_profit(current_time) {
            Some(l) => l,
            None => {
                return None;
            },
        };
        self.total_amount.checked_sub(locked)
    }

    /// Tokens currently redeemable for `share` of `total_supply` shares.
    pub fn get_amount_by_share(&self, current_time: u64, share: u64, total_supply: u64) -> (r:
        Option<u64>)
        ensures
            r == spec_amount_by_share(*self, current_time, share, total_supply),
    {
        let unlocked = match self.get_unlocked_amount(current_time) {
            Some(u) => u,
            None => {
                return None;
            },
        };
        if total_supply == 0 {
            return None;
        }
        proof {
            assert((share as int) * (unlocked as int) <= (u64::MAX as int) * (u64::MAX as int))
                by (nonlinear_arith)
                requires
                    0 <= share <= u64::MAX,
                    0 <= unlocked <= u64::MAX,
            ;
        }
        let amount: u128 = (share as u128) * (unlocked as u128) / (total_supply as u128);
        if amount > u64::MAX as u128 {
            None
        } else {
            Some(amount as u64)
        }
    }

    /// Shares that depositing `out_token` tokens would mint, with
    /// `total_supply` shares outstanding.
    pub fn get_unmint_amount(&self, current_time: u64, out_token: u64, total_supply: u64) -> (r:
        Option<u64>)
        ensures
            r == spec_unmint_amount(*self, current_time, out_token, total_supply),
    {
        let unlocked = match self.get_unlocked_amount(current_time) {
            Some(u) => u,
            None => {
                return None;
            },
        };
        if unlocked == 0 {
            return None;
        }
        proof {
            assert((out_token as int) * (total_supply as int) <= (u64::MAX as int) * (u64::MAX
                as int)) by (nonlinear_arith)
                requires
                    0 <= out_token <= u64::MAX,
                    0 <= total_supply <= u64::MAX,
            ;
        }
        let share: u128 = (out_token as u128) * (total_supply as u128) / (unlocked as u128);
        if share > u64::MAX as u128 {
            None
        } else {
            Some(share as u64)
        }
    }
}

/// Depositing and immediately withdrawing never creates value: if depositing
/// `amount` mints `minted` shares, then valuing those shares against the
/// credited vault (`total + amount`) and the grown supply
/// (`total_supply + minted`) redeems at most `amount` tokens.
pub proof fn lemma_share_round_trip(
    v: Vault,
    current_time: u64,
    amount: u64,
    total_supply: u64,
    minted: u64,
    v_after: Vault,
)
    requires
        spec_unmint_amount(v, current_time, amount, total_supply) == Some(minted),
        v.total_amount + amount <= u64::MAX,
        total_supply + minted <= u64::MAX,
        v_after == (Vault { total_amount: (v.total_amount + amount) as u64, ..v }),
    ensures
        match spec_amount_by_share(
            v_after,
            current_time,
            minted,
            (total_supply + minted) as u64,
        ) {
            Some(value) => value <= amount,
            None => true,
        },
{
    let unlocked = spec_unlocked_amount(v, current_time)->Some_0;
    assert(spec_unlocked_amount(v, current_time) is Some && unlocked > 0);
    assert(spec_unlocked_amount(v_after, current_time) == Some(
        (unlocked + amount) as u64,
    ));
    assert(minted == amount * total_supply / (unlocked as int));
    lemma_div_mul_le(amount * total_supply, unlocked as int);
    assert(minted * unlocked <= amount * total_supply) by (nonlinear_arith)
        requires
            minted == amount * total_supply / (unlocked as int),
            (amount * total_supply / (unlocked as int)) * (unlocked as int) <= amount
                * total_supply,
    ;
    let new_supply = total_supply + minted;
    if new_supply != 0 {
        assert(minted * (unlocked + amount) <= amount * new_supply) by (nonlinear_arith)
            requires
                minted * unlocked <= amount * total_supply,
                new_supply == total_supply + minted,
                0 <= amount,
                0 <= minted,
        ;
        lemma_floor_mul_div_le(minted * (unlocked + amount), amount as int, new_supply);
    }
}

/// Converting a token amount to shares and valuing those shares back against
/// the unchanged vault redeems at most the amount that was converted.
pub proof fn lemma_redeem_round_trip(
    v: Vault,
    current_time: u64,
    amount: u64,
    total_supply: u64,
    minted: u64,
)
    requires
        spec_unmint_amount(v, current_time, amount, total_supply) == Some(minted),
    ensures
        match spec_amount_by_share(v, current_time, minted, total_supply) {
            Some(value) => value <= amount,
            None => true,
        },
{
    let unlocked = spec_unlocked_amount(v, current_time)->Some_0;
    assert(spec_unlocked_amount(v, current_time) is Some && unlocked > 0);
    assert(minted == amount * total_supply / (unlocked as int));
    lemma_div_mul_le(amount * total_supply, unlocked as int);
    assert(minted * unlocked <= amount * total_supply) by (nonlinear_arith)
        requires
            minted == amount * total_supply / (unlocked as int),
            (amount * total_supply / (unlocked as int)) * (unlocked as int) <= amount
                * total_supply,
    ;
    if total_supply != 0 {
        lemma_floor_mul_div_le(minted * unlocked, amount as int, total_supply as int);
    }
}

} // verus!
