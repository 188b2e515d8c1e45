//! A directed swap edge over one pool, and the exact-input quote: the exact
//! output amount, fee amount and fee mint the on-chain program would
//! produce for a given input amount at a given timestamp.

use crate::accounts::{Mint, Pubkey, TokenAccount};
use crate::fees::{spec_owner_trading_fee, spec_trading_fee, PoolFees};
use crate::math::checked_ceil_div;
use crate::math::{lemma_checked_ceil_div_is_ceiling, spec_checked_ceil_div};
use crate::pool::{CurveType, Pool};
use crate::vault::{lemma_redeem_round_trip, spec_amount_by_share, spec_unlocked_amount, spec_unmint_amount, Vault};
use vstd::prelude::*;

verus! {

/// An immutable, hashable description of one directed swap leg of a pool.
/// Each pool has two: token A to token B, and token B to token A.
#[derive(Clone, Copy, Debug, PartialEq, Eq, Hash)]
pub struct MeteoraCpEdgeIdentifier {
    pub pool: Pubkey,
    pub a_mint: Pubkey,
    pub b_mint: Pubkey,
    pub is_a_to_b: bool,
}

impl MeteoraCpEdgeIdentifier {
    /// The account this edge is keyed by: its pool.
    pub fn key(&self) -> (r: Pubkey)
        ensures
            r == self.pool,
    {
        self.pool
    }

    /// The mint the swap consumes.
    pub fn input_mint(&self) -> (r: Pubkey)
        ensures
            r == if self.is_a_to_b {
                self.a_mint
            } else {
                self.b_mint
            },
    {
        if self.is_a_to_b {
            self.a_mint
        } else {
            self.b_mint
        }
    }

    /// The mint the swap produces.
    pub fn output_mint(&self) -> (r: Pubkey)
        ensures
            r == if self.is_a_to_b {
                self.b_mint
            } else {
                self.a_mint
            },
    {
        if self.is_a_to_b {
            self.b_mint
        } else {
            self.a_mint
        }
    }

    /// How many extra accounts a swap along this edge needs.
    pub fn accounts_needed(&self) -> (r: usize)
        ensures
            r == 6,
    {
        6
    }
}

/// The result of a quote: nominal input, final output, the trading fee, and
/// the mint the fee is denominated in.  All-zero amounts are a defined
/// "venue not applicable / no liquidity" result, not an absence.
#[derive(Clone, Copy, Debug, PartialEq, Eq)]
pub struct Quote {
    pub in_amount: u64,
    pub out_amount: u64,
    pub fee_amount: u64,
    pub fee_mint: Pubkey,
}

/// An immutable snapshot of everything one pool's quote needs: the pool
/// configuration, both vaults, the underlying token balances, the pool's
/// vault-LP holdings, and the LP mint supplies.
#[derive(Clone, Copy, Debug, PartialEq, Eq)]
pub struct MeteoraCpEdge {
    pub pool: Pool,
    pub a_vault: Vault,
    pub b_vault: Vault,
    pub a_vault_token: TokenAccount,
    pub b_vault_token: TokenAccount,
    pub a_vault_lp_token: TokenAccount,
    pub b_vault_lp_token: TokenAccount,
    pub a_vault_lp_mint: Mint,
    pub b_vault_lp_mint: Mint,
}

/// The constant-product invariant solve.  With reserves `swap_source_amount`
/// and `swap_destination_amount` and a fee-adjusted deposit of
/// `source_amount`, the new destination reserve is the invariant product
/// divided by the grown source reserve, rounded *up* (in the protocol's
/// favour); the output is whatever the destination reserve loses.  `None`
/// when the rounded-up new reserve cannot be formed or when the output would
/// be zero (the chain reverts a zero-output swap).
pub open spec fn spec_swap_output(
    swap_source_amount: u64,
    swap_destination_amount: u64,
    source_amount: u64,
) -> Option<u64> {
    let product = (swap_source_amount * swap_destination_amount) as u128;
    let new_source = (swap_source_amount + source_amount) as u128;
    match spec_checked_ceil_div(product, new_source) {
        None => None,
        Some(new_destination) => if swap_destination_amount < new_destination {
            None
        } else if swap_destination_amount - new_destination == 0 {
            None
        } else {
            Some((swap_destination_amount - new_destination) as u64)
        },
    }
}

/// One direction-resolved exact-input quote, producing the final output
/// amount and the reported (trading) fee.  Mirrors the on-chain order of
/// operations exactly: fees on the nominal input; owner fee deducted before
/// the deposit; the credited input re-derived through share accounting on a
/// scratch copy of the input vault; the trading fee deducted from the
/// credited input; the invariant solved with ceiling rounding; the output
/// run back through the output vault's share accounting; and the result
/// checked against the physically available reserve.
pub open spec fn spec_quote_core(
    in_vault: Vault,
    out_vault: Vault,
    in_vault_lp_amount: u64,
    in_vault_lp_supply: u64,
    out_vault_lp_supply: u64,
    out_reserve: u64,
    before_in: u64,
    before_out: u64,
    fees: PoolFees,
    current_time: u64,
    amount_in: u64,
) -> Option<(u64, u64)> {
    match spec_trading_fee(fees, amount_in as u128) {
        None => None,
        Some(trade_fee) => match spec_owner_trading_fee(fees, amount_in as u128) {
            None => None,
            Some(owner_fee) => if owner_fee > u64::MAX {
                None
            } else if amount_in < owner_fee {
                None
            } else {
                let net_in = (amount_in - owner_fee) as u64;
                match spec_unmint_amount(in_vault, current_time, net_in, in_vault_lp_supply) {
                    None => None,
                    Some(in_lp) => if in_vault.total_amount + net_in > u64::MAX {
                        None
                    } else {
                        let in_vault_after = Vault {
                            total_amount: (in_vault.total_amount + net_in) as u64,
                            ..in_vault
                        };
                        if in_lp + in_vault_lp_amount > u64::MAX {
                            None
                        } else if in_vault_lp_supply + in_lp > u64::MAX {
                            None
                        } else {
                            match spec_amount_by_share(
                                in_vault_after,
                                current_time,
                                (in_lp + in_vault_lp_amount) as u64,
                                (in_vault_lp_supply + in_lp) as u64,
                            ) {
                                None => None,
                                Some(after_in) => if after_in < before_in {
                                    None
                                } else {
                                    let actual_in = (after_in - before_in) as u64;
                                    if trade_fee > u64::MAX {
                                        None
                                    } else if actual_in < trade_fee {
                                        None
                                    } else {
                                        let source_amount = (actual_in - trade_fee) as u64;
                                        match spec_swap_output(before_in, before_out, source_amount) {
                                            None => None,
                                            Some(swapped) => match spec_unmint_amount(
                                                out_vault,
                                                current_time,
                                                swapped,
                                                out_vault_lp_supply,
                                            ) {
                                                None => None,
                                                Some(out_lp) => match spec_amount_by_share(
                                                    out_vault,
                                                    current_time,
                                                    out_lp,
                                                    out_vault_lp_supply,
                                                ) {
                                                    None => None,
                                                    Some(out_amount) => if out_amount > out_reserve {
                                                        None
                                                    } else {
                                                        Some((out_amount, trade_fee as u64))
                                                    },
                                                },
                                            },
                                        }
                                    }
                                },
                            }
                        }
                    },
                }
            },
        },
    }
}

/// The "before" balance of the input side: the token value of the pool's
/// LP holding in the input vault.
pub open spec fn spec_before_in(e: MeteoraCpEdge, current_time: u64, is_a_to_b: bool) -> Option<
    u64,
> {
    if is_a_to_b {
        spec_amount_by_share(
            e.a_vault,
            current_time,
            e.a_vault_lp_token.amount,
            e.a_vault_lp_mint.supply,
        )
    } else {
        spec_amount_by_share(
            e.b_vault,
            current_time,
            e.b_vault_lp_token.amount,
            e.b_vault_lp_mint.supply,
        )
    }
}

/// The "before" balance of the output side.
pub open spec fn spec_before_out(e: MeteoraCpEdge, current_time: u64, is_a_to_b: bool) -> Option<
    u64,
> {
    spec_before_in(e, current_time, !is_a_to_b)
}

/// The output vault's underlying token balance actually on hand.
pub open spec fn spec_out_reserve(e: MeteoraCpEdge, is_a_to_b: bool) -> u64 {
    if is_a_to_b {
        e.b_vault_token.amount
    } else {
        e.a_vault_token.amount
    }
}

/// The full exact-input quote over an edge snapshot, `None` when any step of
/// the on-chain computation would fail (overflow, underflow, division by
/// zero, zero output, or insufficient output reserve).
pub open spec fn spec_quote_exact_in(
    e: MeteoraCpEdge,
    current_time: u64,
    amount_in: u64,
    is_a_to_b: bool,
) -> Option<Quote> {
    match spec_amount_by_share(
        e.a_vault,
        current_time,
        e.a_vault_lp_token.amount,
        e.a_vault_lp_mint.supply,
    ) {
        None => None,
        Some(token_a_amount) => match spec_amount_by_share(
            e.b_vault,
            current_time,
            e.b_vault_lp_token.amount,
            e.b_vault_lp_mint.supply,
        ) {
            None => None,
            Some(token_b_amount) => {
                let core = if is_a_to_b {
                    spec_quote_core(
                        e.a_vault,
                        e.b_vault,
                        e.a_vault_lp_token.amount,
                        e.a_vault_lp_mint.supply,
                        e.b_vault_lp_mint.supply,
                        e.b_vault_token.amount,
                        token_a_amount,
                        token_b_amount,
                        e.pool.fees,
                        current_time,
                        amount_in,
                    )
                } else {
                    spec_quote_core(
                        e.b_vault,
                        e.a_vault,
                        e.b_vault_lp_token.amount,
                        e.b_vault_lp_mint.supply,
                        e.a_vault_lp_mint.supply,
                        e.a_vault_token.amount,
                        token_b_amount,
                        token_a_amount,
                        e.pool.fees,
                        current_time,
                        amount_in,
                    )
                };
                match core {
                    None => None,
                    Some(result) => Some(
                        Quote {
                            in_amount: amount_in,
                            out_amount: result.0,
                            fee_amount: result.1,
                            fee_mint: if is_a_to_b {
                                e.pool.token_a_mint
                            } else {
                                e.pool.token_b_mint
                            },
                        },
                    ),
                }
            },
        },
    }
}

/// The defined zero quote for an inapplicable venue.
pub open spec fn spec_zero_quote(fee_mint: Pubkey) -> Quote {
    Quote { in_amount: 0, out_amount: 0, fee_amount: 0, fee_mint }
}

/// What a router receives for an edge: a zero quote when the pool is
/// disabled, on an unsupported curve, or when the computation fails; the
/// computed quote otherwise.
pub open spec fn spec_quote_or_zero(
    e: MeteoraCpEdge,
    current_time: u64,
    amount_in: u64,
    is_a_to_b: bool,
) -> Quote {
    if !(e.pool.enabled && e.pool.curve_type == CurveType::ConstantProduct) {
        spec_zero_quote(e.pool.token_a_mint)
    } else {
        match spec_quote_exact_in(e, current_time, amount_in, is_a_to_b) {
            None => spec_zero_quote(e.pool.token_a_mint),
            Some(q) => q,
        }
    }
}

impl MeteoraCpEdge {
    /// Computes the exact-input quote for this edge at `current_time`.
    /// Reproduces the on-chain arithmetic step for step; any overflow,
    /// underflow, division by zero, zero output, or insufficient output
    /// reserve yields `None` ("quote not computable"), never a fabricated
    /// amount.
    pub fn quote_exact_in(&self, current_time: u64, amount_in: u64, is_a_to_b: bool) -> (r: Option<
        Quote,
    >)
        ensures
            r == spec_quote_exact_in(*self, current_time, amount_in, is_a_to_b),
    {
        let token_a_amount = match self.a_vault.get_amount_by_share(
            current_time,
            self.a_vault_lp_token.amount,
            self.a_vault_lp_mint.supply,
        ) {
            Some(v) => v,
            None => {
                return None;
            },
        };
        let token_b_amount = match self.b_vault.get_amount_by_share(
            current_time,
            self.b_vault_lp_token.amount,
            self.b_vault_lp_mint.supply,
        ) {
            Some(v) => v,
            None => {
                return None;
            },
        };
        let in_vault = if is_a_to_b {
            self.a_vault
        } else {
            self.b_vault
        };
        let out_vault = if is_a_to_b {
            self.b_vault
        } else {
            self.a_vault
        };
        let in_vault_lp_amount = if is_a_to_b {
            self.a_vault_lp_token.amount
        } else {
            self.b_vault_lp_token.amount
        };
        let in_vault_lp_supply = if is_a_to_b {
            self.a_vault_lp_mint.supply
        } else {
            self.b_vault_lp_mint.supply
        };
        let out_vault_lp_supply = if is_a_to_b {
            self.b_vault_lp_mint.supply
        } else {
            self.a_vault_lp_mint.supply
        };
        let out_reserve = if is_a_to_b {
            self.b_vault_token.amount
        } else {
            self.a_vault_token.amount
        };
        let in_token_total_amount = if is_a_to_b {
            token_a_amount
        } else {
            token_b_amount
        };
        let out_token_total_amount = if is_a_to_b {
            token_b_amount
        } else {
            token_a_amount
        };
        let in_mint = if is_a_to_b {
            self.pool.token_a_mint
        } else {
            self.pool.token_b_mint
        };
        let trade_fee = match self.pool.fees.trading_fee(amount_in as u128) {
            Some(v) => v,
            None => {
                return None;
            },
        };
        let owner_fee = match self.pool.fees.owner_trading_fee(amount_in as u128) {
            Some(v) => v,
            None => {
                return None;
            },
        };
        if owner_fee > u64::MAX as u128 {
            return None;
        }
        let in_amount_after_owner_fee = match amount_in.checked_sub(owner_fee as u64) {
            Some(v) => v,
            None => {
                return None;
            },
        };
        let in_lp = match in_vault.get_unmint_amount(
            current_time,
            in_amount_after_owner_fee,
            in_vault_lp_supply,
        ) {
            Some(v) => v,
            None => {
                return None;
            },
        };
        let new_total = match in_vault.total_amount.checked_add(in_amount_after_owner_fee) {
            Some(v) => v,
            None => {
                return None;
            },
        };
        let in_vault_after = Vault { total_amount: new_total, ..in_vault };
        let shares = match in_lp.checked_add(in_vault_lp_amount) {
            Some(v) => v,
            None => {
                return None;
            },
        };
        let new_supply = match in_vault_lp_supply.checked_add(in_lp) {
            Some(v) => v,
            None => {
                return None;
            },
        };
        let after_in_token_total_amount = match in_vault_after.get_amount_by_share(
            current_time,
            shares,
            new_supply,
        ) {
            Some(v) => v,
            None => {
                return None;
            },
        };
        let actual_in_amount = match after_in_token_total_amount.checked_sub(
            in_token_total_amount,
        ) {
            Some(v) => v,
            None => {
                return None;
            },
        };
        if trade_fee > u64::MAX as u128 {
            return None;
        }
        let actual_in_amount_after_fee = match actual_in_amount.checked_sub(trade_fee as u64) {
            Some(v) => v,
            None => {
                return None;
            },
        };
        proof {
            assert((in_token_total_amount as int) * (out_token_total_amount as int) <= (u64::MAX
                as int) * (u64::MAX as int)) by (nonlinear_arith)
                requires
                    0 <= in_token_total_amount <= u64::MAX,
                    0 <= out_token_total_amount <= u64::MAX,
            ;
        }
        let product: u128 = (in_token_total_amount as u128) * (out_token_total_amount as u128);
        let new_source: u128 = (in_token_total_amount as u128) + (actual_in_amount_after_fee
            as u128);
        let new_destination = match checked_ceil_div(product, new_source) {
            Some(v) => v,
            None => {
                return None;
            },
        };
        let swapped_wide = match (out_token_total_amount as u128).checked_sub(new_destination) {
            Some(v) => v,
            None => {
                return None;
            },
        };
        if swapped_wide == 0 {
            return None;
        }
        let destination_amount_swapped = swapped_wide as u64;
        let out_vault_lp = match out_vault.get_unmint_amount(
            current_time,
            destination_amount_swapped,
            out_vault_lp_supply,
        ) {
            Some(v) => v,
            None => {
                return None;
            },
        };
        let out_amount = match out_vault.get_amount_by_share(
            current_time,
            out_vault_lp,
            out_vault_lp_supply,
        ) {
            Some(v) => v,
            None => {
                return None;
            },
        };
        if out_amount > out_reserve {
            return None;
        }
        Some(
            Quote {
                in_amount: amount_in,
                out_amount,
                fee_amount: trade_fee as u64,
                fee_mint: in_mint,
            },
        )
    }

    /// The router-facing quote: a defined zero quote (denominated in token
    /// A's mint) for a disabled pool, an unsupported curve, or a failed
    /// computation; the computed quote otherwise.
    pub fn quote(&self, current_time: u64, amount_in: u64, is_a_to_b: bool) -> (q: Quote)
        ensures
            q == spec_quote_or_zero(*self, current_time, amount_in, is_a_to_b),
    {
        if !self.pool.is_quotable() {
            return Quote {
                in_amount: 0,
                out_amount: 0,
                fee_amount: 0,
                fee_mint: self.pool.token_a_mint,
            };
        }
        match self.quote_exact_in(current_time, amount_in, is_a_to_b) {
            Some(q) => q,
            None => Quote {
                in_amount: 0,
                out_amount: 0,
                fee_amount: 0,
                fee_mint: self.pool.token_a_mint,
            },
        }
    }
}

/// Conservation at the invariant solve: a successful solve never pays out
/// the whole destination reserve, and the product of the reserves does not
/// decrease across the swap (the ceiling rounding biases it upward, in the
/// protocol's favour).
pub proof fn lemma_swap_output_conserves(
    swap_source_amount: u64,
    swap_destination_amount: u64,
    source_amount: u64,
    out: u64,
)
    requires
        spec_swap_output(swap_source_amount, swap_destination_amount, source_amount) == Some(out),
    ensures
        0 < out < swap_destination_amount,
        swap_source_amount * swap_destination_amount <= (swap_source_amount + source_amount) * (
        swap_destination_amount - out),
{
    assert(swap_source_amount * swap_destination_amount <= (u64::MAX as int) * (u64::MAX as int))
        by (nonlinear_arith)
        requires
            0 <= swap_source_amount <= u64::MAX,
            0 <= swap_destination_amount <= u64::MAX,
    ;
    let product = (swap_source_amount * swap_destination_amount) as u128;
    let new_source = (swap_source_amount + source_amount) as u128;
    assert(spec_checked_ceil_div(product, new_source) is Some);
    let new_destination = spec_checked_ceil_div(product, new_source)->Some_0;
    lemma_checked_ceil_div_is_ceiling(product, new_source, new_destination);
    assert(out == swap_destination_amount - new_destination);
    assert((swap_source_amount + source_amount) * (swap_destination_amount - out) == new_source
        * new_destination) by (nonlinear_arith)
        requires
            new_source == swap_source_amount + source_amount,
            new_destination == swap_destination_amount - out,
    ;
    assert(new_destination * new_source == new_source * new_destination) by (nonlinear_arith);
}

/// Conservation through one direction-resolved quote: the final output is
/// strictly below the output side's "before" balance and never exceeds the
/// output vault's token balance on hand.
pub proof fn lemma_quote_core_conserves(
    in_vault: Vault,
    out_vault: Vault,
    in_vault_lp_amount: u64,
    in_vault_lp_supply: u64,
    out_vault_lp_supply: u64,
    out_reserve: u64,
    before_in: u64,
    before_out: u64,
    fees: PoolFees,
    current_time: u64,
    amount_in: u64,
    out_amount: u64,
    fee_amount: u64,
)
    requires
        spec_quote_core(
            in_vault,
            out_vault,
            in_vault_lp_amount,
            in_vault_lp_supply,
            out_vault_lp_supply,
            out_reserve,
            before_in,
            before_out,
            fees,
            current_time,
            amount_in,
        ) == Some((out_amount, fee_amount)),
    ensures
        out_amount < before_out,
        out_amount <= out_reserve,
{
    let trade_fee = spec_trading_fee(fees, amount_in as u128)->Some_0;
    let owner_fee = spec_owner_trading_fee(fees, amount_in as u128)->Some_0;
    let net_in = (amount_in - owner_fee) as u64;
    let in_lp = spec_unmint_amount(in_vault, current_time, net_in, in_vault_lp_supply)->Some_0;
    let in_vault_after = Vault {
        total_amount: (in_vault.total_amount + net_in) as u64,
        ..in_vault
    };
    let after_in = spec_amount_by_share(
        in_vault_after,
        current_time,
        (in_lp + in_vault_lp_amount) as u64,
        (in_vault_lp_supply + in_lp) as u64,
    )->Some_0;
    let actual_in = (after_in - before_in) as u64;
    let source_amount = (actual_in - trade_fee) as u64;
    assert(spec_swap_output(before_in, before_out, source_amount) is Some);
    let swapped = spec_swap_output(before_in, before_out, source_amount)->Some_0;
    assert(spec_unmint_amount(out_vault, current_time, swapped, out_vault_lp_supply) is Some);
    let out_lp = spec_unmint_amount(out_vault, current_time, swapped, out_vault_lp_supply)->Some_0;
    assert(spec_amount_by_share(out_vault, current_time, out_lp, out_vault_lp_supply) == Some(
        out_amount,
    ));
    lemma_swap_output_conserves(before_in, before_out, source_amount, swapped);
    lemma_redeem_round_trip(out_vault, current_time, swapped, out_vault_lp_supply, out_lp);
}

/// Conservation of a full quote: the output amount stays strictly below the
/// output side's pre-swap balance and within the output vault's physically
/// available reserve, and the reported input is the nominal input.
pub proof fn lemma_quote_conservation(
    e: MeteoraCpEdge,
    current_time: u64,
    amount_in: u64,
    is_a_to_b: bool,
    q: Quote,
)
    requires
        spec_quote_exact_in(e, current_time, amount_in, is_a_to_b) == Some(q),
    ensures
        spec_before_out(e, current_time, is_a_to_b) is Some,
        q.out_amount < spec_before_out(e, current_time, is_a_to_b)->Some_0,
        q.out_amount <= spec_out_reserve(e, is_a_to_b),
        q.in_amount == amount_in,
{
    let token_a_amount = spec_amount_by_share(
        e.a_vault,
        current_time,
        e.a_vault_lp_token.amount,
        e.a_vault_lp_mint.supply,
    )->Some_0;
    let token_b_amount = spec_amount_by_share(
        e.b_vault,
        current_time,
        e.b_vault_lp_token.amount,
        e.b_vault_lp_mint.supply,
    )->Some_0;
    if is_a_to_b {
        lemma_quote_core_conserves(
            e.a_vault,
            e.b_vault,
            e.a_vault_lp_token.amount,
            e.a_vault_lp_mint.supply,
            e.b_vault_lp_mint.supply,
            e.b_vault_token.amount,
            token_a_amount,
            token_b_amount,
            e.pool.fees,
            current_time,
            amount_in,
            q.out_amount,
            q.fee_amount,
        );
    } else {
        lemma_quote_core_conserves(
            e.b_vault,
            e.a_vault,
            e.b_vault_lp_token.amount,
            e.b_vault_lp_mint.supply,
            e.a_vault_lp_mint.supply,
            e.a_vault_token.amount,
            token_b_amount,
            token_a_amount,
            e.pool.fees,
            current_time,
            amount_in,
            q.out_amount,
            q.fee_amount,
        );
    }
}

/// A disabled pool, or one on a curve this engine does not price, always
/// yields the defined zero quote denominated in token A's mint, whatever
/// the requested amount, direction or timestamp.
pub proof fn lemma_zero_quote_determinism(
    e: MeteoraCpEdge,
    current_time: u64,
    amount_in: u64,
    is_a_to_b: bool,
)
    requires
        !e.pool.enabled || e.pool.curve_type != CurveType::ConstantProduct,
    ensures
        spec_quote_or_zero(e, current_time, amount_in, is_a_to_b) == spec_zero_quote(
            e.pool.token_a_mint,
        ),
{
}

/// Overflow containment: when the pool charges no owner fee, the maximum
/// representable input amount can never produce a quote — some step of the
/// computation fails before an amount could wrap.  (With a nonzero owner
/// fee the deduction itself can bring the deposit back into range.)
pub proof fn lemma_overflow_containment(e: MeteoraCpEdge, current_time: u64, is_a_to_b: bool)
    requires
        e.pool.fees.owner_trade_fee_numerator == 0,
    ensures
        spec_quote_exact_in(e, current_time, u64::MAX, is_a_to_b) is None,
{
    let amount_in = u64::MAX;
    let fees = e.pool.fees;
    assert(spec_owner_trading_fee(fees, amount_in as u128) == Some(0u128));
    let in_vault = if is_a_to_b {
        e.a_vault
    } else {
        e.b_vault
    };
    let in_vault_lp_supply = if is_a_to_b {
        e.a_vault_lp_mint.supply
    } else {
        e.b_vault_lp_mint.supply
    };
    if spec_trading_fee(fees, amount_in as u128) is Some {
        if spec_unmint_amount(in_vault, current_time, amount_in, in_vault_lp_supply) is Some {
            assert(spec_unlocked_amount(in_vault, current_time) is Some);
            let unlocked = spec_unlocked_amount(in_vault, current_time)->Some_0;
            assert(unlocked > 0);
            assert(in_vault.total_amount >= unlocked);
            assert(in_vault.total_amount + amount_in > u64::MAX);
        }
    }
}

/// The mirror image of an edge: the two sides exchanged.
pub open spec fn spec_mirror(e: MeteoraCpEdge) -> MeteoraCpEdge {
    MeteoraCpEdge {
        pool: Pool {
            token_a_mint: e.pool.token_b_mint,
            token_b_mint: e.pool.token_a_mint,
            a_vault: e.pool.b_vault,
            b_vault: e.pool.a_vault,
            a_vault_lp: e.pool.b_vault_lp,
            b_vault_lp: e.pool.a_vault_lp,
            admin_token_a_fee: e.pool.admin_token_b_fee,
            admin_token_b_fee: e.pool.admin_token_a_fee,
            ..e.pool
        },
        a_vault: e.b_vault,
        b_vault: e.a_vault,
        a_vault_token: e.b_vault_token,
        b_vault_token: e.a_vault_token,
        a_vault_lp_token: e.b_vault_lp_token,
        b_vault_lp_token: e.a_vault_lp_token,
        a_vault_lp_mint: e.b_vault_lp_mint,
        b_vault_lp_mint: e.a_vault_lp_mint,
    }
}

/// Direction symmetry: both directions are governed by the same arithmetic.
/// Quoting A to B over an edge is the very same computation as quoting B to
/// A over the mirrored edge — same amounts, same fee, same fee mint.
pub proof fn lemma_direction_symmetry(e: MeteoraCpEdge, current_time: u64, amount_in: u64)
    ensures
        spec_quote_exact_in(e, current_time, amount_in, true) == spec_quote_exact_in(
            spec_mirror(e),
            current_time,
            amount_in,
            false,
        ),
{
}

} // verus!
