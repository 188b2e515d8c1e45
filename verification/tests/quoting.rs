//! End-to-end tests of the exact-input quote over an edge snapshot.

use dex_meteora_cpmm::accounts::{Mint, Pubkey, TokenAccount};
use dex_meteora_cpmm::edge::{MeteoraCpEdge, Quote};
use dex_meteora_cpmm::fees::PoolFees;
use dex_meteora_cpmm::pool::{CurveType, Pool};
use dex_meteora_cpmm::vault::{LockedProfitTracker, Vault};

fn pk(tag: u8) -> Pubkey {
    Pubkey { bytes: [tag; 32] }
}

fn idle_vault(total: u64, token_vault: Pubkey, lp_mint: Pubkey) -> Vault {
    Vault {
        total_amount: total,
        locked_profit_tracker: LockedProfitTracker {
            last_updated_locked_profit: 0,
            last_report: 0,
            locked_profit_degradation: 0,
        },
        token_vault,
        lp_mint,
    }
}

fn zero_fees() -> PoolFees {
    PoolFees {
        trade_fee_numerator: 0,
        trade_fee_denominator: 10_000,
        owner_trade_fee_numerator: 0,
        owner_trade_fee_denominator: 10_000,
    }
}

/// Vault A backs 1_000_000 tokens, vault B 2_000_000; the pool owns every
/// outstanding LP share of both, so the "before" balances equal the vault
/// totals.
fn fixture(fees: PoolFees) -> MeteoraCpEdge {
    MeteoraCpEdge {
        pool: Pool {
            enabled: true,
            curve_type: CurveType::ConstantProduct,
            token_a_mint: pk(10),
            token_b_mint: pk(11),
            a_vault: pk(12),
            b_vault: pk(13),
            a_vault_lp: pk(14),
            b_vault_lp: pk(15),
            admin_token_a_fee: pk(16),
            admin_token_b_fee: pk(17),
            fees,
        },
        a_vault: idle_vault(1_000_000, pk(20), pk(21)),
        b_vault: idle_vault(2_000_000, pk(22), pk(23)),
        a_vault_token: TokenAccount { amount: 1_000_000 },
        b_vault_token: TokenAccount { amount: 2_000_000 },
        a_vault_lp_token: TokenAccount { amount: 1_000_000 },
        b_vault_lp_token: TokenAccount { amount: 2_000_000 },
        a_vault_lp_mint: Mint { supply: 1_000_000 },
        b_vault_lp_mint: Mint { supply: 2_000_000 },
    }
}

#[test]
fn quote_matches_ceiling_division_fixture() {
    // invariant = 1e6 * 2e6 = 2e12, new source = 1_010_000,
    // new destination = ceil(2e12 / 1_010_000) = 1_980_199,
    // swapped = 2_000_000 - 1_980_199 = 19_801.
    let edge = fixture(zero_fees());
    let quote = edge.quote_exact_in(0, 10_000, true).unwrap();
    assert_eq!(
        quote,
        Quote {
            in_amount: 10_000,
            out_amount: 19_801,
            fee_amount: 0,
            fee_mint: pk(10),
        }
    );
}

#[test]
fn quote_applies_fees_in_protocol_order() {
    // Owner fee 5 bps is deducted before the deposit (net 9_995), the
    // trading fee 25 bps after the credited amount is re-derived
    // (9_995 - 25 = 9_970 enters the invariant), and only the trading fee
    // is reported.
    let fees = PoolFees {
        trade_fee_numerator: 25,
        trade_fee_denominator: 10_000,
        owner_trade_fee_numerator: 5,
        owner_trade_fee_denominator: 10_000,
    };
    let edge = fixture(fees);
    let quote = edge.quote_exact_in(0, 10_000, true).unwrap();
    assert_eq!(
        quote,
        Quote {
            in_amount: 10_000,
            out_amount: 19_743,
            fee_amount: 25,
            fee_mint: pk(10),
        }
    );
}

#[test]
fn quote_conserves_destination_reserve() {
    let edge = fixture(zero_fees());
    let quote = edge.quote_exact_in(0, 10_000, true).unwrap();
    assert!(quote.out_amount < 2_000_000);
    assert!(quote.out_amount <= edge.b_vault_token.amount);
}

#[test]
fn quote_reverse_direction_uses_same_math() {
    // Quoting B -> A: invariant = 2e12, new source = 2_000_000 + 10_000,
    // new destination = ceil(2e12 / 2_010_000) = 995_025 (2e12 / 2_010_000
    // = 995_024.87...), swapped = 1_000_000 - 995_025 = 4_975.
    let edge = fixture(zero_fees());
    let quote = edge.quote_exact_in(0, 10_000, false).unwrap();
    assert_eq!(
        quote,
        Quote {
            in_amount: 10_000,
            out_amount: 4_975,
            fee_amount: 0,
            fee_mint: pk(11),
        }
    );
}

#[test]
fn quote_direction_symmetry_on_mirrored_edge() {
    let fees = PoolFees {
        trade_fee_numerator: 30,
        trade_fee_denominator: 10_000,
        owner_trade_fee_numerator: 10,
        owner_trade_fee_denominator: 10_000,
    };
    let edge = fixture(fees);
    let mirrored = MeteoraCpEdge {
        pool: Pool {
            enabled: true,
            curve_type: CurveType::ConstantProduct,
            token_a_mint: pk(11),
            token_b_mint: pk(10),
            a_vault: pk(13),
            b_vault: pk(12),
            a_vault_lp: pk(15),
            b_vault_lp: pk(14),
            admin_token_a_fee: pk(17),
            admin_token_b_fee: pk(16),
            fees,
        },
        a_vault: edge.b_vault,
        b_vault: edge.a_vault,
        a_vault_token: edge.b_vault_token,
        b_vault_token: edge.a_vault_token,
        a_vault_lp_token: edge.b_vault_lp_token,
        b_vault_lp_token: edge.a_vault_lp_token,
        a_vault_lp_mint: edge.b_vault_lp_mint,
        b_vault_lp_mint: edge.a_vault_lp_mint,
    };
    assert_eq!(
        edge.quote_exact_in(0, 10_000, true),
        mirrored.quote_exact_in(0, 10_000, false)
    );
    assert_eq!(
        edge.quote_exact_in(0, 77_777, false),
        mirrored.quote_exact_in(0, 77_777, true)
    );
}

#[test]
fn quote_rejects_insufficient_reserve() {
    // The computation would pay out 19_801, but the output vault only has
    // 19_800 tokens on hand: the quote must fail, not truncate.
    let mut edge = fixture(zero_fees());
    edge.b_vault_token = TokenAccount { amount: 19_800 };
    assert_eq!(edge.quote_exact_in(0, 10_000, true), None);
    // One more token on hand and the same quote succeeds.
    edge.b_vault_token = TokenAccount { amount: 19_801 };
    assert_eq!(
        edge.quote_exact_in(0, 10_000, true).unwrap().out_amount,
        19_801
    );
}

#[test]
fn quote_fails_on_maximum_input() {
    let edge = fixture(zero_fees());
    assert_eq!(edge.quote_exact_in(0, u64::MAX, true), None);
    assert_eq!(edge.quote_exact_in(0, u64::MAX, false), None);
}

#[test]
fn quote_fails_on_zero_input() {
    // A zero deposit moves nothing through the invariant; the zero-output
    // swap is "not quotable", matching the on-chain revert.
    let edge = fixture(zero_fees());
    assert_eq!(edge.quote_exact_in(0, 0, true), None);
}

#[test]
fn quote_fails_on_empty_input_vault() {
    let mut edge = fixture(zero_fees());
    edge.a_vault = idle_vault(0, pk(20), pk(21));
    // The input vault has no unlocked tokens, so shares cannot be priced.
    assert_eq!(edge.quote_exact_in(0, 10_000, true), None);
}

#[test]
fn disabled_pool_yields_zero_quote() {
    let mut edge = fixture(zero_fees());
    edge.pool.enabled = false;
    let zero = Quote {
        in_amount: 0,
        out_amount: 0,
        fee_amount: 0,
        fee_mint: pk(10),
    };
    assert_eq!(edge.quote(0, 10_000, true), zero);
    assert_eq!(edge.quote(0, 123_456_789, true), zero);
    assert_eq!(edge.quote(0, u64::MAX, false), zero);
}

#[test]
fn unsupported_curve_yields_zero_quote() {
    let mut edge = fixture(zero_fees());
    edge.pool.curve_type = CurveType::Stable;
    let zero = Quote {
        in_amount: 0,
        out_amount: 0,
        fee_amount: 0,
        fee_mint: pk(10),
    };
    assert_eq!(edge.quote(0, 10_000, true), zero);
}

#[test]
fn failed_computation_yields_zero_quote() {
    let mut edge = fixture(zero_fees());
    edge.b_vault_token = TokenAccount { amount: 1 };
    let zero = Quote {
        in_amount: 0,
        out_amount: 0,
        fee_amount: 0,
        fee_mint: pk(10),
    };
    assert_eq!(edge.quote(0, 10_000, true), zero);
}

#[test]
fn enabled_pool_passes_quote_through() {
    let edge = fixture(zero_fees());
    let quote = edge.quote(0, 10_000, true);
    assert_eq!(quote.out_amount, 19_801);
    assert_eq!(quote.in_amount, 10_000);
}

#[test]
fn quote_accounts_for_locked_profit() {
    // The input vault reports 1_000 locked profit, half unlocked by the
    // quote timestamp: the input side is priced on 999_500 unlocked
    // tokens, not the raw total.
    let mut edge = fixture(zero_fees());
    edge.a_vault = Vault {
        total_amount: 1_000_000,
        locked_profit_tracker: LockedProfitTracker {
            last_updated_locked_profit: 1_000,
            last_report: 0,
            locked_profit_degradation: 10_000_000_000,
        },
        token_vault: pk(20),
        lp_mint: pk(21),
    };
    let halfway = edge.quote_exact_in(50, 10_000, true).unwrap();
    let fully_unlocked = edge.quote_exact_in(100, 10_000, true).unwrap();
    // before_in differs (999_500 vs 1_000_000), so the outputs differ.
    assert_ne!(halfway.out_amount, fully_unlocked.out_amount);
    // Fully unlocked the vault behaves like the idle fixture.
    assert_eq!(fully_unlocked.out_amount, 19_801);
}
