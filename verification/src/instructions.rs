//! Assembly of a swap instruction: the minimum-acceptable-output threshold
//! and the exact, fixed ordering of accounts the on-chain program expects.
//! Any reordering of the account list breaks execution, so the order is
//! pinned by the contract.

use crate::accounts::Pubkey;
use crate::edge::MeteoraCpEdgeIdentifier;
use crate::math::lemma_floor_mul_div_le;
use crate::pool::Pool;
use crate::vault::Vault;
use vstd::prelude::*;

verus! {

/// One entry of an instruction's ordered account list.
#[derive(Clone, Copy, Debug, PartialEq, Eq)]
pub struct AccountMeta {
    pub pubkey: Pubkey,
    pub is_signer: bool,
    pub is_writable: bool,
}

/// The program identities a swap instruction addresses: the AMM program,
/// the vault program, and the token program.  Fixed constants of the chain
/// the embedding supplies.
#[derive(Clone, Copy, Debug, PartialEq, Eq)]
pub struct ProgramIds {
    pub amm_program: Pubkey,
    pub vault_program: Pubkey,
    pub token_program: Pubkey,
}

/// A prepared swap instruction: the ordered account list, the two amounts
/// the payload carries, and metadata the router uses (which account and
/// mint the output lands in, the byte offset of the input amount within the
/// payload for later patching, and a compute-cost hint).
pub struct SwapInstruction {
    pub accounts: Vec<AccountMeta>,
    pub amount: u64,
    pub other_amount_threshold: u64,
    pub out_pubkey: Pubkey,
    pub out_mint: Pubkey,
    pub in_amount_offset: usize,
    pub cu_estimate: Option<u32>,
}

/// A writable, non-signing account entry.
pub open spec fn spec_writable(pubkey: Pubkey) -> AccountMeta {
    AccountMeta { pubkey, is_signer: false, is_writable: true }
}

/// A read-only, non-signing account entry.
pub open spec fn spec_readonly(pubkey: Pubkey) -> AccountMeta {
    AccountMeta { pubkey, is_signer: false, is_writable: false }
}

/// The minimum acceptable output under a slippage tolerance in basis
/// points: `out_amount * (10000 - max_slippage_bps) / 10000`, rounded down.
pub open spec fn spec_min_out_amount(out_amount: u64, max_slippage_bps: i32) -> int {
    out_amount * (10000 - max_slippage_bps) / 10000
}

/// Applies a slippage tolerance to a quoted output amount.
pub fn min_out_amount(out_amount: u64, max_slippage_bps: i32) -> (r: u64)
    requires
        0 <= max_slippage_bps <= 10000,
    ensures
        r == spec_min_out_amount(out_amount, max_slippage_bps),
{
    let factor: u64 = (10000 - max_slippage_bps) as u64;
    proof {
        assert((out_amount as int) * (factor as int) <= (u64::MAX as int) * 10000)
            by (nonlinear_arith)
            requires
                0 <= out_amount <= u64::MAX,
                0 <= factor <= 10000,
        ;
        assert((out_amount as int) * (factor as int) <= (out_amount as int) * 10000)
            by (nonlinear_arith)
            requires
                0 <= out_amount,
                0 <= factor <= 10000,
        ;
        lemma_floor_mul_div_le((out_amount as int) * (factor as int), out_amount as int, 10000);
    }
    let wide: u128 = (out_amount as u128) * (factor as u128) / 10000;
    wide as u64
}

/// Assembles the swap instruction for one directed edge: the slippage
/// threshold from the quoted output, and the account list in the exact
/// order the on-chain program requires.  The wallet's input and output
/// token accounts are supplied by the caller, which derives them from the
/// wallet identity and the mints.
pub fn build_swap_ix(
    id: &MeteoraCpEdgeIdentifier,
    pool: &Pool,
    a_vault: &Vault,
    b_vault: &Vault,
    programs: &ProgramIds,
    wallet_pk: Pubkey,
    input_token_account: Pubkey,
    output_token_account: Pubkey,
    in_amount: u64,
    out_amount: u64,
    max_slippage_bps: i32,
) -> (r: SwapInstruction)
    requires
        0 <= max_slippage_bps <= 10000,
    ensures
        r.amount == in_amount,
        r.other_amount_threshold == spec_min_out_amount(out_amount, max_slippage_bps),
        r.out_pubkey == output_token_account,
        r.out_mint == if id.is_a_to_b {
            pool.token_b_mint
        } else {
            pool.token_a_mint
        },
        r.in_amount_offset == 8,
        r.cu_estimate == Some(40_000u32),
        r.accounts@.len() == 16,
        r.accounts@[0] == spec_readonly(programs.amm_program),
        r.accounts@[1] == spec_writable(id.pool),
        r.accounts@[2] == spec_writable(input_token_account),
        r.accounts@[3] == spec_writable(output_token_account),
        r.accounts@[4] == spec_writable(pool.a_vault),
        r.accounts@[5] == spec_writable(pool.b_vault),
        r.accounts@[6] == spec_writable(a_vault.token_vault),
        r.accounts@[7] == spec_writable(b_vault.token_vault),
        r.accounts@[8] == spec_writable(a_vault.lp_mint),
        r.accounts@[9] == spec_writable(b_vault.lp_mint),
        r.accounts@[10] == spec_writable(pool.a_vault_lp),
        r.accounts@[11] == spec_writable(pool.b_vault_lp),
        r.accounts@[12] == spec_writable(
            if id.is_a_to_b {
                pool.admin_token_a_fee
            } else {
                pool.admin_token_b_fee
            },
        ),
        r.accounts@[13] == (AccountMeta { pubkey: wallet_pk, is_signer: true, is_writable: true }),
        r.accounts@[14] == spec_readonly(programs.vault_program),
        r.accounts@[15] == spec_readonly(programs.token_program),
{
    let other_amount_threshold = min_out_amount(out_amount, max_slippage_bps);
    let out_mint = if id.is_a_to_b {
        pool.token_b_mint
    } else {
        pool.token_a_mint
    };
    let admin_token_fee = if id.is_a_to_b {
        pool.admin_token_a_fee
    } else {
        pool.admin_token_b_fee
    };
    let mut accounts: Vec<AccountMeta> = Vec::new();
    accounts.push(AccountMeta { pubkey: programs.amm_program, is_signer: false, is_writable: false });
    accounts.push(AccountMeta { pubkey: id.pool, is_signer: false, is_writable: true });
    accounts.push(AccountMeta { pubkey: input_token_account, is_signer: false, is_writable: true });
    accounts.push(AccountMeta { pubkey: output_token_account, is_signer: false, is_writable: true });
    accounts.push(AccountMeta { pubkey: pool.a_vault, is_signer: false, is_writable: true });
    accounts.push(AccountMeta { pubkey: pool.b_vault, is_signer: false, is_writable: true });
    accounts.push(AccountMeta { pubkey: a_vault.token_vault, is_signer: false, is_writable: true });
    accounts.push(AccountMeta { pubkey: b_vault.token_vault, is_signer: false, is_writable: true });
    accounts.push(AccountMeta { pubkey: a_vault.lp_mint, is_signer: false, is_writable: true });
    accounts.push(AccountMeta { pubkey: b_vault.lp_mint, is_signer: false, is_writable: true });
    accounts.push(AccountMeta { pubkey: pool.a_vault_lp, is_signer: false, is_writable: true });
    accounts.push(AccountMeta { pubkey: pool.b_vault_lp, is_signer: false, is_writable: true });
    accounts.push(AccountMeta { pubkey: admin_token_fee, is_signer: false, is_writable: true });
    accounts.push(AccountMeta { pubkey: wallet_pk, is_signer: true, is_writable: true });
    accounts.push(AccountMeta { pubkey: programs.vault_program, is_signer: false, is_writable: false });
    accounts.push(AccountMeta { pubkey: programs.token_program, is_signer: false, is_writable: false });
    SwapInstruction {
        accounts,
        amount: in_amount,
        other_amount_threshold,
        out_pubkey: output_token_account,
        out_mint,
        in_amount_offset: 8,
        cu_estimate: Some(40_000),
    }
}

} // verus!
