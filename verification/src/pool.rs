//! Pool configuration and the set of accounts whose updates affect a pool's
//! quotes.

use crate::accounts::Pubkey;
use crate::fees::PoolFees;
use crate::vault::Vault;
use vstd::prelude::*;

verus! {

/// The pricing curve a pool is configured with.  Only the constant-product
/// curve is quotable; any other tag yields a defined zero quote.
#[derive(Clone, Copy, Debug, PartialEq, Eq)]
pub enum CurveType {
    ConstantProduct,
    Stable,
}

/// A pool's configuration: its two token mints, fee schedule, curve tag,
/// enabled flag, and references to the vaults and accounts that hold its
/// liquidity.
#[derive(Clone, Copy, Debug, PartialEq, Eq)]
pub struct Pool {
    pub enabled: bool,
    pub curve_type: CurveType,
    pub token_a_mint: Pubkey,
    pub token_b_mint: Pubkey,
    pub a_vault: Pubkey,
    pub b_vault: Pubkey,
    pub a_vault_lp: Pubkey,
    pub b_vault_lp: Pubkey,
    pub admin_token_a_fee: Pubkey,
    pub admin_token_b_fee: Pubkey,
    pub fees: PoolFees,
}

impl Pool {
    /// Whether the pool is in a state this engine can quote: enabled and on
    /// the constant-product curve.  A pool failing this check is a
    /// legitimate venue state and yields a zero quote, not an error.
    pub fn is_quotable(&self) -> (r: bool)
        ensures
            r == (self.enabled && self.curve_type == CurveType::ConstantProduct),
    {
        self.enabled && match self.curve_type {
            CurveType::ConstantProduct => true,
            CurveType::Stable => false,
        }
    }
}

/// Every account that participates in either direction of a pool's quote
/// computation, in a fixed order: the pool itself, both vaults, both vault
/// token reserves, both vault LP holdings, and both LP mints.  An update to
/// any of them must invalidate the pool's edges.
pub fn participating_accounts(pool_pk: Pubkey, pool: &Pool, a_vault: &Vault, b_vault: &Vault) -> (r:
    Vec<Pubkey>)
    ensures
        r@.len() == 9,
        r@[0] == pool_pk,
        r@[1] == pool.a_vault,
        r@[2] == pool.b_vault,
        r@[3] == a_vault.token_vault,
        r@[4] == b_vault.token_vault,
        r@[5] == pool.a_vault_lp,
        r@[6] == pool.b_vault_lp,
        r@[7] == a_vault.lp_mint,
        r@[8] == b_vault.lp_mint,
{
    let mut r: Vec<Pubkey> = Vec::new();
    r.push(pool_pk);
    r.push(pool.a_vault);
    r.push(pool.b_vault);
    r.push(a_vault.token_vault);
    r.push(b_vault.token_vault);
    r.push(pool.a_vault_lp);
    r.push(pool.b_vault_lp);
    r.push(a_vault.lp_mint);
    r.push(b_vault.lp_mint);
    r
}

} // verus!
