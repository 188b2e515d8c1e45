//! Plain-value forms of the on-chain account state a quote reads: account
//! identities, token-account balances and mint supplies.

use vstd::prelude::*;

verus! {

/// A 32-byte on-chain account identity.  The quoting logic never inspects
/// the bytes; it only selects and copies identities, so the type is a plain
/// value the embedding fills from its own key representation.
#[derive(Clone, Copy, Debug, PartialEq, Eq, Hash)]
pub struct Pubkey {
    pub bytes: [u8; 32],
}

/// The balance of a token account, the only field of it a quote reads.
#[derive(Clone, Copy, Debug, PartialEq, Eq)]
pub struct TokenAccount {
    pub amount: u64,
}

/// The total supply of a mint, the only field of it a quote reads.
#[derive(Clone, Copy, Debug, PartialEq, Eq)]
pub struct Mint {
    pub supply: u64,
}

} // verus!
