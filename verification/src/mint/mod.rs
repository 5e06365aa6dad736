//! Mint accounts: the global state of one token.

pub mod account;
pub mod ixs;
pub mod metadata;

use crate::address::Address;
use crate::cli::SolanaRpcArgs;
use vstd::prelude::*;

verus! {

/// The mint to fetch, and where to fetch it.
#[derive(Clone, Debug)]
pub struct FetchMint {
    pub mint_pubkey: Address,
    pub solana: SolanaRpcArgs,
}

/// What can be done with a mint.
#[derive(Debug)]
pub enum MintCommands {
    /// Fetch the mint and show it.
    Fetch(FetchMint),
    /// Pick an instruction at a prompt.
    Ix,
}

} // verus!
