//! Token accounts: one owner's balance of one mint.

pub mod account;
pub mod ixs;

use crate::address::Address;
use crate::cli::SolanaRpcArgs;
use vstd::prelude::*;

verus! {

/// The token account to fetch, and where to fetch it.
#[derive(Clone, Debug)]
pub struct FetchTokenAccount {
    pub account_pubkey: Address,
    pub solana: SolanaRpcArgs,
}

/// What can be done with a token account.
#[derive(Debug)]
pub enum TokenAccountCommands {
    /// Fetch the account and its mint and show both.
    Fetch(FetchTokenAccount),
    /// Pick an instruction at a prompt, build it and send it.
    Ix(SolanaRpcArgs),
}

} // verus!
