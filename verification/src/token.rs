//! The reward token as the transitions see it: its mint, and the request to
//! mint an amount to a holder.

use vstd::prelude::*;
use crate::authority::config_seeds;
use crate::authority::seed_bytes;
use crate::authority::signer_seeds;
use crate::authority::spec_config_seeds;
use crate::authority::with_bump;
use crate::identity::Identity;

verus! {

/// What a claim reads of the reward mint.
#[derive(Clone, Copy, Debug, PartialEq, Eq, Structural)]
pub struct Mint {
    /// Number of decimals of one whole token.
    pub decimals: u8,
}

/// The request to the token ledger to mint reward tokens.
#[derive(Clone, Copy, Debug, PartialEq, Eq)]
pub struct MintRequest {
    pub mint: Identity,
    /// The holder's token account, which receives the tokens.
    pub destination: Identity,
    /// In whose name the tokens are minted: the configuration.
    pub authority: Identity,
    /// Token units to mint; never zero.
    pub amount: u64,
    /// The bump with which the program signs for the configuration.
    pub authority_bump: u8,
}

impl MintRequest {
    /// The seeds with which the program signs the request.
    pub open spec fn spec_signer_seeds(self) -> Seq<Seq<u8>> {
        with_bump(spec_config_seeds(), self.authority_bump)
    }

    /// The seeds with which the program signs the request.
    pub fn signer_seeds(&self) -> (signing: Vec<Vec<u8>>)
        ensures
            seed_bytes(signing@) == self.spec_signer_seeds(),
    {
        signer_seeds(config_seeds(), self.authority_bump)
    }
}

} // verus!
