//! Claiming rewards: the holder's points are minted as reward tokens, and
//! the points start again from zero.

use vstd::prelude::*;
use crate::authority::config_derives;
use crate::authority::reward_mint_derives;
use crate::authority::user_account_derives;
use crate::authority::verify_config;
use crate::authority::verify_reward_mint;
use crate::authority::verify_user_account;
use crate::errors::Checked;
use crate::errors::StakeError;
use crate::identity::Identity;
use crate::rewards::compute_tokens;
use crate::rewards::tokens_to_mint;
use crate::state::Account;
use crate::state::Signer;
use crate::state::StakeConfig;
use crate::state::UserAccount;
use crate::token::Mint;
use crate::token::MintRequest;

verus! {

/// What a claim is shown: the holder and its token account, the
/// configuration, the holder's ledger and the reward mint.
#[derive(Clone, Debug, PartialEq, Eq)]
pub struct Claim {
    /// The staking program's own identity.
    pub program: Identity,
    pub user: Signer,
    /// The holder's token account for the reward token.
    pub rewards_ata: Identity,
    pub config: Account<StakeConfig>,
    pub user_account: Account<UserAccount>,
    pub reward_mint: Account<Mint>,
}

impl Claim {
    /// The holder has signed, and the configuration, the ledger and the
    /// reward mint are kept at their derived identities.
    pub open spec fn authorized(self) -> bool {
        &&& self.user.is_signer
        &&& config_derives(self.program, self.config)
        &&& user_account_derives(self.program, self.user.key, self.user_account)
        &&& reward_mint_derives(self.program, self.config, self.reward_mint.key)
    }

    /// The one precondition of a claim: authorization.
    pub open spec fn admits(self, authorized: bool) -> Checked {
        if !authorized {
            Err(StakeError::AuthorizationMismatch)
        } else {
            Ok(())
        }
    }

    /// The token units that the holder's points are worth.
    pub open spec fn tokens(self) -> u64 {
        tokens_to_mint(self.user_account.record.points, self.reward_mint.record.decimals)
    }

    /// The request that a claim hands to the token ledger: mint the tokens to
    /// the holder's token account in the configuration's name. None where
    /// there is nothing to mint.
    pub open spec fn mint_request(self) -> Option<MintRequest> {
        if self.tokens() > 0 {
            Some(
                MintRequest {
                    mint: self.reward_mint.key,
                    destination: self.rewards_ata,
                    authority: self.config.key,
                    amount: self.tokens(),
                    authority_bump: self.config.record.bump,
                },
            )
        } else {
            None
        }
    }

    /// The records after a claim: the ledger holds no points.
    pub open spec fn claimed(self) -> Claim {
        Claim {
            user_account: Account {
                key: self.user_account.key,
                record: self.user_account.record.claimed(),
            },
            ..self
        }
    }

    /// What a claim does: the request, if any, and the records it leaves, or
    /// the error on which it leaves the records as they are.
    pub open spec fn outcome(self, authorized: bool) -> (
        Result<Option<MintRequest>, StakeError>,
        Claim,
    ) {
        match self.admits(authorized) {
            Ok(_) => (Ok(self.mint_request()), self.claimed()),
            Err(error) => (Err(error), self),
        }
    }

    /// Checks the holder's signature and the identities of the records.
    pub fn is_authorized(&self) -> (accepted: bool)
        ensures
            accepted == self.authorized(),
    {
        self.user.is_signer && verify_config(&self.program, &self.config) && verify_user_account(
            &self.program,
            &self.user.key,
            &self.user_account,
        ) && verify_reward_mint(&self.program, &self.config, &self.reward_mint.key)
    }

    /// Claims the holder's points, given whether the claim is authorized.
    ///
    /// On success the ledger holds no points, whether or not anything is
    /// minted, and the request to mint is returned where the points are
    /// worth at least one token unit: one whole token for each point, and
    /// nothing where that amount does not fit. On an error nothing changes.
    pub fn claim_with(&mut self, authorized: bool) -> (result: Result<
        Option<MintRequest>,
        StakeError,
    >)
        ensures
            (result, *final(self)) == old(self).outcome(authorized),
            result is Ok <==> authorized,
            result is Ok ==> final(self).user_account.record.points == 0,
            result is Ok ==> final(self).user_account.record.amount_staked == old(
                self,
            ).user_account.record.amount_staked,
            result is Err ==> *final(self) == *old(self),
            result matches Ok(Some(request)) ==> request.amount > 0,
            old(self).user_account.record.points == 0 ==> !(result matches Ok(Some(_))),
    {
        if !authorized {
            return Err(StakeError::AuthorizationMismatch);
        }
        let amount = compute_tokens(
            self.user_account.record.points,
            self.reward_mint.record.decimals,
        );
        let request = if amount > 0 {
            Some(
                MintRequest {
                    mint: self.reward_mint.key,
                    destination: self.rewards_ata,
                    authority: self.config.key,
                    amount,
                    authority_bump: self.config.record.bump,
                },
            )
        } else {
            None
        };
        self.user_account.record.record_claim();
        Ok(request)
    }

    /// Claims the holder's points: checks the signature and the identities,
    /// and goes on as `claim_with` does.
    pub fn claim(&mut self) -> (result: Result<Option<MintRequest>, StakeError>)
        ensures
            (result, *final(self)) == old(self).outcome(old(self).authorized()),
            result is Ok <==> old(self).authorized(),
            result is Ok ==> final(self).user_account.record.points == 0,
            result is Err ==> *final(self) == *old(self),
            result matches Ok(Some(request)) ==> request.amount > 0,
            old(self).user_account.record.points == 0 ==> !(result matches Ok(Some(_))),
    {
        let authorized = self.is_authorized();
        self.claim_with(authorized)
    }
}

} // verus!
