//! Staking an asset: the asset is frozen, a stake record is made for it, and
//! the holder's ledger counts one more.

use vstd::prelude::*;
use crate::authority::config_derives;
use crate::authority::derives_canonically;
use crate::authority::spec_stake_seeds;
use crate::authority::stake_seeds;
use crate::authority::user_account_derives;
use crate::authority::verify_canonical;
use crate::authority::verify_config;
use crate::authority::verify_user_account;
use crate::errors::both;
use crate::errors::Checked;
use crate::errors::StakeError;
use crate::identity::Identity;
use crate::registry::asset_account_check;
use crate::registry::check_asset_account;
use crate::registry::check_collection_account;
use crate::registry::check_membership;
use crate::registry::check_ownership;
use crate::registry::collection_account_check;
use crate::registry::decode_asset;
use crate::registry::decoded_asset;
use crate::registry::membership_check;
use crate::registry::ownership_check;
use crate::registry::BaseAsset;
use crate::registry::FreezeRequest;
use crate::registry::RegistryAccount;
use crate::state::Account;
use crate::state::Signer;
use crate::state::StakeAccount;
use crate::state::StakeConfig;
use crate::state::UserAccount;

verus! {

/// The bumps found for the records that a stake makes.
#[derive(Clone, Copy, Debug, PartialEq, Eq, Structural)]
pub struct StakeBumps {
    pub stake_account: u8,
}

/// What a stake is shown: the holder, the asset and its collection as the
/// registry keeps them, the place of the stake record to be made, the
/// configuration and the holder's ledger.
#[derive(Clone, Debug, PartialEq, Eq)]
pub struct Stake {
    /// The staking program's own identity.
    pub program: Identity,
    pub user: Signer,
    pub asset: RegistryAccount,
    pub collection: RegistryAccount,
    /// Where the stake record of the asset is kept; empty while the asset is
    /// not staked.
    pub stake_account: Account<Option<StakeAccount>>,
    pub config: Account<StakeConfig>,
    pub user_account: Account<UserAccount>,
}

impl Stake {
    /// The holder has signed, the stake record's place is the one found for
    /// the asset, with the bump presented, and the configuration and the
    /// ledger are kept at their derived identities.
    pub open spec fn authorized(self, bumps: StakeBumps) -> bool {
        &&& self.user.is_signer
        &&& derives_canonically(
            spec_stake_seeds(self.config.key, self.asset.key),
            bumps.stake_account,
            self.program,
            self.stake_account.key,
        )
        &&& config_derives(self.program, self.config)
        &&& user_account_derives(self.program, self.user.key, self.user_account)
    }

    /// The first precondition of a stake that fails, given whether the stake
    /// is authorized and what was read from the asset record. In order:
    /// authorization; no stake record for the asset exists; the holder is
    /// under the limit; the asset record and the collection record belong to
    /// the registry and are not empty; the holder owns the asset; the asset is
    /// a member of the collection.
    pub open spec fn admits(self, authorized: bool, asset: Option<BaseAsset>) -> Checked {
        if !authorized {
            Err(StakeError::AuthorizationMismatch)
        } else if self.stake_account.record is Some {
            Err(StakeError::DuplicateRecord)
        } else if self.user_account.record.amount_staked >= self.config.record.max_stake {
            Err(StakeError::LimitExceeded)
        } else {
            both(
                asset_account_check(self.asset),
                both(
                    collection_account_check(self.collection),
                    both(
                        ownership_check(asset, self.user.key),
                        membership_check(asset, self.collection.key),
                    ),
                ),
            )
        }
    }

    /// The stake record that a stake at `now` makes.
    pub open spec fn new_record(self, bumps: StakeBumps, now: i64) -> StakeAccount {
        StakeAccount {
            owner: self.user.key,
            asset: self.asset.key,
            staked_at: now,
            bump: bumps.stake_account,
        }
    }

    /// The records after a stake at `now`.
    pub open spec fn staked(self, bumps: StakeBumps, now: i64) -> Stake {
        Stake {
            stake_account: Account {
                key: self.stake_account.key,
                record: Some(self.new_record(bumps, now)),
            },
            user_account: Account {
                key: self.user_account.key,
                record: self.user_account.record.staked(),
            },
            ..self
        }
    }

    /// The request that a stake hands to the registry: freeze the asset, in
    /// the holder's name and at the holder's cost.
    pub open spec fn freeze_request(self) -> FreezeRequest {
        FreezeRequest {
            asset: self.asset.key,
            collection: self.collection.key,
            payer: self.user.key,
            authority: self.user.key,
            frozen: true,
            authority_bump: None,
        }
    }

    /// What a stake at `now` does: the request and the records it leaves, or
    /// the error on which it leaves the records as they are.
    pub open spec fn outcome(
        self,
        bumps: StakeBumps,
        now: i64,
        authorized: bool,
        asset: Option<BaseAsset>,
    ) -> (Result<FreezeRequest, StakeError>, Stake) {
        match self.admits(authorized, asset) {
            Ok(_) => (Ok(self.freeze_request()), self.staked(bumps, now)),
            Err(error) => (Err(error), self),
        }
    }

    /// Checks the holder's signature and the identities of the records.
    pub fn is_authorized(&self, bumps: &StakeBumps) -> (accepted: bool)
        ensures
            accepted == self.authorized(*bumps),
    {
        self.user.is_signer && verify_canonical(
            &stake_seeds(&self.config.key, &self.asset.key),
            bumps.stake_account,
            &self.program,
            &self.stake_account.key,
        ) && verify_config(&self.program, &self.config) && verify_user_account(
            &self.program,
            &self.user.key,
            &self.user_account,
        )
    }

    /// Stakes the asset at `now`, given whether the stake is authorized and
    /// what was read from the asset record.
    ///
    /// On success the ledger counts exactly one asset more and stays within
    /// the limit, the stake record holds the holder, the asset, `now` and the
    /// bump, and the request to freeze the asset is returned. On an error
    /// nothing changes.
    pub fn stake_with(
        &mut self,
        bumps: &StakeBumps,
        now: i64,
        authorized: bool,
        asset: &Option<BaseAsset>,
    ) -> (result: Result<FreezeRequest, StakeError>)
        ensures
            (result, *final(self)) == old(self).outcome(*bumps, now, authorized, *asset),
            result is Ok ==> final(self).user_account.record.amount_staked == old(
                self,
            ).user_account.record.amount_staked + 1,
            result is Ok ==> final(self).user_account.record.within_limit(
                final(self).config.record,
            ),
            result is Err ==> *final(self) == *old(self),
            !authorized ==> result == Err::<FreezeRequest, StakeError>(
                StakeError::AuthorizationMismatch,
            ),
            authorized && old(self).stake_account.record is Some ==> result == Err::<
                FreezeRequest,
                StakeError,
            >(StakeError::DuplicateRecord),
            authorized && old(self).stake_account.record is None && old(
                self,
            ).user_account.record.amount_staked >= old(self).config.record.max_stake ==> result
                == Err::<FreezeRequest, StakeError>(StakeError::LimitExceeded),
    {
        if !authorized {
            return Err(StakeError::AuthorizationMismatch);
        }
        if self.stake_account.record.is_some() {
            return Err(StakeError::DuplicateRecord);
        }
        if self.user_account.record.amount_staked >= self.config.record.max_stake {
            return Err(StakeError::LimitExceeded);
        }
        check_asset_account(&self.asset)?;
        check_collection_account(&self.collection)?;
        check_ownership(asset, &self.user.key)?;
        check_membership(asset, &self.collection.key)?;
        let request = FreezeRequest {
            asset: self.asset.key,
            collection: self.collection.key,
            payer: self.user.key,
            authority: self.user.key,
            frozen: true,
            authority_bump: None,
        };
        self.stake_account.record = Some(
            StakeAccount {
                owner: self.user.key,
                asset: self.asset.key,
                staked_at: now,
                bump: bumps.stake_account,
            },
        );
        self.user_account.record.record_stake();
        Ok(request)
    }

    /// Stakes the asset at `now`: checks the signature and the identities,
    /// reads the asset record, and goes on as `stake_with` does.
    pub fn stake(
        &mut self,
        bumps: &StakeBumps,
        now: i64,
    ) -> (result: Result<FreezeRequest, StakeError>)
        ensures
            (result, *final(self)) == old(self).outcome(
                *bumps,
                now,
                old(self).authorized(*bumps),
                decoded_asset(old(self).asset.data@),
            ),
            result is Ok ==> final(self).user_account.record.amount_staked == old(
                self,
            ).user_account.record.amount_staked + 1,
            result is Ok ==> final(self).user_account.record.within_limit(
                final(self).config.record,
            ),
            result is Err ==> *final(self) == *old(self),
            !old(self).authorized(*bumps) ==> result == Err::<FreezeRequest, StakeError>(
                StakeError::AuthorizationMismatch,
            ),
    {
        let authorized = self.is_authorized(bumps);
        let asset = decode_asset(&self.asset.data);
        self.stake_with(bumps, now, authorized, &asset)
    }
}

} // verus!
