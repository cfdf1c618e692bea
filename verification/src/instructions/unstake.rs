//! Unstaking an asset: once the freeze period has passed, the holder earns
//! the points of the stay, the asset is unfrozen, and the stake record ends.

use vstd::prelude::*;
use crate::authority::collection_info_derives;
use crate::authority::config_derives;
use crate::authority::stake_account_derives;
use crate::authority::user_account_derives;
use crate::authority::verify_collection_info;
use crate::authority::verify_config;
use crate::authority::verify_stake_account;
use crate::authority::verify_user_account;
use crate::errors::both;
use crate::errors::Checked;
use crate::errors::StakeError;
use crate::identity::Identity;
use crate::registry::asset_account_check;
use crate::registry::check_asset_account;
use crate::registry::check_collection_account;
use crate::registry::check_ownership;
use crate::registry::collection_account_check;
use crate::registry::decode_asset;
use crate::registry::decoded_asset;
use crate::registry::ownership_check;
use crate::registry::BaseAsset;
use crate::registry::FreezeRequest;
use crate::registry::RegistryAccount;
use crate::rewards::compute_points;
use crate::rewards::elapsed;
use crate::rewards::freeze_passed;
use crate::rewards::points_earned;
use crate::rewards::seconds_since;
use crate::state::Account;
use crate::state::CollectionInfo;
use crate::state::Signer;
use crate::state::StakeAccount;
use crate::state::StakeConfig;
use crate::state::UserAccount;

verus! {

/// What an unstake is shown: the holder, the asset and its collection as the
/// registry keeps them, the collection's authority record, the stake record
/// of the asset, the configuration and the holder's ledger.
#[derive(Clone, Debug, PartialEq, Eq)]
pub struct Unstake {
    /// The staking program's own identity.
    pub program: Identity,
    pub user: Signer,
    pub asset: RegistryAccount,
    pub collection: RegistryAccount,
    pub collection_info: Account<CollectionInfo>,
    /// Where the stake record of the asset is kept; empty where the asset is
    /// not staked.
    pub stake_account: Account<Option<StakeAccount>>,
    pub config: Account<StakeConfig>,
    pub user_account: Account<UserAccount>,
}

/// The stake record names `holder` as the one who staked, and `asset` as
/// what was staked.
pub open spec fn record_check(record: StakeAccount, holder: Identity, asset: Identity) -> Checked {
    if record.owner != holder {
        Err(StakeError::NotOwner)
    } else if record.asset != asset {
        Err(StakeError::InvalidAsset)
    } else {
        Ok(())
    }
}

impl Unstake {
    /// The holder has signed, and the collection's authority record, the
    /// stake record where there is one, the configuration and the ledger are
    /// kept at their derived identities.
    pub open spec fn authorized(self) -> bool {
        &&& self.user.is_signer
        &&& collection_info_derives(self.program, self.collection.key, self.collection_info)
        &&& (self.stake_account.record matches Some(record) ==> stake_account_derives(
            self.program,
            self.config.key,
            self.asset.key,
            self.stake_account.key,
            record.bump,
        ))
        &&& config_derives(self.program, self.config)
        &&& user_account_derives(self.program, self.user.key, self.user_account)
    }

    /// The first precondition that fails among those that do not depend on
    /// the time or on what the asset record says. In order: authorization; a
    /// stake record for the asset exists (else `InvalidAsset`); the asset
    /// record and the collection record belong to the registry and are not
    /// empty; the stake record names the holder and the asset.
    pub open spec fn eligible(self, authorized: bool) -> Checked {
        if !authorized {
            Err(StakeError::AuthorizationMismatch)
        } else {
            match self.stake_account.record {
                None => Err(StakeError::InvalidAsset),
                Some(record) => both(
                    asset_account_check(self.asset),
                    both(
                        collection_account_check(self.collection),
                        record_check(record, self.user.key, self.asset.key),
                    ),
                ),
            }
        }
    }

    /// Whether the freeze period has passed at `now` since the asset was
    /// staked.
    pub open spec fn freeze_passed(self, now: i64) -> bool
        recommends
            self.stake_account.record is Some,
    {
        freeze_passed(
            self.stake_account.record->0.staked_at,
            now,
            self.config.record.freeze_period,
        )
    }

    /// The freeze period has passed at `now`.
    pub open spec fn freeze_check(self, now: i64) -> Checked
        recommends
            self.stake_account.record is Some,
    {
        if !self.freeze_passed(now) {
            Err(StakeError::FreezePeriodNotPassed)
        } else {
            Ok(())
        }
    }

    /// The first precondition of an unstake at `now` that fails, given
    /// whether the unstake is authorized and what was read from the asset
    /// record. In order: those of `eligible`; the freeze period has passed;
    /// the holder still owns the asset.
    pub open spec fn admits(
        self,
        now: i64,
        authorized: bool,
        asset: Option<BaseAsset>,
    ) -> Checked {
        both(
            self.eligible(authorized),
            both(self.freeze_check(now), ownership_check(asset, self.user.key)),
        )
    }

    /// The points that the stay earns when it ends at `now`.
    pub open spec fn earned(self, now: i64) -> u32
        recommends
            self.stake_account.record is Some,
    {
        points_earned(
            elapsed(self.stake_account.record->0.staked_at, now),
            self.config.record.freeze_period,
            self.config.record.points_per_stake,
        )
    }

    /// The records after an unstake at `now`: the stake record is gone, and
    /// the ledger counts one asset less and the points earned more.
    pub open spec fn unstaked(self, now: i64) -> Unstake {
        Unstake {
            stake_account: Account { key: self.stake_account.key, record: None },
            user_account: Account {
                key: self.user_account.key,
                record: self.user_account.record.unstaked(self.earned(now)),
            },
            ..self
        }
    }

    /// The request that an unstake hands to the registry: unfreeze the asset,
    /// in the name of the collection's authority record, for which the
    /// program signs, and at the holder's cost.
    pub open spec fn unfreeze_request(self) -> FreezeRequest {
        FreezeRequest {
            asset: self.asset.key,
            collection: self.collection.key,
            payer: self.user.key,
            authority: self.collection_info.key,
            frozen: false,
            authority_bump: Some(self.collection_info.record.bump),
        }
    }

    /// What an unstake at `now` does: the request and the records it leaves,
    /// or the error on which it leaves the records as they are.
    pub open spec fn outcome(self, now: i64, authorized: bool, asset: Option<BaseAsset>) -> (
        Result<FreezeRequest, StakeError>,
        Unstake,
    ) {
        match self.admits(now, authorized, asset) {
            Ok(_) => (Ok(self.unfreeze_request()), self.unstaked(now)),
            Err(error) => (Err(error), self),
        }
    }

    /// Checks the holder's signature and the identities of the records.
    pub fn is_authorized(&self) -> (accepted: bool)
        ensures
            accepted == self.authorized(),
    {
        let record_accepted = match self.stake_account.record {
            Some(record) => verify_stake_account(
                &self.program,
                &self.config.key,
                &self.asset.key,
                &self.stake_account.key,
                record.bump,
            ),
            None => true,
        };
        self.user.is_signer && verify_collection_info(
            &self.program,
            &self.collection.key,
            &self.collection_info,
        ) && record_accepted && verify_config(&self.program, &self.config) && verify_user_account(
            &self.program,
            &self.user.key,
            &self.user_account,
        )
    }

    /// Unstakes the asset at `now`, given whether the unstake is authorized
    /// and what was read from the asset record.
    ///
    /// On success the ledger counts one asset less, but never less than
    /// none, and the points earned more, but never more than it can hold;
    /// the stake record is gone; and the request to unfreeze the asset is
    /// returned. On an error nothing changes. Before the freeze period has
    /// passed the unstake fails, with `FreezePeriodNotPassed` unless an
    /// earlier precondition fails.
    pub fn unstake_with(
        &mut self,
        now: i64,
        authorized: bool,
        asset: &Option<BaseAsset>,
    ) -> (result: Result<FreezeRequest, StakeError>)
        ensures
            (result, *final(self)) == old(self).outcome(now, authorized, *asset),
            result is Ok ==> final(self).stake_account.record is None,
            result is Ok ==> final(self).user_account.record == old(
                self,
            ).user_account.record.unstaked(old(self).earned(now)),
            result is Err ==> *final(self) == *old(self),
            !authorized ==> result == Err::<FreezeRequest, StakeError>(
                StakeError::AuthorizationMismatch,
            ),
            old(self).stake_account.record is None ==> result is Err,
            !old(self).freeze_passed(now) ==> result is Err,
            old(self).eligible(authorized) is Ok && !old(self).freeze_passed(now) ==> result
                == Err::<FreezeRequest, StakeError>(StakeError::FreezePeriodNotPassed),
    {
        if !authorized {
            return Err(StakeError::AuthorizationMismatch);
        }
        let record = match self.stake_account.record {
            Some(record) => record,
            None => {
                return Err(StakeError::InvalidAsset);
            },
        };
        check_asset_account(&self.asset)?;
        check_collection_account(&self.collection)?;
        if record.owner != self.user.key {
            return Err(StakeError::NotOwner);
        }
        if record.asset != self.asset.key {
            return Err(StakeError::InvalidAsset);
        }
        let seconds = match seconds_since(record.staked_at, now) {
            Some(seconds) => seconds,
            None => {
                return Err(StakeError::FreezePeriodNotPassed);
            },
        };
        if seconds < self.config.record.freeze_period as u64 {
            return Err(StakeError::FreezePeriodNotPassed);
        }
        check_ownership(asset, &self.user.key)?;
        let earned = compute_points(
            seconds,
            self.config.record.freeze_period,
            self.config.record.points_per_stake,
        );
        let request = FreezeRequest {
            asset: self.asset.key,
            collection: self.collection.key,
            payer: self.user.key,
            authority: self.collection_info.key,
            frozen: false,
            authority_bump: Some(self.collection_info.record.bump),
        };
        self.user_account.record.record_unstake(earned);
        self.stake_account.record = None;
        Ok(request)
    }

    /// Unstakes the asset at `now`: checks the signature and the identities,
    /// reads the asset record, and goes on as `unstake_with` does.
    pub fn unstake(&mut self, now: i64) -> (result: Result<FreezeRequest, StakeError>)
        ensures
            (result, *final(self)) == old(self).outcome(
                now,
                old(self).authorized(),
                decoded_asset(old(self).asset.data@),
            ),
            result is Ok ==> final(self).stake_account.record is None,
            result is Ok ==> final(self).user_account.record == old(
                self,
            ).user_account.record.unstaked(old(self).earned(now)),
            result is Err ==> *final(self) == *old(self),
            !old(self).authorized() ==> result == Err::<FreezeRequest, StakeError>(
                StakeError::AuthorizationMismatch,
            ),
            old(self).stake_account.record is None ==> result is Err,
            !old(self).freeze_passed(now) ==> result is Err,
            old(self).eligible(old(self).authorized()) is Ok && !old(self).freeze_passed(now)
                ==> result == Err::<FreezeRequest, StakeError>(StakeError::FreezePeriodNotPassed),
    {
        let authorized = self.is_authorized();
        let asset = decode_asset(&self.asset.data);
        self.unstake_with(now, authorized, &asset)
    }
}

} // verus!
