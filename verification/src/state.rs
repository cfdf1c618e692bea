//! The records that the program keeps, and the ledger arithmetic on them.

use vstd::prelude::*;
use crate::identity::Identity;

verus! {

/// The global staking parameters. One record exists; no transition changes it.
#[derive(Clone, Copy, Debug, PartialEq, Eq, Structural)]
pub struct StakeConfig {
    /// Points awarded for each full freeze period that an asset stayed staked.
    pub points_per_stake: u32,
    /// The most assets that one holder may have staked at a time.
    pub max_stake: u32,
    /// Seconds that an asset stays frozen after it was staked.
    pub freeze_period: u32,
    /// Bump of the reward mint's identity.
    pub rewards_bump: u8,
    /// Bump of the configuration's own identity.
    pub bump: u8,
}

/// The ledger of one holder.
#[derive(Clone, Copy, Debug, PartialEq, Eq, Structural)]
pub struct UserAccount {
    /// Points earned and not yet claimed.
    pub points: u32,
    /// Number of assets that the holder has staked now.
    pub amount_staked: u32,
    /// Bump of the ledger's identity.
    pub bump: u8,
}

/// The record of one staked asset. It exists exactly while the asset is staked.
#[derive(Clone, Copy, Debug, PartialEq, Eq)]
pub struct StakeAccount {
    /// The holder who staked the asset.
    pub owner: Identity,
    /// The staked asset.
    pub asset: Identity,
    /// When the asset was staked, in seconds since the epoch.
    pub staked_at: i64,
    /// Bump of the record's identity.
    pub bump: u8,
}

/// The record that lets the program unfreeze the assets of one collection.
#[derive(Clone, Copy, Debug, PartialEq, Eq, Structural)]
pub struct CollectionInfo {
    /// Bump of the record's identity.
    pub bump: u8,
}

/// A record together with the identity at which it is kept.
#[derive(Clone, Copy, Debug, PartialEq, Eq)]
pub struct Account<T> {
    pub key: Identity,
    pub record: T,
}

/// A holder as a transition sees it: its identity, and whether it signed.
#[derive(Clone, Copy, Debug, PartialEq, Eq)]
pub struct Signer {
    pub key: Identity,
    pub is_signer: bool,
}

impl UserAccount {
    /// The holder has no more assets staked than the configuration allows.
    pub open spec fn within_limit(self, config: StakeConfig) -> bool {
        self.amount_staked <= config.max_stake
    }

    /// The ledger after one more asset was staked.
    pub open spec fn staked(self) -> UserAccount
        recommends
            self.amount_staked < u32::MAX,
    {
        UserAccount { amount_staked: (self.amount_staked + 1) as u32, ..self }
    }

    /// The ledger after one asset was unstaked and `earned` points were
    /// awarded for it. Neither counter wraps: the points stop at the largest
    /// value, the count at zero.
    pub open spec fn unstaked(self, earned: u32) -> UserAccount {
        UserAccount {
            points: if self.points + earned > u32::MAX {
                u32::MAX
            } else {
                (self.points + earned) as u32
            },
            amount_staked: if self.amount_staked == 0 {
                0
            } else {
                (self.amount_staked - 1) as u32
            },
            ..self
        }
    }

    /// The ledger after its points were claimed.
    pub open spec fn claimed(self) -> UserAccount {
        UserAccount { points: 0, ..self }
    }

    /// Counts one more staked asset.
    pub fn record_stake(&mut self)
        requires
            old(self).amount_staked < u32::MAX,
        ensures
            *final(self) == old(self).staked(),
    {
        self.amount_staked = self.amount_staked + 1;
    }

    /// Counts one staked asset less and adds the points earned with it.
    pub fn record_unstake(&mut self, earned: u32)
        ensures
            *final(self) == old(self).unstaked(earned),
    {
        self.points = self.points.saturating_add(earned);
        self.amount_staked = self.amount_staked.saturating_sub(1);
    }

    /// Sets the points back to zero.
    pub fn record_claim(&mut self)
        ensures
            *final(self) == old(self).claimed(),
    {
        self.points = 0;
    }
}

} // verus!
