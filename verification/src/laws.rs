//! What holds of the transitions taken together.

use vstd::prelude::*;
use crate::errors::StakeError;
use crate::instructions::claim::Claim;
use crate::instructions::stake::Stake;
use crate::instructions::stake::StakeBumps;
use crate::instructions::unstake::Unstake;
use crate::registry::asset_account_check;
use crate::registry::collection_account_check;
use crate::registry::ownership_check;
use crate::registry::BaseAsset;
use crate::rewards::tokens_to_mint;
use crate::state::Account;
use crate::state::UserAccount;
use crate::token::MintRequest;

verus! {

/// No transition takes a ledger over the limit: a ledger that is within the
/// limit before a stake, an unstake or a claim is within it afterwards,
/// whether the transition succeeds or fails.
pub proof fn lemma_limit_is_kept(
    stake: Stake,
    bumps: StakeBumps,
    unstake: Unstake,
    claim: Claim,
    now: i64,
    authorized: bool,
    asset: Option<BaseAsset>,
)
    ensures
        stake.user_account.record.within_limit(stake.config.record) ==> stake.outcome(
            bumps,
            now,
            authorized,
            asset,
        ).1.user_account.record.within_limit(stake.config.record),
        unstake.user_account.record.within_limit(unstake.config.record) ==> unstake.outcome(
            now,
            authorized,
            asset,
        ).1.user_account.record.within_limit(unstake.config.record),
        claim.user_account.record.within_limit(claim.config.record) ==> claim.outcome(
            authorized,
        ).1.user_account.record.within_limit(claim.config.record),
{
}

/// No transition changes anything but the holder's ledger and the stake
/// record: the configuration, the holder, the program, the registry's
/// records and the identities at which the records are kept stay as they
/// were, whether the transition succeeds or fails.
pub proof fn lemma_the_rest_is_kept(
    stake: Stake,
    bumps: StakeBumps,
    unstake: Unstake,
    claim: Claim,
    now: i64,
    authorized: bool,
    asset: Option<BaseAsset>,
)
    ensures
        ({
            let left = stake.outcome(bumps, now, authorized, asset).1;
            left == Stake {
                stake_account: Account {
                    key: stake.stake_account.key,
                    record: left.stake_account.record,
                },
                user_account: Account {
                    key: stake.user_account.key,
                    record: UserAccount {
                        bump: stake.user_account.record.bump,
                        ..left.user_account.record
                    },
                },
                ..stake
            }
        }),
        ({
            let left = unstake.outcome(now, authorized, asset).1;
            left == Unstake {
                stake_account: Account {
                    key: unstake.stake_account.key,
                    record: left.stake_account.record,
                },
                user_account: Account {
                    key: unstake.user_account.key,
                    record: UserAccount {
                        bump: unstake.user_account.record.bump,
                        ..left.user_account.record
                    },
                },
                ..unstake
            }
        }),
        ({
            let left = claim.outcome(authorized).1;
            left == Claim {
                user_account: Account {
                    key: claim.user_account.key,
                    record: UserAccount {
                        bump: claim.user_account.record.bump,
                        ..left.user_account.record
                    },
                },
                ..claim
            }
        }),
{
}

/// An asset has one place for its stake record: two stakes of the same asset
/// under the same configuration and program that are both authorized are
/// shown the same place and present the same bump. With the refusal of a
/// stake where the place holds a record, no asset has two stake records at a
/// time.
pub proof fn lemma_one_place_per_asset(
    first: Stake,
    first_bumps: StakeBumps,
    second: Stake,
    second_bumps: StakeBumps,
)
    requires
        first.authorized(first_bumps),
        second.authorized(second_bumps),
        first.program == second.program,
        first.config.key == second.config.key,
        first.asset.key == second.asset.key,
    ensures
        first.stake_account.key == second.stake_account.key,
        first_bumps == second_bumps,
{
}

/// An unstake ends the stake: after an unstake that succeeded no stake
/// record is left, and every further unstake that is shown the emptied place
/// fails and changes nothing, whatever else it is shown.
pub proof fn lemma_unstake_ends_stake(
    first: Unstake,
    now: i64,
    authorized: bool,
    asset: Option<BaseAsset>,
    second: Unstake,
    later: i64,
    later_authorized: bool,
    later_asset: Option<BaseAsset>,
)
    requires
        first.outcome(now, authorized, asset).0 is Ok,
        second.stake_account == first.outcome(now, authorized, asset).1.stake_account,
    ensures
        first.outcome(now, authorized, asset).1.stake_account.record is None,
        second.outcome(later, later_authorized, later_asset).0 is Err,
        second.outcome(later, later_authorized, later_asset).1 == second,
{
}

/// A claim right after a claim does nothing: after a claim that succeeded
/// the ledger holds no points, a second claim on the records it left is
/// authorized as the first was, asks for no tokens, and leaves the records
/// as they are.
pub proof fn lemma_second_claim_is_idle(first: Claim)
    requires
        first.outcome(first.authorized()).0 is Ok,
    ensures
        ({
            let second = first.outcome(first.authorized()).1;
            &&& second.user_account.record.points == 0
            &&& second.authorized()
            &&& second.tokens() == 0
            &&& second.outcome(second.authorized()).0 == Ok::<Option<MintRequest>, StakeError>(
                None,
            )
            &&& second.outcome(second.authorized()).1 == second
        }),
{
}

/// No points are worth no tokens, whatever the mint's decimals.
pub proof fn lemma_no_points_no_tokens(decimals: u8)
    ensures
        tokens_to_mint(0, decimals) == 0,
{
}

/// Staking and unstaking at once, where there is no freeze period, earns
/// the flat rate and sets the count back.
///
/// `unstake` is shown what a stake that succeeded at `now` left (the stake
/// record, the ledger and the configuration) for the same holder and asset,
/// at a time `later` that is not before `now`. Where it is authorized, the
/// registry's records pass their checks and still name the holder as the
/// owner, and the ledger can hold the points, the unstake succeeds, the
/// ledger holds exactly `points_per_stake` points more than before the
/// stake, and it counts as many assets as before the stake.
pub proof fn lemma_stake_then_unstake(
    stake: Stake,
    bumps: StakeBumps,
    now: i64,
    authorized: bool,
    asset: Option<BaseAsset>,
    unstake: Unstake,
    later: i64,
    later_authorized: bool,
    later_asset: Option<BaseAsset>,
)
    requires
        stake.outcome(bumps, now, authorized, asset).0 is Ok,
        stake.config.record.freeze_period == 0,
        stake.user_account.record.points + stake.config.record.points_per_stake <= u32::MAX,
        now <= later,
        unstake.user == stake.user,
        unstake.asset.key == stake.asset.key,
        unstake.stake_account == stake.outcome(bumps, now, authorized, asset).1.stake_account,
        unstake.user_account == stake.outcome(bumps, now, authorized, asset).1.user_account,
        unstake.config == stake.outcome(bumps, now, authorized, asset).1.config,
        later_authorized,
        asset_account_check(unstake.asset) is Ok,
        collection_account_check(unstake.collection) is Ok,
        ownership_check(later_asset, unstake.user.key) is Ok,
    ensures
        ({
            let (result, left) = unstake.outcome(later, later_authorized, later_asset);
            &&& result is Ok
            &&& left.stake_account.record is None
            &&& left.user_account.record.points == stake.user_account.record.points
                + stake.config.record.points_per_stake
            &&& left.user_account.record.amount_staked == stake.user_account.record.amount_staked
        }),
{
}

} // verus!
