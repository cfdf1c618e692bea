//! Reward arithmetic: the points that a stay earns, and the token units that
//! points are worth.

use vstd::prelude::*;
use vstd::arithmetic::power::pow;
use vstd::arithmetic::power::lemma_pow_increases;

verus! {

/// Seconds from the moment an asset was staked to `now`. Negative when the
/// clock reads earlier than the record.
pub open spec fn elapsed(staked_at: i64, now: i64) -> int {
    now - staked_at
}

/// Whether the freeze period has passed at `now` for an asset staked at
/// `staked_at`. A period of zero has always passed once the clock has reached
/// the moment of staking.
pub open spec fn freeze_passed(staked_at: i64, now: i64, freeze_period: u32) -> bool {
    elapsed(staked_at, now) >= freeze_period
}

/// Points for a stay of `elapsed` seconds: the flat rate where there is no
/// freeze period, else the rate for each full period, stopping at the largest
/// value that the ledger can hold.
pub open spec fn points_earned(elapsed: int, freeze_period: u32, points_per_stake: u32) -> u32
    recommends
        elapsed >= 0,
{
    if freeze_period == 0 {
        points_per_stake
    } else {
        let exact = (elapsed / (freeze_period as int)) * points_per_stake;
        if exact > u32::MAX {
            u32::MAX
        } else {
            exact as u32
        }
    }
}

/// Token units for `points` points of a mint with `decimals` decimals: one
/// whole token for each point, and nothing where that amount does not fit.
pub open spec fn tokens_to_mint(points: u32, decimals: u8) -> u64 {
    let exact = points * pow(10, decimals as nat);
    if exact > u64::MAX {
        0
    } else {
        exact as u64
    }
}

/// The seconds from `staked_at` to `now`, or `None` where `now` is earlier.
pub fn seconds_since(staked_at: i64, now: i64) -> (gone: Option<u64>)
    ensures
        match gone {
            Some(seconds) => seconds == elapsed(staked_at, now),
            None => elapsed(staked_at, now) < 0,
        },
{
    let difference: i128 = now as i128 - staked_at as i128;
    if difference < 0 {
        None
    } else {
        Some(difference as u64)
    }
}

/// The points that a stay of `elapsed` seconds earns.
pub fn compute_points(elapsed: u64, freeze_period: u32, points_per_stake: u32) -> (earned: u32)
    ensures
        earned == points_earned(elapsed as int, freeze_period, points_per_stake),
{
    if freeze_period == 0 {
        points_per_stake
    } else {
        let periods: u64 = elapsed / (freeze_period as u64);
        assert(periods * points_per_stake <= 0xffff_ffff_ffff_ffff * 0xffff_ffff)
            by (nonlinear_arith)
            requires
                periods <= 0xffff_ffff_ffff_ffff,
                points_per_stake <= 0xffff_ffff,
        ;
        let exact: u128 = (periods as u128) * (points_per_stake as u128);
        if exact > u32::MAX as u128 {
            u32::MAX
        } else {
            exact as u32
        }
    }
}

/// Ten to the power `exponent`, or `None` where it does not fit.
pub fn power_of_ten(exponent: u8) -> (power: Option<u64>)
    ensures
        match power {
            Some(value) => value == pow(10, exponent as nat),
            None => pow(10, exponent as nat) > u64::MAX,
        },
{
    let mut value: u64 = 1;
    let mut done: u8 = 0;
    assert(pow(10, 0) == 1) by {
        reveal(pow);
    }
    while done < exponent
        invariant
            done <= exponent,
            value == pow(10, done as nat),
        decreases exponent - done,
    {
        assert(pow(10, (done + 1) as nat) == 10 * pow(10, done as nat)) by {
            reveal(pow);
        }
        match value.checked_mul(10) {
            Some(next) => {
                value = next;
            },
            None => {
                proof {
                    lemma_pow_increases(10, (done + 1) as nat, exponent as nat);
                }
                return None;
            },
        }
        done = done + 1;
    }
    Some(value)
}

/// The token units to mint for `points` points.
pub fn compute_tokens(points: u32, decimals: u8) -> (units: u64)
    ensures
        units == tokens_to_mint(points, decimals),
{
    match power_of_ten(decimals) {
        Some(unit) => {
            match (points as u64).checked_mul(unit) {
                Some(units) => units,
                None => 0,
            }
        },
        None => {
            // Nothing but zero points times so large a power is within range.
            assert(points > 0 ==> points * pow(10, decimals as nat) > u64::MAX)
                by (nonlinear_arith)
                requires
                    pow(10, decimals as nat) > u64::MAX,
            ;
            assert(points == 0 ==> points * pow(10, decimals as nat) == 0) by (nonlinear_arith);
            0
        },
    }
}

} // verus!
