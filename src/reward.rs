use vstd::prelude::*;

verus! {

/// Reward units accrued per time unit of custody.
pub const REWARD_RATE: i128 = 1000;

/// The reward for custody from `staked_at` until `now`: the elapsed time
/// times the rate, computed without overflow and then brought into the
/// amount range (nothing for no or negative elapsed time, the largest amount
/// where the product exceeds it).
pub open spec fn reward_amount(staked_at: i64, now: i64) -> u64 {
    let accrued: int = (now - staked_at) * REWARD_RATE;
    if accrued <= 0 {
        0
    } else if accrued > u64::MAX {
        u64::MAX
    } else {
        accrued as u64
    }
}

/// Computes the reward accrued between the checkpoint and `now`.
pub fn reward_for(staked_at: i64, now: i64) -> (r: u64)
    ensures
        r == reward_amount(staked_at, now),
{
    let elapsed: i128 = now as i128 - staked_at as i128;
    let accrued: i128 = elapsed * REWARD_RATE;
    if accrued <= 0 {
        0
    } else if accrued > u64::MAX as i128 {
        u64::MAX
    } else {
        accrued as u64
    }
}

/// The reward never decreases as time goes on, and over one interval that
/// it can represent it is exactly the elapsed time times the rate.
pub proof fn lemma_reward_monotonic(staked_at: i64, t1: i64, t2: i64)
    requires
        t1 <= t2,
    ensures
        reward_amount(staked_at, t1) <= reward_amount(staked_at, t2),
        0 <= (t2 - staked_at) * 1000 <= u64::MAX ==> reward_amount(staked_at, t2) == (t2
            - staked_at) * 1000,
{
}

/// No reward accrues when no time has passed since the checkpoint.
pub proof fn lemma_reward_zero_without_elapsed_time(t: i64)
    ensures
        reward_amount(t, t) == 0,
{
}

} // verus!
