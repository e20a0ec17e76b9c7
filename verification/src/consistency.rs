//! The aggregate-consistency laws that couple the records: a pool's
//! `total_staked` always equals the sum of the amounts of the positions
//! in that pool, and a profile's `total_staked` always equals the sum of
//! the amounts of that user's positions across all pools.
//!
//! Each staking operation touches exactly one position, so the laws are
//! stated over a sequence of positions with one index updated: whenever
//! the sum equality holds before an operation, it holds of the records
//! the operation returns. The host preserves the framing (which positions
//! belong to which pool and user); these lemmas supply the arithmetic.

use vstd::prelude::*;
use crate::staking::{spec_claim_rewards, spec_stake_tokens, spec_unstake_tokens};
use crate::state::{NetworkState, StakingPool, UserProfile, UserStake};

verus! {

/// The sum of the staked amounts of a sequence of positions.
pub open spec fn sum_amounts(positions: Seq<UserStake>) -> int
    decreases positions.len(),
{
    if positions.len() == 0 {
        0
    } else {
        sum_amounts(positions.drop_last()) + positions.last().amount
    }
}

/// A pool's recorded total equals the sum over the pool's positions.
pub open spec fn pool_consistent(pool: StakingPool, positions: Seq<UserStake>) -> bool {
    pool.total_staked == sum_amounts(positions)
}

/// A profile's recorded total equals the sum over the user's positions.
pub open spec fn profile_consistent(profile: UserProfile, positions: Seq<UserStake>) -> bool {
    profile.total_staked == sum_amounts(positions)
}

/// The sum of amounts is never negative.
pub proof fn lemma_sum_nonneg(positions: Seq<UserStake>)
    ensures
        sum_amounts(positions) >= 0,
    decreases positions.len(),
{
    if positions.len() > 0 {
        lemma_sum_nonneg(positions.drop_last());
    }
}

/// The sum of amounts is at least any single position's amount.
pub proof fn lemma_sum_bounds(positions: Seq<UserStake>, i: int)
    requires
        0 <= i < positions.len(),
    ensures
        sum_amounts(positions) >= positions[i].amount,
    decreases positions.len(),
{
    if i == positions.len() - 1 {
        lemma_sum_nonneg(positions.drop_last());
    } else {
        lemma_sum_bounds(positions.drop_last(), i);
    }
}

/// Appending a position grows the sum by that position's amount. This is
/// the framing step for a position's first stake, when the store adds a
/// fresh record to a pool's (or a user's) set of positions: a freshly
/// opened position holds zero, so the sums are undisturbed.
pub proof fn lemma_sum_push(positions: Seq<UserStake>, p: UserStake)
    ensures
        sum_amounts(positions.push(p)) == sum_amounts(positions) + p.amount,
{
    assert(positions.push(p).drop_last() =~= positions);
}

/// Both consistency equalities hold at the start: a fresh pool or profile
/// records zero staked, and it has no positions yet.
pub proof fn lemma_consistency_at_genesis(pool: StakingPool, profile: UserProfile)
    requires
        pool.total_staked == 0,
        profile.total_staked == 0,
    ensures
        pool_consistent(pool, Seq::empty()),
        profile_consistent(profile, Seq::empty()),
{
}

/// Updating one position changes the sum by the difference of amounts.
pub proof fn lemma_sum_update(positions: Seq<UserStake>, i: int, p: UserStake)
    requires
        0 <= i < positions.len(),
    ensures
        sum_amounts(positions.update(i, p)) == sum_amounts(positions) - positions[i].amount
            + p.amount,
    decreases positions.len(),
{
    if i == positions.len() - 1 {
        assert(positions.update(i, p).drop_last() =~= positions.drop_last());
    } else {
        lemma_sum_update(positions.drop_last(), i, p);
        assert(positions.update(i, p).drop_last() =~= positions.drop_last().update(i, p));
    }
}

/// Staking preserves pool consistency: when a pool's total equals the sum
/// of its positions and a stake into the position at index `i` succeeds,
/// the pool and position the operation returns satisfy the same equality.
pub proof fn lemma_stake_preserves_pool_consistency(
    pool: StakingPool,
    registry: NetworkState,
    profile: UserProfile,
    amount: u64,
    positions: Seq<UserStake>,
    i: int,
)
    requires
        0 <= i < positions.len(),
        pool_consistent(pool, positions),
        spec_stake_tokens(pool, positions[i], registry, profile, amount) is Ok,
    ensures
        ({
            let post = spec_stake_tokens(pool, positions[i], registry, profile, amount)->Ok_0;
            pool_consistent(post.0, positions.update(i, post.1))
        }),
{
    let post = spec_stake_tokens(pool, positions[i], registry, profile, amount)->Ok_0;
    lemma_sum_update(positions, i, post.1);
}

/// Staking preserves profile consistency: when a user's aggregate total
/// equals the sum of the user's positions and a stake into the position
/// at index `i` succeeds, the profile and position the operation returns
/// satisfy the same equality.
pub proof fn lemma_stake_preserves_profile_consistency(
    pool: StakingPool,
    registry: NetworkState,
    profile: UserProfile,
    amount: u64,
    positions: Seq<UserStake>,
    i: int,
)
    requires
        0 <= i < positions.len(),
        profile_consistent(profile, positions),
        spec_stake_tokens(pool, positions[i], registry, profile, amount) is Ok,
    ensures
        ({
            let post = spec_stake_tokens(pool, positions[i], registry, profile, amount)->Ok_0;
            profile_consistent(post.3, positions.update(i, post.1))
        }),
{
    let post = spec_stake_tokens(pool, positions[i], registry, profile, amount)->Ok_0;
    lemma_sum_update(positions, i, post.1);
}

/// Unstaking preserves pool consistency, in the same sense.
pub proof fn lemma_unstake_preserves_pool_consistency(
    pool: StakingPool,
    registry: NetworkState,
    profile: UserProfile,
    amount: u64,
    now: i64,
    positions: Seq<UserStake>,
    i: int,
)
    requires
        0 <= i < positions.len(),
        pool_consistent(pool, positions),
        spec_unstake_tokens(pool, positions[i], registry, profile, amount, now) is Ok,
    ensures
        ({
            let post = spec_unstake_tokens(pool, positions[i], registry, profile, amount, now)->Ok_0;
            pool_consistent(post.0, positions.update(i, post.1))
        }),
{
    let post = spec_unstake_tokens(pool, positions[i], registry, profile, amount, now)->Ok_0;
    lemma_sum_bounds(positions, i);
    assert(post.1.amount == positions[i].amount - amount);
    lemma_sum_update(positions, i, post.1);
}

/// Unstaking preserves profile consistency, in the same sense.
pub proof fn lemma_unstake_preserves_profile_consistency(
    pool: StakingPool,
    registry: NetworkState,
    profile: UserProfile,
    amount: u64,
    now: i64,
    positions: Seq<UserStake>,
    i: int,
)
    requires
        0 <= i < positions.len(),
        profile_consistent(profile, positions),
        spec_unstake_tokens(pool, positions[i], registry, profile, amount, now) is Ok,
    ensures
        ({
            let post = spec_unstake_tokens(pool, positions[i], registry, profile, amount, now)->Ok_0;
            profile_consistent(post.3, positions.update(i, post.1))
        }),
{
    let post = spec_unstake_tokens(pool, positions[i], registry, profile, amount, now)->Ok_0;
    lemma_sum_bounds(positions, i);
    assert(post.1.amount == positions[i].amount - amount);
    lemma_sum_update(positions, i, post.1);
}

/// Claiming moves no stake: a successful claim leaves the position's
/// amount, the sum of amounts, and both consistency equalities intact.
pub proof fn lemma_claim_preserves_consistency(
    pool: StakingPool,
    profile: UserProfile,
    now: i64,
    positions: Seq<UserStake>,
    i: int,
)
    requires
        0 <= i < positions.len(),
        spec_claim_rewards(pool, positions[i], profile, now) is Ok,
    ensures
        ({
            let post = spec_claim_rewards(pool, positions[i], profile, now)->Ok_0;
            &&& sum_amounts(positions.update(i, post.1)) == sum_amounts(positions)
            &&& pool_consistent(pool, positions) ==> pool_consistent(
                post.0,
                positions.update(i, post.1),
            )
            &&& profile_consistent(profile, positions) ==> profile_consistent(
                post.2,
                positions.update(i, post.1),
            )
        }),
{
    let post = spec_claim_rewards(pool, positions[i], profile, now)->Ok_0;
    lemma_sum_update(positions, i, post.1);
}

} // verus!
