use vstd::prelude::*;
use crate::reward_calculator::{
    RewardCalculator, RewardError, PRECISION, consumed, cursor,
    reward_content_bad, stake_content_bad,
};
use crate::stake::StakeChainExtendedEvent;
use crate::reward::RewardChainExtendedEvent;
use crate::types::U256;

verus! {

/// Moving forward from `start` stops within the stream, passes only events earlier than `t`,
/// and stops at an event that is not earlier than `t`, if any.
pub proof fn lemma_consumed_bounds(stakes: Seq<StakeChainExtendedEvent>, start: int, t: nat)
    requires
        0 <= start <= stakes.len(),
    ensures
        start <= consumed(stakes, start, t) <= stakes.len(),
        forall|k: int|
            start <= k < consumed(stakes, start, t) ==> stakes[k].timestamp.value() < t,
        consumed(stakes, start, t) < stakes.len() ==> stakes[consumed(
            stakes,
            start,
            t,
        )].timestamp.value() >= t,
    decreases stakes.len() - start,
{
    if start < stakes.len() && stakes[start].timestamp.value() < t {
        lemma_consumed_bounds(stakes, start + 1, t);
    }
}

/// Moving forward from at or before `j` passes `j` when every event from `start` to `j` is
/// earlier than `t`.
pub proof fn lemma_consumed_passes(
    stakes: Seq<StakeChainExtendedEvent>,
    start: int,
    t: nat,
    j: int,
)
    requires
        0 <= start <= j < stakes.len(),
        forall|k: int| start <= k <= j ==> stakes[k].timestamp.value() < t,
    ensures
        consumed(stakes, start, t) > j,
    decreases stakes.len() - start,
{
    if start < j {
        lemma_consumed_passes(stakes, start + 1, t, j);
    } else {
        lemma_consumed_bounds(stakes, start + 1, t);
    }
}

/// Reward timestamps never decrease over the first `k` reward events.
pub open spec fn rewards_sorted_upto(rewards: Seq<RewardChainExtendedEvent>, k: int) -> bool {
    forall|a: int, b: int|
        0 <= a <= b < k ==> rewards[a].timestamp.value() <= rewards[b].timestamp.value()
}

/// Stake timestamps never decrease.
pub open spec fn stakes_sorted(stakes: Seq<StakeChainExtendedEvent>) -> bool {
    forall|a: int, b: int|
        0 <= a <= b < stakes.len() ==> stakes[a].timestamp.value() <= stakes[b].timestamp.value()
}

/// The applied stake events stay within the stream, and with sorted rewards each of them is
/// earlier than the last reward handled.
pub proof fn lemma_cursor_bounds(
    stakes: Seq<StakeChainExtendedEvent>,
    rewards: Seq<RewardChainExtendedEvent>,
    k: int,
)
    requires
        0 <= k <= rewards.len(),
    ensures
        0 <= cursor(stakes, rewards, k) <= stakes.len(),
        k > 0 && rewards_sorted_upto(rewards, k) ==> forall|m: int|
            0 <= m < cursor(stakes, rewards, k) ==> stakes[m].timestamp.value()
                < rewards[k - 1].timestamp.value(),
    decreases k,
{
    if k > 0 {
        lemma_cursor_bounds(stakes, rewards, k - 1);
        let prev = cursor(stakes, rewards, k - 1);
        lemma_consumed_bounds(stakes, prev, rewards[k - 1].timestamp.value());
        if k > 1 && rewards_sorted_upto(rewards, k) {
            assert(rewards_sorted_upto(rewards, k - 1));
        }
    }
}

/// Two runs of one computation give the same bytes, or the same error.
pub proof fn lemma_commit_deterministic(
    c: &RewardCalculator,
    r1: Result<Vec<u8>, RewardError>,
    r2: Result<Vec<u8>, RewardError>,
)
    requires
        c.commit_result(r1),
        c.commit_result(r2),
    ensures
        r1 is Ok <==> r2 is Ok,
        r1 matches Ok(x) ==> (r2 matches Ok(y) && x@ == y@),
        r1 matches Err(e) ==> (r2 matches Err(f) && e == f),
{
    let n = c.reward_events@.len() as int;
    if let Err(e) = r1 {
        if let Err(f) = r2 {
            if c.boundary_error() is None {
                if let RewardError::ArithmeticOverflow(i) = e {
                    if let RewardError::ArithmeticOverflow(j) = f {
                        if i < j {
                            assert(c.step_fits(i as int));
                        }
                        if j < i {
                            assert(c.step_fits(j as int));
                        }
                    }
                }
            }
        }
    }
}

/// Where no stake is ever held in the window, nothing is earned, whatever the rewards.
pub proof fn lemma_zero_stake(c: &RewardCalculator, r: Result<U256, RewardError>)
    requires
        c.initial_total_stake() == 0,
        forall|j: int|
            0 <= j < c.stake_events@.len() ==> c.stake_events@[j].total_staked.value() == 0,
        c.calculation_result(r),
    ensures
        c.reward_total() == 0,
        c.boundary_error() is None ==> (r matches Ok(v) && v.value() == 0),
{
    let n = c.reward_events@.len() as int;
    assert forall|i: int| 0 <= i < n implies c.total_stake_at(i) == 0 && c.share(i) == 0 by {
        lemma_cursor_bounds(c.stake_events@, c.reward_events@, i + 1);
    }
    lemma_zero_stake_sum(c, n);
    assert forall|i: int| 0 <= i < n implies c.step_fits(i) by {
        lemma_zero_stake_sum(c, i + 1);
    }
}

proof fn lemma_zero_stake_sum(c: &RewardCalculator, k: int)
    requires
        0 <= k <= c.reward_events@.len(),
        forall|i: int| 0 <= i < c.reward_events@.len() ==> c.share(i) == 0,
    ensures
        c.accrued(k) == 0,
    decreases k,
{
    if k > 0 {
        lemma_zero_stake_sum(c, k - 1);
    }
}

/// The sum of the amounts of the first `k` reward events.
pub open spec fn amount_sum(rewards: Seq<RewardChainExtendedEvent>, k: int) -> nat
    decreases k,
{
    if k <= 0 {
        0
    } else {
        amount_sum(rewards, k - 1) + rewards[k - 1].amount.value()
    }
}

/// A user who holds all of the stake at every reward event earns the sum of the amounts,
/// with no loss to truncation.
pub proof fn lemma_full_stake(c: &RewardCalculator)
    requires
        forall|i: int|
            0 <= i < c.reward_events@.len() ==> c.user_stake_at(i) == c.total_stake_at(i)
                && c.total_stake_at(i) > 0,
    ensures
        c.accrued(c.reward_events@.len() as int) == amount_sum(
            c.reward_events@,
            c.reward_events@.len() as int,
        ) * (PRECISION as nat),
        c.reward_total() == amount_sum(c.reward_events@, c.reward_events@.len() as int),
{
    let n = c.reward_events@.len() as int;
    lemma_full_stake_sum(c, n);
    let s = amount_sum(c.reward_events@, n);
    let p = PRECISION as nat;
    assert(s * p / p == s) by (nonlinear_arith)
        requires
            p > 0,
    ;
}

proof fn lemma_full_stake_sum(c: &RewardCalculator, k: int)
    requires
        0 <= k <= c.reward_events@.len(),
        forall|i: int|
            0 <= i < c.reward_events@.len() ==> c.user_stake_at(i) == c.total_stake_at(i)
                && c.total_stake_at(i) > 0,
    ensures
        c.accrued(k) == amount_sum(c.reward_events@, k) * (PRECISION as nat),
    decreases k,
{
    if k > 0 {
        lemma_full_stake_sum(c, k - 1);
        let i = k - 1;
        let a = c.reward_events@[i].amount.value();
        let u = c.total_stake_at(i);
        let p = PRECISION as nat;
        assert(a * u * p / u == a * p) by (nonlinear_arith)
            requires
                u > 0,
        ;
        assert(c.share(i) == a * p);
        let s = amount_sum(c.reward_events@, i);
        assert(s * p + a * p == (s + a) * p) by (nonlinear_arith);
    }
}

/// With timestamps in order, a stake event at the very time of a reward event does not
/// weigh that reward, and does weigh the next reward event that comes later.
pub proof fn lemma_tie_break(c: &RewardCalculator, i: int, j: int)
    requires
        rewards_sorted_upto(c.reward_events@, c.reward_events@.len() as int),
        stakes_sorted(c.stake_events@),
        0 <= i < c.reward_events@.len(),
        0 <= j < c.stake_events@.len(),
        c.stake_events@[j].timestamp.value() == c.reward_events@[i].timestamp.value(),
    ensures
        c.applied(i) <= j,
        i + 1 < c.reward_events@.len() && c.reward_events@[i].timestamp.value()
            < c.reward_events@[i + 1].timestamp.value() ==> c.applied(i + 1) > j,
{
    let stakes = c.stake_events@;
    let rewards = c.reward_events@;
    lemma_cursor_bounds(stakes, rewards, i + 1);
    if i + 1 < rewards.len() && rewards[i].timestamp.value() < rewards[i + 1].timestamp.value() {
        let start = cursor(stakes, rewards, i + 1);
        let t = rewards[i + 1].timestamp.value();
        if start <= j {
            lemma_consumed_passes(stakes, start, t, j);
        } else {
            lemma_consumed_bounds(stakes, start, t);
        }
    }
}

/// A boundary event whose stored hash is not its content hash makes the computation fail
/// with a chain integrity error.
pub proof fn lemma_tampered_boundary(c: &RewardCalculator, r: Result<U256, RewardError>)
    requires
        c.calculation_result(r),
        reward_content_bad(c.claim.from_reward_event) || !c.claim.to_reward_event.hash_is_valid()
            || stake_content_bad(c.claim.from_stake_event)
            || !c.claim.to_stake_event.hash_is_valid() || stake_content_bad(
            c.claim.from_user_stake_event,
        ) || !c.claim.to_user_stake_event.hash_is_valid(),
    ensures
        r matches Err(e) && e is ChainIntegrity,
{
}

} // verus!
