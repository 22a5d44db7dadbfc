use vstd::prelude::*;
use crate::reward::RewardChainExtendedEvent;
use crate::stake::StakeChainExtendedEvent;
use crate::types::{
    Address, Bytes32, U256, Zero, u256_modulus, bytes_eq, checked_add, checked_mul, div, lt,
};

verus! {

/// The fixed-point scale of the per-event shares.
pub const PRECISION: u64 = 1_000_000_000_000_000_000;

/// One of the six positions that a claim asserts.
#[derive(Clone, Copy, Debug, PartialEq, Eq, Structural)]
pub enum Boundary {
    FromReward,
    ToReward,
    FromStake,
    ToStake,
    FromUserStake,
    ToUserStake,
}

/// How a boundary failed: its stored hash is not its content hash, or it does not sit where
/// the claim puts it.
#[derive(Clone, Copy, Debug, PartialEq, Eq, Structural)]
pub enum Mismatch {
    Content,
    Linkage,
}

#[derive(Clone, Copy, Debug, PartialEq, Eq, Structural)]
pub enum RewardError {
    /// A numeric or hex field of the input could not be read.
    Decode,
    /// A boundary event failed its check.
    ChainIntegrity(Boundary, Mismatch),
    /// The fixed-point arithmetic of the reward event at this index left 256 bits.
    ArithmeticOverflow(usize),
}

/// The window of a claim: for each chain an optional start (absent for the genesis state)
/// and a mandatory end.
#[derive(Clone, Debug)]
pub struct RewardClaimParameters {
    pub user: Address,
    pub from_reward_event: Option<RewardChainExtendedEvent>,
    pub to_reward_event: RewardChainExtendedEvent,
    pub from_stake_event: Option<StakeChainExtendedEvent>,
    pub to_stake_event: StakeChainExtendedEvent,
    pub from_user_stake_event: Option<StakeChainExtendedEvent>,
    pub to_user_stake_event: StakeChainExtendedEvent,
}

/// The input of one reward computation: a user, the stake and reward events of the window,
/// and the claim that bounds it.
#[derive(Clone, Debug)]
pub struct RewardCalculator {
    pub user: Address,
    pub stake_events: Vec<StakeChainExtendedEvent>,
    pub reward_events: Vec<RewardChainExtendedEvent>,
    pub claim: RewardClaimParameters,
}

/// The index of the first stake event at or after `start` that is not earlier than `t`, moving
/// forward only over events earlier than `t` (the length of `stakes` if all of them are).
pub open spec fn consumed(stakes: Seq<StakeChainExtendedEvent>, start: int, t: nat) -> int
    decreases stakes.len() - start,
{
    if 0 <= start < stakes.len() && stakes[start].timestamp.value() < t {
        consumed(stakes, start + 1, t)
    } else {
        start
    }
}

/// How many stake events have been applied once the first `k` reward events are handled.
pub open spec fn cursor(
    stakes: Seq<StakeChainExtendedEvent>,
    rewards: Seq<RewardChainExtendedEvent>,
    k: int,
) -> int
    decreases k,
{
    if k <= 0 {
        0
    } else {
        consumed(stakes, cursor(stakes, rewards, k - 1), rewards[k - 1].timestamp.value())
    }
}

/// The user's stake after the first `n` stake events, starting from `init`.
pub open spec fn user_stake_after(
    stakes: Seq<StakeChainExtendedEvent>,
    user: Address,
    init: nat,
    n: int,
) -> nat
    decreases n,
{
    if n <= 0 {
        init
    } else if stakes[n - 1].user@ == user@ {
        stakes[n - 1].total_user_stake.value()
    } else {
        user_stake_after(stakes, user, init, n - 1)
    }
}

/// The global stake after the first `n` stake events, starting from `init`.
pub open spec fn total_stake_after(stakes: Seq<StakeChainExtendedEvent>, init: nat, n: int) -> nat {
    if n <= 0 {
        init
    } else {
        stakes[n - 1].total_staked.value()
    }
}

/// The index of the last of the first `n` stake events that belongs to `user`, or -1.
pub open spec fn last_event_of(stakes: Seq<StakeChainExtendedEvent>, user: Address, n: int) -> int
    decreases n,
{
    if n <= 0 {
        -1
    } else if stakes[n - 1].user@ == user@ {
        n - 1
    } else {
        last_event_of(stakes, user, n - 1)
    }
}

/// A `from` boundary is out of place when the first event of the window does not point back
/// to it.
pub open spec fn from_unlinked(from: Option<Bytes32>, first_previous: Option<Bytes32>) -> bool {
    match (from, first_previous) {
        (Some(h), Some(p)) => h@ != p@,
        _ => false,
    }
}

/// A `to` boundary is out of place when it is not the last event of the window, or, for an
/// empty window, not the `from` boundary.
pub open spec fn to_unlinked(to: Bytes32, last: Option<Bytes32>, from: Option<Bytes32>) -> bool {
    match last {
        Some(l) => l@ != to@,
        None => match from {
            Some(h) => h@ != to@,
            None => false,
        },
    }
}

pub open spec fn reward_hash(e: Option<RewardChainExtendedEvent>) -> Option<Bytes32> {
    match e {
        Some(e) => Some(e.current_event_hash),
        None => None,
    }
}

pub open spec fn stake_hash(e: Option<StakeChainExtendedEvent>) -> Option<Bytes32> {
    match e {
        Some(e) => Some(e.current_event_hash),
        None => None,
    }
}

pub open spec fn reward_content_bad(e: Option<RewardChainExtendedEvent>) -> bool {
    e matches Some(e) && !e.hash_is_valid()
}

pub open spec fn stake_content_bad(e: Option<StakeChainExtendedEvent>) -> bool {
    e matches Some(e) && !e.hash_is_valid()
}

fn from_linked(from: Option<Bytes32>, first_previous: Option<Bytes32>) -> (r: bool)
    ensures
        r == !from_unlinked(from, first_previous),
{
    match (from, first_previous) {
        (Some(h), Some(p)) => bytes_eq(&h, &p),
        _ => true,
    }
}

fn to_linked(to: Bytes32, last: Option<Bytes32>, from: Option<Bytes32>) -> (r: bool)
    ensures
        r == !to_unlinked(to, last, from),
{
    match last {
        Some(l) => bytes_eq(&l, &to),
        None => match from {
            Some(h) => bytes_eq(&h, &to),
            None => true,
        },
    }
}

fn reward_valid(e: &Option<RewardChainExtendedEvent>) -> (r: bool)
    ensures
        r == !reward_content_bad(*e),
{
    match e {
        Some(e) => e.verify_hash(&e.current_event_hash),
        None => true,
    }
}

fn stake_valid(e: &Option<StakeChainExtendedEvent>) -> (r: bool)
    ensures
        r == !stake_content_bad(*e),
{
    match e {
        Some(e) => e.verify_hash(&e.current_event_hash),
        None => true,
    }
}

impl RewardCalculator {
    /// The user's stake before the first stake event of the window.
    pub open spec fn initial_user_stake(&self) -> nat {
        match self.claim.from_user_stake_event {
            Some(e) => e.total_user_stake.value(),
            None => 0,
        }
    }

    /// The global stake before the first stake event of the window.
    pub open spec fn initial_total_stake(&self) -> nat {
        match self.claim.from_stake_event {
            Some(e) => e.total_staked.value(),
            None => 0,
        }
    }

    /// How many stake events are in effect for the reward event at index `i`.
    pub open spec fn applied(&self, i: int) -> int {
        cursor(self.stake_events@, self.reward_events@, i + 1)
    }

    /// The user's stake that weighs the reward event at index `i`.
    pub open spec fn user_stake_at(&self, i: int) -> nat {
        user_stake_after(self.stake_events@, self.user, self.initial_user_stake(), self.applied(i))
    }

    /// The global stake that weighs the reward event at index `i`.
    pub open spec fn total_stake_at(&self, i: int) -> nat {
        total_stake_after(self.stake_events@, self.initial_total_stake(), self.applied(i))
    }

    /// The user's fixed-point share of the reward event at index `i` (nothing while no stake
    /// is held).
    pub open spec fn share(&self, i: int) -> nat {
        if self.total_stake_at(i) == 0 {
            0
        } else {
            self.reward_events@[i].amount.value() * self.user_stake_at(i) * (PRECISION as nat)
                / self.total_stake_at(i)
        }
    }

    /// The fixed-point sum of the shares of the first `k` reward events.
    pub open spec fn accrued(&self, k: int) -> nat
        decreases k,
    {
        if k <= 0 {
            0
        } else {
            self.accrued(k - 1) + self.share(k - 1)
        }
    }

    /// Whether the reward event at index `i` is handled within 256 bits: its product and the
    /// running sum after it.
    pub open spec fn step_fits(&self, i: int) -> bool {
        &&& (self.total_stake_at(i) == 0 || self.reward_events@[i].amount.value()
            * self.user_stake_at(i) * (PRECISION as nat) < u256_modulus())
        &&& self.accrued(i + 1) < u256_modulus()
    }

    /// Whether the first `k` reward events are handled within 256 bits.
    pub open spec fn fits_upto(&self, k: int) -> bool {
        forall|i: int| 0 <= i < k ==> self.step_fits(i)
    }

    /// The final reward: the fixed-point sum, truncated once.
    pub open spec fn reward_total(&self) -> nat {
        self.accrued(self.reward_events@.len() as int) / (PRECISION as nat)
    }

    /// What the accumulation over the reward events returns.
    pub open spec fn accumulation_result(&self, r: Result<U256, RewardError>) -> bool {
        let n = self.reward_events@.len() as int;
        &&& (r is Ok <==> self.fits_upto(n))
        &&& (r matches Ok(v) ==> v.value() == self.reward_total())
        &&& (r matches Err(e) ==> e matches RewardError::ArithmeticOverflow(i) && i < n
            && self.fits_upto(i as int) && !self.step_fits(i as int))
    }

    /// The first failing boundary check, in the order reward chain, stake chain, user chain,
    /// `from` before `to`, content before linkage.
    pub open spec fn boundary_error(&self) -> Option<RewardError> {
        let rewards = self.reward_events@;
        let stakes = self.stake_events@;
        let c = self.claim;
        let first_reward = if rewards.len() > 0 {
            Some(rewards[0].previous_event_hash)
        } else {
            None
        };
        let last_reward = if rewards.len() > 0 {
            Some(rewards.last().current_event_hash)
        } else {
            None
        };
        let first_stake = if stakes.len() > 0 {
            Some(stakes[0].previous_event_hash)
        } else {
            None
        };
        let last_stake = if stakes.len() > 0 {
            Some(stakes.last().current_event_hash)
        } else {
            None
        };
        let j = last_event_of(stakes, self.user, stakes.len() as int);
        let last_user = if j >= 0 {
            Some(stakes[j].current_event_hash)
        } else {
            None
        };
        if reward_content_bad(c.from_reward_event) {
            Some(RewardError::ChainIntegrity(Boundary::FromReward, Mismatch::Content))
        } else if from_unlinked(reward_hash(c.from_reward_event), first_reward) {
            Some(RewardError::ChainIntegrity(Boundary::FromReward, Mismatch::Linkage))
        } else if !c.to_reward_event.hash_is_valid() {
            Some(RewardError::ChainIntegrity(Boundary::ToReward, Mismatch::Content))
        } else if to_unlinked(
            c.to_reward_event.current_event_hash,
            last_reward,
            reward_hash(c.from_reward_event),
        ) {
            Some(RewardError::ChainIntegrity(Boundary::ToReward, Mismatch::Linkage))
        } else if stake_content_bad(c.from_stake_event) {
            Some(RewardError::ChainIntegrity(Boundary::FromStake, Mismatch::Content))
        } else if from_unlinked(stake_hash(c.from_stake_event), first_stake) {
            Some(RewardError::ChainIntegrity(Boundary::FromStake, Mismatch::Linkage))
        } else if !c.to_stake_event.hash_is_valid() {
            Some(RewardError::ChainIntegrity(Boundary::ToStake, Mismatch::Content))
        } else if to_unlinked(
            c.to_stake_event.current_event_hash,
            last_stake,
            stake_hash(c.from_stake_event),
        ) {
            Some(RewardError::ChainIntegrity(Boundary::ToStake, Mismatch::Linkage))
        } else if stake_content_bad(c.from_user_stake_event) {
            Some(RewardError::ChainIntegrity(Boundary::FromUserStake, Mismatch::Content))
        } else if c.from_user_stake_event matches Some(f) && f.user@ != self.user@ {
            Some(RewardError::ChainIntegrity(Boundary::FromUserStake, Mismatch::Linkage))
        } else if !c.to_user_stake_event.hash_is_valid() {
            Some(RewardError::ChainIntegrity(Boundary::ToUserStake, Mismatch::Content))
        } else if c.to_user_stake_event.user@ != self.user@ || to_unlinked(
            c.to_user_stake_event.current_event_hash,
            last_user,
            stake_hash(c.from_user_stake_event),
        ) {
            Some(RewardError::ChainIntegrity(Boundary::ToUserStake, Mismatch::Linkage))
        } else {
            None
        }
    }

    /// What the whole computation returns: the first boundary failure, else the accumulation.
    pub open spec fn calculation_result(&self, r: Result<U256, RewardError>) -> bool {
        match self.boundary_error() {
            Some(e) => r == Err::<U256, RewardError>(e),
            None => self.accumulation_result(r),
        }
    }
}

impl RewardCalculator {
    /// Runs the six boundary checks in order and reports the first that fails.
    pub fn check_boundaries(&self) -> (r: Result<(), RewardError>)
        ensures
            match self.boundary_error() {
                Some(e) => r == Err::<(), RewardError>(e),
                None => r is Ok,
            },
    {
        let rewards = &self.reward_events;
        let stakes = &self.stake_events;
        let c = &self.claim;
        let first_reward = if rewards.len() > 0 {
            Some(rewards[0].previous_event_hash)
        } else {
            None
        };
        let last_reward = if rewards.len() > 0 {
            Some(rewards[rewards.len() - 1].current_event_hash)
        } else {
            None
        };
        let first_stake = if stakes.len() > 0 {
            Some(stakes[0].previous_event_hash)
        } else {
            None
        };
        let last_stake = if stakes.len() > 0 {
            Some(stakes[stakes.len() - 1].current_event_hash)
        } else {
            None
        };
        let mut last_user: Option<Bytes32> = None;
        let mut k: usize = 0;
        while k < stakes.len()
            invariant
                k <= stakes@.len(),
                last_user == (if last_event_of(stakes@, self.user, k as int) >= 0 {
                    Some(stakes@[last_event_of(stakes@, self.user, k as int)].current_event_hash)
                } else {
                    None
                }),
            decreases stakes.len() - k,
        {
            if bytes_eq(&stakes[k].user, &self.user) {
                last_user = Some(stakes[k].current_event_hash);
            }
            k = k + 1;
        }
        let from_reward = match &c.from_reward_event {
            Some(e) => Some(e.current_event_hash),
            None => None,
        };
        let from_stake = match &c.from_stake_event {
            Some(e) => Some(e.current_event_hash),
            None => None,
        };
        let from_user = match &c.from_user_stake_event {
            Some(e) => Some(e.current_event_hash),
            None => None,
        };
        if !reward_valid(&c.from_reward_event) {
            return Err(RewardError::ChainIntegrity(Boundary::FromReward, Mismatch::Content));
        }
        if !from_linked(from_reward, first_reward) {
            return Err(RewardError::ChainIntegrity(Boundary::FromReward, Mismatch::Linkage));
        }
        if !c.to_reward_event.verify_hash(&c.to_reward_event.current_event_hash) {
            return Err(RewardError::ChainIntegrity(Boundary::ToReward, Mismatch::Content));
        }
        if !to_linked(c.to_reward_event.current_event_hash, last_reward, from_reward) {
            return Err(RewardError::ChainIntegrity(Boundary::ToReward, Mismatch::Linkage));
        }
        if !stake_valid(&c.from_stake_event) {
            return Err(RewardError::ChainIntegrity(Boundary::FromStake, Mismatch::Content));
        }
        if !from_linked(from_stake, first_stake) {
            return Err(RewardError::ChainIntegrity(Boundary::FromStake, Mismatch::Linkage));
        }
        if !c.to_stake_event.verify_hash(&c.to_stake_event.current_event_hash) {
            return Err(RewardError::ChainIntegrity(Boundary::ToStake, Mismatch::Content));
        }
        if !to_linked(c.to_stake_event.current_event_hash, last_stake, from_stake) {
            return Err(RewardError::ChainIntegrity(Boundary::ToStake, Mismatch::Linkage));
        }
        if !stake_valid(&c.from_user_stake_event) {
            return Err(RewardError::ChainIntegrity(Boundary::FromUserStake, Mismatch::Content));
        }
        let from_user_owned = match &c.from_user_stake_event {
            Some(f) => bytes_eq(&f.user, &self.user),
            None => true,
        };
        if !from_user_owned {
            return Err(RewardError::ChainIntegrity(Boundary::FromUserStake, Mismatch::Linkage));
        }
        if !c.to_user_stake_event.verify_hash(&c.to_user_stake_event.current_event_hash) {
            return Err(RewardError::ChainIntegrity(Boundary::ToUserStake, Mismatch::Content));
        }
        if !bytes_eq(&c.to_user_stake_event.user, &self.user) || !to_linked(
            c.to_user_stake_event.current_event_hash,
            last_user,
            from_user,
        ) {
            return Err(RewardError::ChainIntegrity(Boundary::ToUserStake, Mismatch::Linkage));
        }
        Ok(())
    }

    /// Merges the stake events into the reward events in timestamp order and sums the user's
    /// fixed-point shares, truncating once at the end.
    pub fn accumulate(&self) -> (r: Result<U256, RewardError>)
        ensures
            self.accumulation_result(r),
    {
        let stakes = &self.stake_events;
        let rewards = &self.reward_events;
        let mut user_stake = match &self.claim.from_user_stake_event {
            Some(e) => e.total_user_stake,
            None => U256::zero(),
        };
        let mut total_stake = match &self.claim.from_stake_event {
            Some(e) => e.total_staked,
            None => U256::zero(),
        };
        let precision = U256::from_u64(PRECISION);
        let mut acc = U256::zero();
        let mut si: usize = 0;
        let mut ri: usize = 0;
        let n = rewards.len();
        while ri < n
            invariant
                n == rewards@.len(),
                stakes == &self.stake_events,
                rewards == &self.reward_events,
                ri <= n,
                0 <= si <= stakes@.len(),
                si as int == cursor(stakes@, rewards@, ri as int),
                user_stake.value() == user_stake_after(
                    stakes@,
                    self.user,
                    self.initial_user_stake(),
                    si as int,
                ),
                total_stake.value() == total_stake_after(
                    stakes@,
                    self.initial_total_stake(),
                    si as int,
                ),
                acc.value() == self.accrued(ri as int),
                self.fits_upto(ri as int),
                precision.value() == PRECISION,
            decreases n - ri,
        {
            let t = rewards[ri].timestamp;
            let ghost start = si as int;
            while si < stakes.len() && lt(&stakes[si].timestamp, &t)
                invariant
                    start <= si <= stakes@.len(),
                    consumed(stakes@, si as int, t.value()) == consumed(
                        stakes@,
                        start,
                        t.value(),
                    ),
                    user_stake.value() == user_stake_after(
                        stakes@,
                        self.user,
                        self.initial_user_stake(),
                        si as int,
                    ),
                    total_stake.value() == total_stake_after(
                        stakes@,
                        self.initial_total_stake(),
                        si as int,
                    ),
                decreases stakes@.len() - si,
            {
                if bytes_eq(&stakes[si].user, &self.user) {
                    user_stake = stakes[si].total_user_stake;
                }
                total_stake = stakes[si].total_staked;
                si = si + 1;
            }
            assert(si as int == self.applied(ri as int));
            let amount = rewards[ri].amount;
            let ghost i = ri as int;
            if !total_stake.is_zero() {
                let p1 = match checked_mul(&amount, &user_stake) {
                    Some(p) => p,
                    None => {
                        proof {
                            let a = amount.value();
                            let u = user_stake.value();
                            assert(a * u * (PRECISION as nat) >= u256_modulus()) by (nonlinear_arith)
                                requires
                                    a * u >= u256_modulus(),
                            ;
                            assert(!self.step_fits(i));
                        }
                        return Err(RewardError::ArithmeticOverflow(ri));
                    },
                };
                let p2 = match checked_mul(&p1, &precision) {
                    Some(p) => p,
                    None => {
                        assert(!self.step_fits(i));
                        return Err(RewardError::ArithmeticOverflow(ri));
                    },
                };
                let s = div(&p2, &total_stake);
                acc = match checked_add(&acc, &s) {
                    Some(v) => v,
                    None => {
                        assert(self.accrued(i + 1) == self.accrued(i) + self.share(i));
                        assert(!self.step_fits(i));
                        return Err(RewardError::ArithmeticOverflow(ri));
                    },
                };
            }
            assert(self.step_fits(i));
            assert(self.fits_upto(i + 1));
            ri = ri + 1;
        }
        Ok(div(&acc, &precision))
    }

    /// Checks the claim's boundaries against the events, then computes the user's reward over
    /// the window.
    pub fn calculate_reward(&self) -> (r: Result<U256, RewardError>)
        ensures
            self.calculation_result(r),
    {
        match self.check_boundaries() {
            Err(e) => Err(e),
            Ok(()) => self.accumulate(),
        }
    }
}

} // verus!
