use alloy_sol_types::SolValue;
use soar_lib::commitment::PublicValues;
use soar_lib::reward::RewardChainExtendedEvent;
use soar_lib::reward_calculator::{
    Boundary, Mismatch, RewardCalculator, RewardClaimParameters, RewardError,
};
use soar_lib::stake::StakeChainExtendedEvent;
use soar_lib::types::{Address, Bytes32, Zero, U256};

const ALICE: Address = [0xa1; 20];
const BOB: Address = [0xb2; 20];

fn n(v: u64) -> U256 {
    U256::from_u64(v)
}

fn value(v: U256) -> [u64; 4] {
    v.limbs
}

/// Stake events (user, user total, global total, timestamp), chained by hash.
fn stake_chain(items: &[(Address, u64, u64, u64)]) -> Vec<StakeChainExtendedEvent> {
    let mut prev: Bytes32 = [0x11; 32];
    let mut out = Vec::new();
    for &(user, user_total, total, ts) in items {
        let mut e = StakeChainExtendedEvent {
            user,
            is_stake: true,
            amount: n(user_total),
            total_staked: n(total),
            total_user_stake: n(user_total),
            timestamp: n(ts),
            previous_event_hash: prev,
            current_event_hash: [0; 32],
        };
        e.current_event_hash = e.hash();
        prev = e.current_event_hash;
        out.push(e);
    }
    out
}

/// Reward events (amount, timestamp), chained by hash.
fn reward_chain(items: &[(u64, u64)]) -> Vec<RewardChainExtendedEvent> {
    let mut prev: Bytes32 = [0x22; 32];
    let mut total = 0u64;
    let mut out = Vec::new();
    for &(amount, ts) in items {
        total += amount;
        let mut e = RewardChainExtendedEvent {
            amount: n(amount),
            total_reward: n(total),
            timestamp: n(ts),
            previous_event_hash: prev,
            current_event_hash: [0; 32],
        };
        e.current_event_hash = e.hash();
        prev = e.current_event_hash;
        out.push(e);
    }
    out
}

fn placeholder_reward() -> RewardChainExtendedEvent {
    let mut e = RewardChainExtendedEvent {
        amount: n(0),
        total_reward: n(0),
        timestamp: n(0),
        previous_event_hash: [0; 32],
        current_event_hash: [0; 32],
    };
    e.current_event_hash = e.hash();
    e
}

fn placeholder_stake(user: Address) -> StakeChainExtendedEvent {
    let mut e = StakeChainExtendedEvent {
        user,
        is_stake: true,
        amount: n(0),
        total_staked: n(0),
        total_user_stake: n(0),
        timestamp: n(0),
        previous_event_hash: [0; 32],
        current_event_hash: [0; 32],
    };
    e.current_event_hash = e.hash();
    e
}

/// A calculator over whole streams from genesis, with the claim's ends at the streams' ends.
fn calculator(
    user: Address,
    stakes: Vec<StakeChainExtendedEvent>,
    rewards: Vec<RewardChainExtendedEvent>,
) -> RewardCalculator {
    let to_reward = rewards.last().copied().unwrap_or_else(placeholder_reward);
    let to_stake = stakes.last().copied().unwrap_or_else(|| placeholder_stake(user));
    let to_user = stakes
        .iter()
        .rev()
        .find(|e| e.user == user)
        .copied()
        .unwrap_or_else(|| placeholder_stake(user));
    RewardCalculator {
        user,
        stake_events: stakes,
        reward_events: rewards,
        claim: RewardClaimParameters {
            user,
            from_reward_event: None,
            to_reward_event: to_reward,
            from_stake_event: None,
            to_stake_event: to_stake,
            from_user_stake_event: None,
            to_user_stake_event: to_user,
        },
    }
}

fn reward_of(c: &RewardCalculator) -> Result<[u64; 4], RewardError> {
    c.calculate_reward().map(value)
}

#[test]
fn single_staker_earns_whole_reward() {
    let c = calculator(ALICE, stake_chain(&[(ALICE, 100, 100, 0)]), reward_chain(&[(10, 1)]));
    assert_eq!(reward_of(&c), Ok([10, 0, 0, 0]));
}

#[test]
fn even_split_between_two_users() {
    let stakes = stake_chain(&[(ALICE, 50, 50, 0), (BOB, 50, 100, 0)]);
    let rewards = reward_chain(&[(100, 1)]);
    let a = calculator(ALICE, stakes.clone(), rewards.clone());
    let b = calculator(BOB, stakes, rewards);
    assert_eq!(reward_of(&a), Ok([50, 0, 0, 0]));
    assert_eq!(reward_of(&b), Ok([50, 0, 0, 0]));
}

#[test]
fn no_reward_events_gives_zero() {
    let c = calculator(ALICE, stake_chain(&[(ALICE, 100, 100, 0)]), Vec::new());
    assert_eq!(reward_of(&c), Ok([0, 0, 0, 0]));
}

#[test]
fn zero_total_stake_earns_nothing() {
    let stakes = stake_chain(&[(ALICE, 0, 0, 0), (BOB, 0, 0, 3)]);
    let rewards = reward_chain(&[(1000, 1), (u64::MAX, 5)]);
    let c = calculator(ALICE, stakes, rewards);
    assert_eq!(reward_of(&c), Ok([0, 0, 0, 0]));
}

#[test]
fn full_stake_earns_sum_of_amounts() {
    let stakes = stake_chain(&[(ALICE, 7, 7, 0), (ALICE, 3, 3, 4)]);
    let rewards = reward_chain(&[(11, 1), (13, 5), (17, 9)]);
    let c = calculator(ALICE, stakes, rewards);
    assert_eq!(reward_of(&c), Ok([41, 0, 0, 0]));
}

#[test]
fn stake_at_reward_time_applies_from_next_reward() {
    // Bob's stake lands at the time of the first reward: Alice holds all of the stake for
    // that reward and half of it for the next one.
    let stakes = stake_chain(&[(ALICE, 100, 100, 0), (BOB, 100, 200, 5)]);
    let rewards = reward_chain(&[(10, 5), (10, 6)]);
    let alice = calculator(ALICE, stakes.clone(), rewards.clone());
    assert_eq!(reward_of(&alice), Ok([15, 0, 0, 0]));
    let bob = calculator(BOB, stakes, rewards);
    assert_eq!(reward_of(&bob), Ok([5, 0, 0, 0]));
}

#[test]
fn stake_before_reward_time_applies_at_once() {
    let stakes = stake_chain(&[(ALICE, 100, 100, 0), (BOB, 100, 200, 4)]);
    let rewards = reward_chain(&[(10, 5), (10, 6)]);
    let alice = calculator(ALICE, stakes, rewards);
    assert_eq!(reward_of(&alice), Ok([10, 0, 0, 0]));
}

#[test]
fn truncation_applied_once() {
    // Each reward gives 2/3 of a unit: truncated per event that would be 0, truncated
    // once at the end it is 1.
    let stakes = stake_chain(&[(ALICE, 1, 1, 0), (BOB, 2, 3, 0)]);
    let rewards = reward_chain(&[(2, 1), (2, 2)]);
    let c = calculator(ALICE, stakes, rewards);
    assert_eq!(reward_of(&c), Ok([1, 0, 0, 0]));
}

#[test]
fn tampered_boundary_is_rejected() {
    let stakes = stake_chain(&[(ALICE, 100, 100, 0)]);
    let rewards = reward_chain(&[(10, 1)]);
    let mut c = calculator(ALICE, stakes, rewards);
    assert!(c.claim.to_reward_event.verify_hash(&c.claim.to_reward_event.current_event_hash));
    c.claim.to_reward_event.amount = n(11);
    assert!(!c.claim.to_reward_event.verify_hash(&c.claim.to_reward_event.current_event_hash));
    assert_eq!(
        c.calculate_reward().map(value),
        Err(RewardError::ChainIntegrity(Boundary::ToReward, Mismatch::Content))
    );
}

#[test]
fn tampered_user_stake_boundary_is_rejected() {
    let stakes = stake_chain(&[(ALICE, 100, 100, 0)]);
    let mut c = calculator(ALICE, stakes, reward_chain(&[(10, 1)]));
    c.claim.to_user_stake_event.total_user_stake = n(1000);
    assert!(!c.claim.to_user_stake_event.verify_hash(&c.claim.to_user_stake_event.current_event_hash));
    assert_eq!(
        reward_of(&c),
        Err(RewardError::ChainIntegrity(Boundary::ToUserStake, Mismatch::Content))
    );
}

#[test]
fn unlinked_from_boundary_is_rejected() {
    let stakes = stake_chain(&[(ALICE, 100, 100, 0)]);
    let rewards = reward_chain(&[(10, 1)]);
    let mut c = calculator(ALICE, stakes, rewards);
    c.claim.from_reward_event = Some(placeholder_reward());
    assert_eq!(
        reward_of(&c),
        Err(RewardError::ChainIntegrity(Boundary::FromReward, Mismatch::Linkage))
    );
}

#[test]
fn from_boundary_sets_starting_stake() {
    let genesis = stake_chain(&[(ALICE, 100, 400, 0)]);
    let from = genesis[0];
    let mut next = StakeChainExtendedEvent {
        user: BOB,
        is_stake: false,
        amount: n(200),
        total_staked: n(200),
        total_user_stake: n(100),
        timestamp: n(10),
        previous_event_hash: from.current_event_hash,
        current_event_hash: [0; 32],
    };
    next.current_event_hash = next.hash();
    let rewards = reward_chain(&[(40, 1), (40, 11)]);
    let mut c = calculator(ALICE, vec![next], rewards);
    c.claim.from_stake_event = Some(from);
    c.claim.from_user_stake_event = Some(from);
    c.claim.to_user_stake_event = from;
    // A quarter of the first reward, half of the second.
    assert_eq!(reward_of(&c), Ok([30, 0, 0, 0]));
}

#[test]
fn overflow_names_the_reward_event() {
    let big = U256::from_limbs([0, 0, 0, 1 << 40]);
    let stakes = stake_chain(&[(ALICE, 1, 1, 0)]);
    let mut rewards = reward_chain(&[(1, 1), (1, 2)]);
    rewards[1].amount = big;
    rewards[1].current_event_hash = rewards[1].hash();
    let c = calculator(ALICE, stakes, rewards);
    assert_eq!(reward_of(&c), Err(RewardError::ArithmeticOverflow(1)));
}

#[test]
fn commit_is_deterministic() {
    let stakes = stake_chain(&[(ALICE, 30, 30, 0), (BOB, 70, 100, 2)]);
    let rewards = reward_chain(&[(1000, 1), (1000, 3)]);
    let c = calculator(ALICE, stakes, rewards);
    let first = c.commit().unwrap();
    let second = c.commit().unwrap();
    assert_eq!(first, second);
    assert_eq!(first.len(), 256);
}

#[test]
fn commitment_layout() {
    let stakes = stake_chain(&[(ALICE, 100, 100, 0)]);
    let rewards = reward_chain(&[(10, 1)]);
    let c = calculator(ALICE, stakes, rewards);
    let bytes = c.commit().unwrap();
    assert_eq!(&bytes[0..12], &[0u8; 12]);
    assert_eq!(&bytes[12..32], &ALICE);
    let mut ten = [0u8; 32];
    ten[31] = 10;
    assert_eq!(&bytes[32..64], &ten);
    assert_eq!(&bytes[64..96], &[0u8; 32]);
    assert_eq!(&bytes[96..128], &c.claim.to_reward_event.current_event_hash);
    assert_eq!(&bytes[128..160], &[0u8; 32]);
    assert_eq!(&bytes[160..192], &c.claim.to_stake_event.current_event_hash);
    assert_eq!(&bytes[192..224], &[0u8; 32]);
    assert_eq!(&bytes[224..256], &c.claim.to_user_stake_event.current_event_hash);
}

#[test]
fn commitment_matches_abi_encoding() {
    let v = PublicValues {
        user: BOB,
        total_rewards: U256::from_limbs([1, 2, 3, 4]),
        from_reward_event_hash: [1; 32],
        to_reward_event_hash: [2; 32],
        from_stake_event_hash: [3; 32],
        to_stake_event_hash: [4; 32],
        from_user_stake_event_hash: [5; 32],
        to_user_stake_event_hash: [6; 32],
    };
    let b = |x: [u8; 32]| alloy_primitives::B256::from(x);
    let expected = (
        alloy_primitives::Address::from(BOB),
        alloy_primitives::U256::from_limbs([1, 2, 3, 4]),
        b([1; 32]),
        b([2; 32]),
        b([3; 32]),
        b([4; 32]),
        b([5; 32]),
        b([6; 32]),
    )
        .abi_encode();
    assert_eq!(v.abi_encode(), expected);
}

#[test]
fn stake_hash_is_keccak_of_encoding() {
    let e = StakeChainExtendedEvent {
        user: ALICE,
        is_stake: true,
        amount: n(5),
        total_staked: n(6),
        total_user_stake: n(7),
        timestamp: U256::from_limbs([8, 0, 0, 9]),
        previous_event_hash: [3; 32],
        current_event_hash: [0; 32],
    };
    let mut data = ALICE.to_vec();
    data.push(1);
    for v in [5u64, 6, 7] {
        data.extend_from_slice(&alloy_primitives::U256::from(v).to_be_bytes::<32>());
    }
    data.extend_from_slice(&alloy_primitives::U256::from_limbs([8, 0, 0, 9]).to_be_bytes::<32>());
    data.extend_from_slice(&[3; 32]);
    assert_eq!(e.hash(), alloy_primitives::keccak256(&data).0);
    assert!(e.verify_hash(&e.hash()));
    assert!(!e.verify_hash(&[0; 32]));
}

#[test]
fn reward_hash_is_keccak_of_encoding() {
    let e = RewardChainExtendedEvent {
        amount: n(1),
        total_reward: n(2),
        timestamp: n(3),
        previous_event_hash: [4; 32],
        current_event_hash: [0; 32],
    };
    let mut data = Vec::new();
    for v in [1u64, 2, 3] {
        data.extend_from_slice(&alloy_primitives::U256::from(v).to_be_bytes::<32>());
    }
    data.extend_from_slice(&[4; 32]);
    assert_eq!(e.hash(), alloy_primitives::keccak256(&data).0);
}

#[test]
fn zero_values() {
    assert!(U256::zero().is_zero());
    assert!(!n(1).is_zero());
    assert_eq!(<Bytes32 as Zero>::zero(), [0u8; 32]);
}
