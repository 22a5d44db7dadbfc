use vstd::prelude::*;
use crate::types::{Address, Bytes32, U256, Zero, be_bytes, append_bytes, to_be_bytes};
use crate::reward::RewardChainExtendedEvent;
use crate::stake::StakeChainExtendedEvent;
use crate::reward_calculator::{RewardCalculator, RewardError};

verus! {

/// The record that a computation commits to: the user, the reward, and the hashes of the six
/// boundaries (zero for a genesis start).
#[derive(Clone, Copy, Debug)]
pub struct PublicValues {
    pub user: Address,
    pub total_rewards: U256,
    pub from_reward_event_hash: Bytes32,
    pub to_reward_event_hash: Bytes32,
    pub from_stake_event_hash: Bytes32,
    pub to_stake_event_hash: Bytes32,
    pub from_user_stake_event_hash: Bytes32,
    pub to_user_stake_event_hash: Bytes32,
}

/// Thirty-two zero bytes, the hash that stands for a genesis start.
pub open spec fn zero_hash() -> Seq<u8> {
    Seq::new(32, |i: int| 0u8)
}

pub open spec fn reward_boundary_hash(e: Option<RewardChainExtendedEvent>) -> Seq<u8> {
    match e {
        Some(e) => e.current_event_hash@,
        None => zero_hash(),
    }
}

pub open spec fn stake_boundary_hash(e: Option<StakeChainExtendedEvent>) -> Seq<u8> {
    match e {
        Some(e) => e.current_event_hash@,
        None => zero_hash(),
    }
}

/// The ABI layout of the record: eight 32-byte words, the address right-aligned in the
/// first, the reward big-endian in the second, then the six hashes in order.
pub open spec fn encode_words(
    user: Seq<u8>,
    total: nat,
    h0: Seq<u8>,
    h1: Seq<u8>,
    h2: Seq<u8>,
    h3: Seq<u8>,
    h4: Seq<u8>,
    h5: Seq<u8>,
) -> Seq<u8> {
    Seq::new(12, |i: int| 0u8) + user + be_bytes(total, 32) + h0 + h1 + h2 + h3 + h4 + h5
}

impl PublicValues {
    pub open spec fn encoding(&self) -> Seq<u8> {
        encode_words(
            self.user@,
            self.total_rewards.value(),
            self.from_reward_event_hash@,
            self.to_reward_event_hash@,
            self.from_stake_event_hash@,
            self.to_stake_event_hash@,
            self.from_user_stake_event_hash@,
            self.to_user_stake_event_hash@,
        )
    }

    /// The record in its committed byte layout.
    pub fn abi_encode(&self) -> (r: Vec<u8>)
        ensures
            r@ == self.encoding(),
            r@.len() == 256,
    {
        let mut out: Vec<u8> = Vec::new();
        append_bytes(&mut out, &[0u8; 12]);
        append_bytes(&mut out, &self.user);
        append_bytes(&mut out, &to_be_bytes(&self.total_rewards));
        append_bytes(&mut out, &self.from_reward_event_hash);
        append_bytes(&mut out, &self.to_reward_event_hash);
        append_bytes(&mut out, &self.from_stake_event_hash);
        append_bytes(&mut out, &self.to_stake_event_hash);
        append_bytes(&mut out, &self.from_user_stake_event_hash);
        append_bytes(&mut out, &self.to_user_stake_event_hash);
        assert(out@ =~= self.encoding());
        out
    }
}

impl RewardCalculator {
    /// The committed bytes for a reward of `total` over this claim.
    pub open spec fn commitment_bytes(&self, total: nat) -> Seq<u8> {
        let c = self.claim;
        encode_words(
            self.user@,
            total,
            reward_boundary_hash(c.from_reward_event),
            c.to_reward_event.current_event_hash@,
            stake_boundary_hash(c.from_stake_event),
            c.to_stake_event.current_event_hash@,
            stake_boundary_hash(c.from_user_stake_event),
            c.to_user_stake_event.current_event_hash@,
        )
    }

    /// What a whole run returns: the committed bytes of the reward, or the error of the
    /// computation.
    pub open spec fn commit_result(&self, r: Result<Vec<u8>, RewardError>) -> bool {
        match r {
            Ok(b) => self.boundary_error() is None && self.fits_upto(
                self.reward_events@.len() as int,
            ) && b@ == self.commitment_bytes(self.reward_total()),
            Err(e) => self.calculation_result(Err(e)),
        }
    }

    /// The record for a reward of `total` over this claim.
    pub fn public_values(&self, total: U256) -> (r: PublicValues)
        ensures
            r.encoding() == self.commitment_bytes(total.value()),
    {
        let c = &self.claim;
        let zero: Bytes32 = Bytes32::zero();
        PublicValues {
            user: self.user,
            total_rewards: total,
            from_reward_event_hash: match &c.from_reward_event {
                Some(e) => e.current_event_hash,
                None => zero,
            },
            to_reward_event_hash: c.to_reward_event.current_event_hash,
            from_stake_event_hash: match &c.from_stake_event {
                Some(e) => e.current_event_hash,
                None => zero,
            },
            to_stake_event_hash: c.to_stake_event.current_event_hash,
            from_user_stake_event_hash: match &c.from_user_stake_event {
                Some(e) => e.current_event_hash,
                None => zero,
            },
            to_user_stake_event_hash: c.to_user_stake_event.current_event_hash,
        }
    }

    /// Computes the reward and encodes it with the claim's boundary hashes.
    pub fn commit(&self) -> (r: Result<Vec<u8>, RewardError>)
        ensures
            self.commit_result(r),
    {
        match self.calculate_reward() {
            Ok(total) => Ok(self.public_values(total).abi_encode()),
            Err(e) => Err(e),
        }
    }
}

} // verus!
