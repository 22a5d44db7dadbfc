use vstd::prelude::*;
use crate::types::{Address, Bytes32, U256, be_bytes, keccak_of, keccak256, append_bytes, to_be_bytes, bytes_eq};

verus! {

/// A change of stake in the stake chain, carrying the totals after the change.
#[derive(Clone, Copy, Debug)]
pub struct StakeChainExtendedEvent {
    pub user: Address,
    pub is_stake: bool,
    pub amount: U256,
    pub total_staked: U256,
    pub total_user_stake: U256,
    pub timestamp: U256,
    pub previous_event_hash: Bytes32,
    pub current_event_hash: Bytes32,
}

impl StakeChainExtendedEvent {
    /// The canonical bytes that the content hash is taken over: the address, one byte for the
    /// direction, the four integers as 32 big-endian bytes each, then the previous hash.
    pub open spec fn encoding(&self) -> Seq<u8> {
        self.user@ + seq![if self.is_stake { 1u8 } else { 0u8 }] + be_bytes(self.amount.value(), 32)
            + be_bytes(self.total_staked.value(), 32) + be_bytes(
            self.total_user_stake.value(),
            32,
        ) + be_bytes(self.timestamp.value(), 32) + self.previous_event_hash@
    }

    /// The content hash: the digest of the canonical encoding.
    pub open spec fn content_hash(&self) -> Seq<u8> {
        keccak_of(self.encoding())
    }

    /// Whether the stored hash is the one recomputed from the content.
    pub open spec fn hash_is_valid(&self) -> bool {
        self.content_hash() == self.current_event_hash@
    }

    /// Recomputes the content hash of this event.
    pub fn hash(&self) -> (r: Bytes32)
        ensures
            r@ == self.content_hash(),
    {
        let mut data: Vec<u8> = Vec::new();
        append_bytes(&mut data, &self.user);
        data.push(if self.is_stake { 1u8 } else { 0u8 });
        append_bytes(&mut data, &to_be_bytes(&self.amount));
        append_bytes(&mut data, &to_be_bytes(&self.total_staked));
        append_bytes(&mut data, &to_be_bytes(&self.total_user_stake));
        append_bytes(&mut data, &to_be_bytes(&self.timestamp));
        append_bytes(&mut data, &self.previous_event_hash);
        assert(data@ =~= self.encoding());
        keccak256(&data)
    }

    /// Whether the recomputed content hash equals `expected`.
    pub fn verify_hash(&self, expected: &Bytes32) -> (r: bool)
        ensures
            r == (self.content_hash() == expected@),
    {
        let h = self.hash();
        bytes_eq(&h, expected)
    }
}

} // verus!
