//! The replay guard: one record per executed attestation, keyed by emitter
//! chain and sequence number. A key goes from absent to claimed once and
//! never back.

use vstd::prelude::*;
use std::collections::HashMap;
use crate::errors::GovernorError;
use crate::state::Received;

verus! {

broadcast use vstd::std_specs::hash::group_hash_axioms;

/// The records of the executed attestations, by `(emitter chain, sequence)`.
pub type Claims = Map<(u16, u64), Received>;

/// The slot of a key: the chain in the bits above the 64 of the sequence.
pub open spec fn slot_of(chain: u16, sequence: u64) -> u128 {
    (chain * 0x1_0000_0000_0000_0000 + sequence) as u128
}

/// Different keys have different slots.
pub proof fn lemma_slot_injective(c1: u16, s1: u64, c2: u16, s2: u64)
    requires
        slot_of(c1, s1) == slot_of(c2, s2),
    ensures
        c1 == c2,
        s1 == s2,
{
}

/// What an attempt to claim a key comes to: the claims with the new record
/// added, or `AlreadyProcessed` where the key is claimed.
pub open spec fn claim_outcome(claims: Claims, chain: u16, sequence: u64, record: Received) -> Result<
    Claims,
    GovernorError,
> {
    if claims.contains_key((chain, sequence)) {
        Err(GovernorError::AlreadyProcessed)
    } else {
        Ok(claims.insert((chain, sequence), record))
    }
}

/// After a key was claimed, every further claim of it fails with
/// `AlreadyProcessed`, whatever record it brings, and the first record stays.
pub proof fn lemma_second_claim_fails(
    claims: Claims,
    chain: u16,
    sequence: u64,
    first: Received,
    second: Received,
)
    requires
        claim_outcome(claims, chain, sequence, first) is Ok,
    ensures
        claim_outcome(claim_outcome(claims, chain, sequence, first)->Ok_0, chain, sequence, second)
            == Err::<Claims, GovernorError>(GovernorError::AlreadyProcessed),
        claim_outcome(claims, chain, sequence, first)->Ok_0[(chain, sequence)] == first,
{
}

/// A claim leaves every other key as it was: claimed with the same record, or
/// still free.
pub proof fn lemma_claim_keeps_others(
    claims: Claims,
    chain: u16,
    sequence: u64,
    record: Received,
    other: (u16, u64),
)
    requires
        claim_outcome(claims, chain, sequence, record) is Ok,
        other != (chain, sequence),
    ensures
        claim_outcome(claims, chain, sequence, record)->Ok_0.contains_key(other)
            == claims.contains_key(other),
        claims.contains_key(other) ==> claim_outcome(claims, chain, sequence, record)->Ok_0[other]
            == claims[other],
{
}

/// The replay guard.
pub struct ReplayGuard {
    slots: HashMap<u128, Received>,
}

impl View for ReplayGuard {
    type V = Claims;

    closed spec fn view(&self) -> Claims {
        Map::new(
            |key: (u16, u64)| self.slots@.contains_key(slot_of(key.0, key.1)),
            |key: (u16, u64)| self.slots@[slot_of(key.0, key.1)],
        )
    }
}

impl ReplayGuard {
    /// A guard with no key claimed.
    pub fn new() -> (guard: ReplayGuard)
        ensures
            guard@ == Map::<(u16, u64), Received>::empty(),
    {
        let guard = ReplayGuard { slots: HashMap::new() };
        assert(guard@ =~= Map::<(u16, u64), Received>::empty());
        guard
    }

    fn slot(chain: u16, sequence: u64) -> (slot: u128)
        ensures
            slot == slot_of(chain, sequence),
    {
        (chain as u128) * 0x1_0000_0000_0000_0000 + (sequence as u128)
    }

    /// Whether the key is claimed.
    pub fn is_claimed(&self, chain: u16, sequence: u64) -> (claimed: bool)
        ensures
            claimed == self@.contains_key((chain, sequence)),
    {
        let slot = Self::slot(chain, sequence);
        self.slots.contains_key(&slot)
    }

    /// The record kept under the key, if the key is claimed.
    pub fn record(&self, chain: u16, sequence: u64) -> (record: Option<Received>)
        ensures
            match record {
                Some(r) => self@.contains_key((chain, sequence)) && self@[(chain, sequence)] == r,
                None => !self@.contains_key((chain, sequence)),
            },
    {
        let slot = Self::slot(chain, sequence);
        match self.slots.get(&slot) {
            Some(r) => Some(*r),
            None => None,
        }
    }

    /// Claims the key for `record`. A claimed key is refused with
    /// `AlreadyProcessed`, and the guard stays as it was.
    pub fn claim(&mut self, chain: u16, sequence: u64, record: Received) -> (r: Result<
        (),
        GovernorError,
    >)
        ensures
            match r {
                Ok(_) => claim_outcome(old(self)@, chain, sequence, record) == Ok::<
                    Claims,
                    GovernorError,
                >(final(self)@),
                Err(e) => claim_outcome(old(self)@, chain, sequence, record) == Err::<
                    Claims,
                    GovernorError,
                >(e) && final(self)@ == old(self)@,
            },
    {
        let slot = Self::slot(chain, sequence);
        if self.slots.contains_key(&slot) {
            return Err(GovernorError::AlreadyProcessed);
        }
        self.slots.insert(slot, record);
        proof {
            assert forall|key: (u16, u64)| key != (chain, sequence) implies slot_of(key.0, key.1)
                != slot by {
                if slot_of(key.0, key.1) == slot {
                    lemma_slot_injective(key.0, key.1, chain, sequence);
                }
            }
            assert(self@ =~= old(self)@.insert((chain, sequence), record));
        }
        Ok(())
    }
}

} // verus!
