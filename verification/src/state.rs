//! Persistent state of the governor: the configuration singleton and the
//! record kept of every executed attestation.

use vstd::prelude::*;
use solana_program::pubkey::{Pubkey, PubkeyError};
use crate::errors::GovernorError;
use crate::wire::{address_eq, is_zero_address, Address};

verus! {

/// Chain id of the chain that the governor itself runs on.
pub const CHAIN_ID_SOLANA: u16 = 1;

/// Confirmation depth asked of the bridge: confirmed.
pub const FINALITY_CONFIRMED: u8 = 0;

/// Confirmation depth asked of the bridge: finalized.
pub const FINALITY_FINALIZED: u8 = 1;

/// Mint of the first tracked asset, wrapped SOL.
pub const SOL: Address = [
    6, 155, 136, 87, 254, 171, 129, 132, 251, 104, 127, 99, 70, 24, 192, 53, 218, 196, 57, 220, 26,
    235, 59, 85, 152, 160, 240, 0, 0, 0, 0, 1,
];

/// Mint of the second tracked asset, OLAS.
pub const OLAS: Address = [
    207, 197, 49, 175, 119, 226, 174, 207, 211, 166, 26, 30, 84, 144, 202, 47, 98, 152, 139, 62, 50,
    42, 93, 88, 209, 223, 254, 181, 103, 251, 79, 92,
];

/// Seed prefix of the governor's configuration and signing authority:
/// the bytes of `lockbox_governor`.
pub const LOCKBOX_GOVERNOR_SEED: [u8; 16] = [
    108, 111, 99, 107, 98, 111, 120, 95, 103, 111, 118, 101, 114, 110, 111, 114,
];

/// Seed prefix of the fee collector: the bytes of `fee_collector`.
pub const FEE_COLLECTOR_SEED: [u8; 13] = [102, 101, 101, 95, 99, 111, 108, 108, 101, 99, 116, 111, 114];

/// Seed prefix of a received record: the bytes of `received`.
pub const RECEIVED_SEED: [u8; 8] = [114, 101, 99, 101, 105, 118, 101, 100];

/// The two assets whose movements the governor counts.
#[derive(Clone, Copy, Debug, PartialEq, Eq, Structural)]
pub enum Asset {
    Sol,
    Olas,
}

impl Asset {
    /// The mint that identifies the asset.
    pub open spec fn mint(self) -> Address {
        match self {
            Asset::Sol => SOL,
            Asset::Olas => OLAS,
        }
    }

    /// The tracked asset with the given mint, if there is one.
    pub open spec fn of_mint(mint: Address) -> Option<Asset> {
        if mint == SOL {
            Some(Asset::Sol)
        } else if mint == OLAS {
            Some(Asset::Olas)
        } else {
            None
        }
    }

    /// Looks up the tracked asset with the given mint.
    pub fn from_mint(mint: &Address) -> (asset: Option<Asset>)
        ensures
            asset == Self::of_mint(*mint),
    {
        if address_eq(mint, &SOL) {
            Some(Asset::Sol)
        } else if address_eq(mint, &OLAS) {
            Some(Asset::Olas)
        } else {
            None
        }
    }

    /// The two tracked assets have different mints.
    pub proof fn lemma_mints_differ()
        ensures
            SOL != OLAS,
            Self::of_mint(SOL) == Some(Asset::Sol),
            Self::of_mint(OLAS) == Some(Asset::Olas),
    {
        assert(SOL@[0] == 6);
        assert(OLAS@[0] == 207);
    }
}

/// The error of `solana_program`'s address derivation, carried through and
/// never looked into.
#[verifier::external_type_specification]
#[verifier::external_body]
pub struct ExPubkeyError(solana_program::pubkey::PubkeyError);

/// The program-derived address for two seeds under a program, or `None` where
/// the seeds derive none.
pub uninterp spec fn program_address(seed: Seq<u8>, bump: Seq<u8>, program_id: Seq<u8>) -> Option<
    Seq<u8>,
>;

/// `solana_program::pubkey::Pubkey::create_program_address` for the seeds
/// `[seed, bump]`: off chain it hashes the seeds, the program id and a fixed
/// marker, and fails where a seed is too long or the hash is a curve point.
/// The outcome depends on the three byte strings alone.
#[verifier::external_body]
fn create_program_address(seed: &[u8], bump: &[u8], program_id: &Address) -> (r: Result<
    Address,
    PubkeyError,
>)
    ensures
        match r {
            Ok(a) => program_address(seed@, bump@, program_id@) == Some(a@),
            Err(_) => program_address(seed@, bump@, program_id@) is None,
        },
{
    match Pubkey::create_program_address(&[seed, bump], &Pubkey::new_from_array(*program_id)) {
        Ok(key) => Ok(key.to_bytes()),
        Err(e) => Err(e),
    }
}

/// Whether a derived authority, if one was derived, is `candidate`.
pub fn matches_authority(derived: Option<Address>, candidate: &Address) -> (is: bool)
    ensures
        is == (derived == Some(*candidate)),
        is == (derived is Some && derived->Some_0@ == candidate@),
{
    match derived {
        Some(a) => {
            let same = address_eq(&a, candidate);
            proof {
                if a@ == candidate@ {
                    crate::wire::lemma_address_ext(a, *candidate);
                }
            }
            same
        },
        None => false,
    }
}

/// The configuration singleton: the one trusted foreign authority, the seed of
/// the governor's own signing authority, and the running totals.
#[derive(Clone, Copy, Debug, PartialEq, Eq)]
pub struct LockboxGovernor {
    /// Bump seed of the signing authority.
    pub bump: [u8; 1],
    /// Id of the one trusted foreign chain.
    pub chain: u16,
    /// Address of the trusted governance emitter on that chain.
    pub foreign_emitter: Address,
    /// Total of the first tracked asset moved so far.
    pub total_sol_transferred: u64,
    /// Total of the second tracked asset moved so far.
    pub total_olas_transferred: u64,
    /// Confirmation depth that the bridge must have applied. Stored only.
    pub finality: u8,
}

impl LockboxGovernor {
    /// Whether a foreign chain and authority may be registered: the chain is
    /// neither zero nor the governor's own, and the authority is not all zero.
    pub open spec fn acceptable(chain: u16, foreign_governor: Address) -> bool {
        chain != 0 && chain != CHAIN_ID_SOLANA && !is_zero_address(foreign_governor)
    }

    /// The invariant of a registered configuration.
    pub open spec fn wf(self) -> bool {
        Self::acceptable(self.chain, self.foreign_emitter)
    }

    /// The total moved so far of one tracked asset.
    pub open spec fn total(self, asset: Asset) -> u64 {
        match asset {
            Asset::Sol => self.total_sol_transferred,
            Asset::Olas => self.total_olas_transferred,
        }
    }

    /// The configuration after `amount` more of `asset` was moved.
    pub open spec fn credited(self, asset: Asset, amount: u64) -> LockboxGovernor
        recommends
            self.total(asset) + amount <= u64::MAX,
    {
        match asset {
            Asset::Sol => LockboxGovernor {
                total_sol_transferred: (self.total_sol_transferred + amount) as u64,
                ..self
            },
            Asset::Olas => LockboxGovernor {
                total_olas_transferred: (self.total_olas_transferred + amount) as u64,
                ..self
            },
        }
    }

    /// Reads the total moved so far of one tracked asset.
    pub fn total_of(&self, asset: Asset) -> (total: u64)
        ensures
            total == self.total(asset),
    {
        match asset {
            Asset::Sol => self.total_sol_transferred,
            Asset::Olas => self.total_olas_transferred,
        }
    }

    /// Counts `amount` more of `asset` as moved.
    pub fn credit(&mut self, asset: Asset, amount: u64)
        requires
            old(self).total(asset) + amount <= u64::MAX,
        ensures
            *final(self) == old(self).credited(asset, amount),
    {
        match asset {
            Asset::Sol => {
                self.total_sol_transferred = self.total_sol_transferred + amount;
            },
            Asset::Olas => {
                self.total_olas_transferred = self.total_olas_transferred + amount;
            },
        }
    }

    /// Counting a movement touches the totals and nothing else: what was
    /// registered stays registered.
    pub proof fn lemma_credited_keeps_registration(self, asset: Asset, amount: u64)
        ensures
            self.credited(asset, amount).bump == self.bump,
            self.credited(asset, amount).chain == self.chain,
            self.credited(asset, amount).foreign_emitter == self.foreign_emitter,
            self.credited(asset, amount).finality == self.finality,
            self.credited(asset, amount).wf() == self.wf(),
            self.total(asset) + amount <= u64::MAX ==> self.credited(asset, amount).total(asset)
                == self.total(asset) + amount,
            forall|other: Asset|
                other != asset ==> self.credited(asset, amount).total(other) == self.total(other),
    {
    }

    /// A configuration with nothing registered yet.
    pub fn new() -> (config: LockboxGovernor)
        ensures
            config.bump@ == seq![0u8],
            config.chain == 0,
            config.foreign_emitter@ == Seq::new(32, |i: int| 0u8),
            config.total_sol_transferred == 0,
            config.total_olas_transferred == 0,
            config.finality == FINALITY_CONFIRMED,
    {
        let config = LockboxGovernor {
            bump: [0u8],
            chain: 0,
            foreign_emitter: [0u8;32],
            total_sol_transferred: 0,
            total_olas_transferred: 0,
            finality: FINALITY_CONFIRMED,
        };
        assert(config.bump@ =~= seq![0u8]);
        assert(config.foreign_emitter@ =~= Seq::new(32, |i: int| 0u8));
        config
    }

    /// The seeds from which the signing authority is derived: the fixed
    /// prefix, then the bump.
    pub fn seeds(&self) -> (s: [&[u8]; 2])
        ensures
            s@[0]@ == LOCKBOX_GOVERNOR_SEED@,
            s@[1]@ == self.bump@,
    {
        let prefix: &'static [u8; 16] = &LOCKBOX_GOVERNOR_SEED;
        [prefix.as_slice(), self.bump.as_slice()]
    }

    /// Registers bump, foreign chain and foreign authority, and sets both
    /// totals to zero. It does not judge what it is given.
    pub fn initialize(&mut self, bump: u8, chain: u16, foreign_governor: Address) -> (r: Result<
        (),
        GovernorError,
    >)
        ensures
            r is Ok,
            final(self).bump@ == seq![bump],
            final(self).chain == chain,
            final(self).foreign_emitter == foreign_governor,
            final(self).total_sol_transferred == 0,
            final(self).total_olas_transferred == 0,
            final(self).finality == old(self).finality,
    {
        self.bump = [bump];
        self.chain = chain;
        self.foreign_emitter = foreign_governor;
        self.total_sol_transferred = 0;
        self.total_olas_transferred = 0;
        assert(self.bump@ =~= seq![bump]);
        Ok(())
    }

    /// Whether `check_address` is the registered foreign authority.
    pub fn verify(&self, check_address: &Address) -> (same: bool)
        ensures
            same == (*check_address == self.foreign_emitter),
    {
        address_eq(check_address, &self.foreign_emitter)
    }

    /// The address of the signing authority under the program `program_id`,
    /// derived from the seeds alone; `None` where this bump derives none.
    pub fn signing_authority(&self, program_id: &Address) -> (authority: Option<Address>)
        ensures
            match authority {
                Some(a) => program_address(LOCKBOX_GOVERNOR_SEED@, self.bump@, program_id@)
                    == Some(a@),
                None => program_address(LOCKBOX_GOVERNOR_SEED@, self.bump@, program_id@) is None,
            },
    {
        let seeds = self.seeds();
        match create_program_address(seeds[0], seeds[1], program_id) {
            Ok(a) => Some(a),
            Err(_) => None,
        }
    }

    /// Whether `candidate` is the address of the signing authority under the
    /// program `program_id`.
    pub fn is_signing_authority(&self, program_id: &Address, candidate: &Address) -> (is: bool)
        ensures
            is == (program_address(LOCKBOX_GOVERNOR_SEED@, self.bump@, program_id@) == Some(
                candidate@,
            )),
    {
        matches_authority(self.signing_authority(program_id), candidate)
    }
}

/// State of the fee collector: its bump, its foreign authority and its totals.
#[derive(Clone, Copy, Debug, PartialEq, Eq)]
pub struct FeeCollector {
    /// Bump seed of the collector's address.
    pub bump: [u8; 1],
    /// Address of the foreign emitter.
    pub foreign_emitter: Address,
    /// Total of the first tracked asset moved so far.
    pub total_sol_transferred: u64,
    /// Total of the second tracked asset moved so far.
    pub total_olas_transferred: u64,
}

impl FeeCollector {
    /// The seeds of the collector's address: the fixed prefix, then the bump.
    pub fn seeds(&self) -> (s: [&[u8]; 2])
        ensures
            s@[0]@ == FEE_COLLECTOR_SEED@,
            s@[1]@ == self.bump@,
    {
        let prefix: &'static [u8; 13] = &FEE_COLLECTOR_SEED;
        [prefix.as_slice(), self.bump.as_slice()]
    }

    /// Registers bump and foreign emitter, and zeroes both totals. The
    /// collector keeps no chain: `chain` is taken and not stored.
    pub fn initialize(&mut self, bump: u8, chain: u16, address: Address) -> (r: Result<
        (),
        GovernorError,
    >)
        ensures
            r is Ok,
            final(self).bump@ == seq![bump],
            final(self).foreign_emitter == address,
            final(self).total_sol_transferred == 0,
            final(self).total_olas_transferred == 0,
    {
        self.bump = [bump];
        self.foreign_emitter = address;
        self.total_sol_transferred = 0;
        self.total_olas_transferred = 0;
        assert(self.bump@ =~= seq![bump]);
        Ok(())
    }

    /// Whether `address` is the stored foreign emitter.
    pub fn verify(&self, address: &Address) -> (same: bool)
        ensures
            same == (*address == self.foreign_emitter),
    {
        address_eq(address, &self.foreign_emitter)
    }
}

/// What is kept of an executed attestation. A record is written once, when
/// its attestation executes, and never changed.
#[derive(Clone, Copy, Debug, PartialEq, Eq)]
pub struct Received {
    /// Batch id of the attestation.
    pub batch_id: u32,
    /// Hash of the raw attestation, kept for audit.
    pub wormhole_message_hash: [u8; 32],
    /// Sequence number of the attestation.
    pub sequence: u64,
}

} // verus!
