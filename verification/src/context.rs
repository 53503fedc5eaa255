//! What each entry point is handed: the attestation as the bridge posted it,
//! and the accounts that the caller supplies for the addresses inside it.

use vstd::prelude::*;
use crate::wire::Address;

verus! {

/// An attestation that the bridge has verified and posted.
#[derive(Clone, Debug, PartialEq, Eq)]
pub struct PostedVaa {
    /// Chain that the attestation comes from.
    pub emitter_chain: u16,
    /// Address that emitted it on that chain.
    pub emitter_address: Address,
    /// Sequence number that the emitter gave it.
    pub sequence: u64,
    /// Batch id.
    pub batch_id: u32,
    /// The raw payload.
    pub payload: Vec<u8>,
}

/// What the governor reads of an asset-holding account.
#[derive(Clone, Copy, Debug, PartialEq, Eq)]
pub struct TokenAccount {
    /// Address of the account.
    pub key: Address,
    /// Mint of the asset it holds.
    pub mint: Address,
    /// Its balance.
    pub amount: u64,
}

/// Accounts for creating the configuration.
#[derive(Clone, Copy, Debug, PartialEq, Eq)]
pub struct InitializeLockboxGovernor {
    /// Who pays for and creates the configuration.
    pub signer: Address,
    /// Bump seed found for the configuration's address.
    pub bump: u8,
}

/// Accounts for moving an amount of one tracked asset.
#[derive(Clone, Debug, PartialEq, Eq)]
pub struct TransferLockboxGovernor {
    /// Who submits the attestation.
    pub signer: Address,
    /// The attestation.
    pub posted: PostedVaa,
    /// Account to take the amount from.
    pub source_account: TokenAccount,
    /// Account to give the amount to.
    pub destination_account: TokenAccount,
}

/// Accounts for sweeping both tracked assets.
#[derive(Clone, Debug, PartialEq, Eq)]
pub struct TransferAllLockboxGovernor {
    /// Who submits the attestation.
    pub signer: Address,
    /// The attestation.
    pub posted: PostedVaa,
    /// Source of the first asset.
    pub source_account_sol: TokenAccount,
    /// Source of the second asset.
    pub source_account_olas: TokenAccount,
    /// Destination of the first asset.
    pub destination_account_sol: TokenAccount,
    /// Destination of the second asset.
    pub destination_account_olas: TokenAccount,
}

/// Accounts for handing both asset-holding accounts to a new owner.
#[derive(Clone, Debug, PartialEq, Eq)]
pub struct TransferTokenAccountsLockboxGovernor {
    /// Who submits the attestation.
    pub signer: Address,
    /// The attestation.
    pub posted: PostedVaa,
    /// Account of the first asset.
    pub source_account_sol: TokenAccount,
    /// Account of the second asset.
    pub source_account_olas: TokenAccount,
    /// The new owner.
    pub destination_account: Address,
}

/// Accounts for changing a program's upgrade authority.
#[derive(Clone, Debug, PartialEq, Eq)]
pub struct SetUpgradeAuthorityLockboxGovernor {
    /// Who submits the attestation.
    pub signer: Address,
    /// The attestation.
    pub posted: PostedVaa,
    /// The program concerned.
    pub program_account: Address,
    /// The account that holds the program's code and authority.
    pub program_data_account: Address,
    /// The new upgrade authority.
    pub upgrade_authority_account: Address,
}

/// Accounts for upgrading a program from a buffer.
#[derive(Clone, Debug, PartialEq, Eq)]
pub struct UpgradeProgramLockboxGovernor {
    /// Who submits the attestation.
    pub signer: Address,
    /// The attestation.
    pub posted: PostedVaa,
    /// The program to upgrade.
    pub program_account: Address,
    /// The account that holds the program's code and authority.
    pub program_data_account: Address,
    /// The buffer with the new code.
    pub buffer_account: Address,
    /// The account that takes the excess funds.
    pub spill_account: Address,
}

} // verus!
