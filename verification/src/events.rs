//! Audit events, one per executed action. The library returns them; whoever
//! runs the action publishes them.

use vstd::prelude::*;
use crate::wire::Address;

verus! {

/// An amount of one tracked asset was moved.
#[derive(Clone, Copy, Debug, PartialEq, Eq)]
pub struct TransferEvent {
    /// Who submitted the attestation.
    pub signer: Address,
    /// Mint of the asset moved.
    pub token: Address,
    /// Account that received the amount.
    pub destination: Address,
    /// Amount moved.
    pub amount: u64,
}

/// The whole balance of both tracked assets was moved.
#[derive(Clone, Copy, Debug, PartialEq, Eq)]
pub struct TransferAllEvent {
    /// Who submitted the attestation.
    pub signer: Address,
    /// Account that received the first asset.
    pub destination_account_sol: Address,
    /// Account that received the second asset.
    pub destination_account_olas: Address,
    /// Amount of the first asset moved.
    pub amount_sol: u64,
    /// Amount of the second asset moved.
    pub amount_olas: u64,
}

/// Both asset-holding accounts were handed to a new owner.
#[derive(Clone, Copy, Debug, PartialEq, Eq)]
pub struct TransferTokenAccountsEvent {
    /// Who submitted the attestation.
    pub signer: Address,
    /// Account of the first asset.
    pub source_account_sol: Address,
    /// Account of the second asset.
    pub source_account_olas: Address,
    /// The new owner.
    pub destination_account: Address,
}

/// The right to upgrade a program went to another address.
#[derive(Clone, Copy, Debug, PartialEq, Eq)]
pub struct SetUpgradeAuthorityEvent {
    /// Who submitted the attestation.
    pub signer: Address,
    /// The program concerned.
    pub program_account: Address,
    /// The new upgrade authority.
    pub upgrade_authority_account: Address,
}

/// A program's code was replaced from a buffer.
#[derive(Clone, Copy, Debug, PartialEq, Eq)]
pub struct UpgradeProgramEvent {
    /// Who submitted the attestation.
    pub signer: Address,
    /// The program upgraded.
    pub program_account: Address,
    /// The buffer that held the new code.
    pub buffer_account: Address,
    /// The account that took the excess funds.
    pub spill_account: Address,
}

} // verus!
