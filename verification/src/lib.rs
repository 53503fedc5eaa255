//! Cross-chain governance executor for a treasury and an upgradeable program.
//!
//! A relayer hands in an attestation that a bridge has already authenticated.
//! The library checks that it comes from the registered foreign authority,
//! decodes its payload, binds the addresses inside the payload to the accounts
//! that the caller supplied, claims the attestation's replay slot, and returns
//! the privileged calls to be made under the governor's derived authority.

pub mod errors;
pub mod wire;
pub mod message;
pub mod state;
pub mod replay;
pub mod events;
pub mod context;
pub mod processor;
pub mod laws;

pub use context::{
    InitializeLockboxGovernor, PostedVaa, SetUpgradeAuthorityLockboxGovernor, TokenAccount,
    TransferAllLockboxGovernor, TransferLockboxGovernor, TransferTokenAccountsLockboxGovernor,
    UpgradeProgramLockboxGovernor,
};
pub use errors::{DecodeError, GovernorError};
pub use events::{
    SetUpgradeAuthorityEvent, TransferAllEvent, TransferEvent, TransferTokenAccountsEvent,
    UpgradeProgramEvent,
};
pub use message::{
    GovernorMessage, PayloadKind, SetUpgradeAuthorityMessage, TransferAllMessage, TransferMessage,
    TransferTokenAccountsMessage, UpgradeProgramMessage,
};
pub use processor::{
    change_upgrade_authority, initialize, initialize_once, transfer, transfer_all,
    transfer_token_accounts, upgrade_program, Action, Dispatch,
};
pub use replay::ReplayGuard;
pub use state::{Asset, FeeCollector, LockboxGovernor, Received};
pub use wire::Address;
