//! The entry points: one per kind of governance message.
//!
//! Each checks the attestation and the supplied accounts in a fixed order and
//! stops at the first fault, leaving configuration and replay guard as they
//! were. What the attestation and the accounts' identities decide comes first:
//! origin, payload, bindings, assets. Then the replay slot is tested, and only
//! then what moves with every execution, balances and totals. So an
//! attestation that has executed is answered `AlreadyProcessed` whenever it
//! comes again with its accounts, whatever they hold by then.
//!
//! When nothing is at fault the entry point counts what will move, claims the
//! attestation's replay slot, and returns the privileged calls to make, the
//! record that was stored, and the audit event. Making the calls, under the
//! authority derived from the configuration's seeds, is left to the caller,
//! within the same atomic unit of work.

use vstd::prelude::*;
use crate::context::{
    InitializeLockboxGovernor, PostedVaa, SetUpgradeAuthorityLockboxGovernor,
    TransferAllLockboxGovernor, TransferLockboxGovernor, TransferTokenAccountsLockboxGovernor,
    UpgradeProgramLockboxGovernor,
};
use crate::errors::GovernorError;
use crate::events::{
    SetUpgradeAuthorityEvent, TransferAllEvent, TransferEvent, TransferTokenAccountsEvent,
    UpgradeProgramEvent,
};
use crate::message::{
    SetUpgradeAuthorityMessage, TransferAllMessage, TransferMessage, TransferTokenAccountsMessage,
    UpgradeProgramMessage,
};
use crate::replay::{Claims, ReplayGuard};
use crate::state::{
    Asset, LockboxGovernor, Received, FINALITY_CONFIRMED, LOCKBOX_GOVERNOR_SEED, OLAS, SOL,
};
use crate::wire::{address_eq, address_is_zero, Address};

verus! {

/// A privileged call, to be made with the governor's derived authority as
/// signer.
#[derive(Clone, Copy, Debug, PartialEq, Eq)]
pub enum Action {
    /// Move `amount` from one asset-holding account to another.
    TokenTransfer { source: Address, destination: Address, amount: u64 },
    /// Make `new_owner` the owner of an asset-holding account.
    SetAccountOwner { account: Address, new_owner: Address },
    /// Make `new_authority` the upgrade authority of a program.
    SetUpgradeAuthority { program: Address, new_authority: Address },
    /// Replace a program's code from a buffer, excess funds going to `spill`.
    Upgrade { program: Address, buffer: Address, spill: Address },
}

/// What a successful entry point hands back.
#[derive(Clone, Debug, PartialEq, Eq)]
pub struct Dispatch<E> {
    /// The privileged calls to make, in order.
    pub actions: Vec<Action>,
    /// Bump seed of the authority that signs the calls: the configuration's.
    pub bump: [u8; 1],
    /// The record stored under the attestation's replay key.
    pub record: Received,
    /// The audit event.
    pub event: E,
}

impl<E> Dispatch<E> {
    /// The seeds of the authority that signs the calls: the governor's fixed
    /// prefix, then the bump.
    pub fn signer_seeds(&self) -> (s: [&[u8]; 2])
        ensures
            s@[0]@ == LOCKBOX_GOVERNOR_SEED@,
            s@[1]@ == self.bump@,
    {
        let prefix: &'static [u8; 16] = &LOCKBOX_GOVERNOR_SEED;
        [prefix.as_slice(), self.bump.as_slice()]
    }
}

/// Whether an attestation comes from the registered authority on the
/// registered chain.
pub open spec fn admitted(config: LockboxGovernor, posted: PostedVaa) -> bool {
    posted.emitter_address == config.foreign_emitter && posted.emitter_chain == config.chain
}

/// The record kept of an attestation.
pub open spec fn record_of(posted: PostedVaa, vaa_hash: [u8; 32]) -> Received {
    Received {
        batch_id: posted.batch_id,
        wormhole_message_hash: vaa_hash,
        sequence: posted.sequence,
    }
}

/// The replay key of an attestation.
pub open spec fn key_of(posted: PostedVaa) -> (u16, u64) {
    (posted.emitter_chain, posted.sequence)
}

/// Tests where an attestation comes from, before anything in it is read.
fn check_origin(config: &LockboxGovernor, posted: &PostedVaa) -> (r: Result<(), GovernorError>)
    ensures
        match r {
            Ok(_) => admitted(*config, *posted),
            Err(e) => e == GovernorError::InvalidForeignEmitter && !admitted(*config, *posted),
        },
{
    if !config.verify(&posted.emitter_address) {
        Err(GovernorError::InvalidForeignEmitter)
    } else if posted.emitter_chain != config.chain {
        Err(GovernorError::InvalidForeignEmitter)
    } else {
        Ok(())
    }
}

/// Tests the attestation's replay slot without claiming it.
fn check_unclaimed(received: &ReplayGuard, posted: &PostedVaa) -> (r: Result<(), GovernorError>)
    ensures
        match r {
            Ok(_) => !received@.contains_key(key_of(*posted)),
            Err(e) => e == GovernorError::AlreadyProcessed && received@.contains_key(
                key_of(*posted),
            ),
        },
{
    if received.is_claimed(posted.emitter_chain, posted.sequence) {
        Err(GovernorError::AlreadyProcessed)
    } else {
        Ok(())
    }
}

/// The last step of every entry point: claim the attestation's replay slot.
fn settle(received: &mut ReplayGuard, posted: &PostedVaa, vaa_hash: [u8; 32]) -> (r: Result<
    Received,
    GovernorError,
>)
    ensures
        match r {
            Ok(record) => {
                &&& record == record_of(*posted, vaa_hash)
                &&& !old(received)@.contains_key(key_of(*posted))
                &&& final(received)@ == old(received)@.insert(key_of(*posted), record)
            },
            Err(e) => {
                &&& e == GovernorError::AlreadyProcessed
                &&& old(received)@.contains_key(key_of(*posted))
                &&& final(received)@ == old(received)@
            },
        },
{
    let record = Received {
        batch_id: posted.batch_id,
        wormhole_message_hash: vaa_hash,
        sequence: posted.sequence,
    };
    match received.claim(posted.emitter_chain, posted.sequence, record) {
        Ok(_) => Ok(record),
        Err(e) => Err(e),
    }
}

/// Creates the configuration for a foreign chain and its governance
/// authority. The chain must be neither zero nor the governor's own, and the
/// authority must not be all zero. Both totals start at zero. What is
/// registered here stays: no entry point changes chain, authority or bump.
/// This builds the value; `initialize_once` puts it where it is kept, once.
pub fn initialize(ctx: &InitializeLockboxGovernor, chain: u16, timelock: [u8; 32]) -> (r: Result<
    LockboxGovernor,
    GovernorError,
>)
    ensures
        match r {
            Ok(config) => {
                &&& LockboxGovernor::acceptable(chain, timelock)
                &&& config.wf()
                &&& config.bump@ == seq![ctx.bump]
                &&& config.chain == chain
                &&& config.foreign_emitter == timelock
                &&& config.total_sol_transferred == 0
                &&& config.total_olas_transferred == 0
                &&& config.finality == FINALITY_CONFIRMED
            },
            Err(e) => {
                &&& e == GovernorError::InvalidForeignEmitter
                &&& !LockboxGovernor::acceptable(chain, timelock)
            },
        },
{
    if chain == 0 || chain == crate::state::CHAIN_ID_SOLANA || address_is_zero(&timelock) {
        return Err(GovernorError::InvalidForeignEmitter);
    }
    let mut config = LockboxGovernor::new();
    let _ = config.initialize(ctx.bump, chain, timelock);
    Ok(config)
}

/// Creates the configuration in `slot`, the one place where it is kept, and
/// only if that place is empty: a configuration is registered once. A
/// registration on top of an existing one is refused as an invalid
/// registration, with `InvalidForeignEmitter`, whatever it brings, and the
/// existing configuration stays as it is, totals included.
pub fn initialize_once(
    slot: &mut Option<LockboxGovernor>,
    ctx: &InitializeLockboxGovernor,
    chain: u16,
    timelock: [u8; 32],
) -> (r: Result<(), GovernorError>)
    ensures
        *old(slot) is Some ==> r == Err::<(), GovernorError>(GovernorError::InvalidForeignEmitter)
            && *final(slot) == *old(slot),
        *old(slot) is None ==> match r {
            Ok(_) => {
                &&& LockboxGovernor::acceptable(chain, timelock)
                &&& *final(slot) is Some
                &&& (*final(slot))->Some_0.wf()
                &&& (*final(slot))->Some_0.bump@ == seq![ctx.bump]
                &&& (*final(slot))->Some_0.chain == chain
                &&& (*final(slot))->Some_0.foreign_emitter == timelock
                &&& (*final(slot))->Some_0.total_sol_transferred == 0
                &&& (*final(slot))->Some_0.total_olas_transferred == 0
                &&& (*final(slot))->Some_0.finality == FINALITY_CONFIRMED
            },
            Err(e) => {
                &&& e == GovernorError::InvalidForeignEmitter
                &&& !LockboxGovernor::acceptable(chain, timelock)
                &&& *final(slot) is None
            },
        },
{
    if slot.is_some() {
        return Err(GovernorError::InvalidForeignEmitter);
    }
    match initialize(ctx, chain, timelock) {
        Ok(config) => {
            *slot = Some(config);
            Ok(())
        },
        Err(e) => Err(e),
    }
}

/// The tracked asset that both accounts of a transfer hold, if they hold the
/// same tracked asset.
pub open spec fn transfer_asset(ctx: TransferLockboxGovernor) -> Option<Asset> {
    match Asset::of_mint(ctx.source_account.mint) {
        Some(asset) => if ctx.destination_account.mint == asset.mint() {
            Some(asset)
        } else {
            None
        },
        None => None,
    }
}

/// The first fault that stops a transfer, if any. The checks, in order: the
/// attestation's origin, its payload, the account bindings, the asset, the
/// replay slot, the source balance, the running total.
pub open spec fn transfer_fault(
    config: LockboxGovernor,
    claims: Claims,
    ctx: TransferLockboxGovernor,
) -> Option<GovernorError> {
    if !admitted(config, ctx.posted) {
        Some(GovernorError::InvalidForeignEmitter)
    } else {
        match TransferMessage::parse(ctx.posted.payload@) {
            Err(_) => Some(GovernorError::InvalidMessage),
            Ok(m) => if m.source != ctx.source_account.key || m.destination
                != ctx.destination_account.key {
                Some(GovernorError::WrongAccount)
            } else {
                match transfer_asset(ctx) {
                    None => Some(GovernorError::WrongTokenMint),
                    Some(asset) => if claims.contains_key(key_of(ctx.posted)) {
                        Some(GovernorError::AlreadyProcessed)
                    } else if m.amount > ctx.source_account.amount {
                        Some(GovernorError::Overflow)
                    } else if config.total(asset) + m.amount > u64::MAX {
                        Some(GovernorError::Overflow)
                    } else {
                        None
                    },
                }
            },
        }
    }
}

/// Executes a `Transfer` attestation: one move of one tracked asset from the
/// source account to the destination account.
pub fn transfer(
    config: &mut LockboxGovernor,
    received: &mut ReplayGuard,
    ctx: &TransferLockboxGovernor,
    vaa_hash: [u8; 32],
) -> (r: Result<Dispatch<TransferEvent>, GovernorError>)
    ensures
        match r {
            Ok(done) => {
                let m = TransferMessage::parse(ctx.posted.payload@)->Ok_0;
                let asset = transfer_asset(*ctx)->Some_0;
                &&& transfer_fault(*old(config), old(received)@, *ctx) is None
                &&& *final(config) == old(config).credited(asset, m.amount)
                &&& final(received)@ == old(received)@.insert(
                    key_of(ctx.posted),
                    record_of(ctx.posted, vaa_hash),
                )
                &&& done.actions@ == seq![
                    Action::TokenTransfer {
                        source: ctx.source_account.key,
                        destination: ctx.destination_account.key,
                        amount: m.amount,
                    },
                ]
                &&& done.bump == old(config).bump
                &&& done.record == record_of(ctx.posted, vaa_hash)
                &&& done.event == (TransferEvent {
                    signer: ctx.signer,
                    token: asset.mint(),
                    destination: ctx.destination_account.key,
                    amount: m.amount,
                })
            },
            Err(e) => {
                &&& transfer_fault(*old(config), old(received)@, *ctx) == Some(e)
                &&& *final(config) == *old(config)
                &&& final(received)@ == old(received)@
            },
        },
{
    match check_origin(config, &ctx.posted) {
        Err(e) => {
            return Err(e);
        },
        Ok(_) => {},
    }
    let message = match TransferMessage::deserialize_reader(ctx.posted.payload.as_slice()) {
        Ok(m) => m,
        Err(e) => {
            return Err(GovernorError::from_decode(e));
        },
    };
    if !address_eq(&message.source, &ctx.source_account.key) {
        return Err(GovernorError::WrongAccount);
    }
    if !address_eq(&message.destination, &ctx.destination_account.key) {
        return Err(GovernorError::WrongAccount);
    }
    let asset = match Asset::from_mint(&ctx.source_account.mint) {
        Some(asset) => asset,
        None => {
            return Err(GovernorError::WrongTokenMint);
        },
    };
    if !address_eq(&ctx.destination_account.mint, &ctx.source_account.mint) {
        return Err(GovernorError::WrongTokenMint);
    }
    match check_unclaimed(received, &ctx.posted) {
        Err(e) => {
            return Err(e);
        },
        Ok(_) => {},
    }
    if message.amount > ctx.source_account.amount {
        return Err(GovernorError::Overflow);
    }
    if config.total_of(asset).checked_add(message.amount).is_none() {
        return Err(GovernorError::Overflow);
    }
    let record = match settle(received, &ctx.posted, vaa_hash) {
        Ok(record) => record,
        Err(e) => {
            return Err(e);
        },
    };
    config.credit(asset, message.amount);
    let mut actions: Vec<Action> = Vec::new();
    actions.push(
        Action::TokenTransfer {
            source: ctx.source_account.key,
            destination: ctx.destination_account.key,
            amount: message.amount,
        },
    );
    Ok(
        Dispatch {
            actions,
            bump: config.bump,
            record,
            event: TransferEvent {
                signer: ctx.signer,
                token: ctx.source_account.mint,
                destination: ctx.destination_account.key,
                amount: message.amount,
            },
        },
    )
}

/// The call that empties one account into another: a transfer of the whole
/// balance, or nothing where the balance is zero.
pub open spec fn sweep(
    source: crate::context::TokenAccount,
    destination: crate::context::TokenAccount,
) -> Seq<Action> {
    if source.amount > 0 {
        seq![
            Action::TokenTransfer {
                source: source.key,
                destination: destination.key,
                amount: source.amount,
            },
        ]
    } else {
        Seq::<Action>::empty()
    }
}

/// The first fault that stops a sweep of both tracked assets, if any. The
/// checks, in order: the attestation's origin, its payload, the account
/// bindings, the assets, the replay slot, the running totals.
pub open spec fn transfer_all_fault(
    config: LockboxGovernor,
    claims: Claims,
    ctx: TransferAllLockboxGovernor,
) -> Option<GovernorError> {
    if !admitted(config, ctx.posted) {
        Some(GovernorError::InvalidForeignEmitter)
    } else {
        match TransferAllMessage::parse(ctx.posted.payload@) {
            Err(_) => Some(GovernorError::InvalidMessage),
            Ok(m) => if m.source_sol != ctx.source_account_sol.key || m.source_olas
                != ctx.source_account_olas.key || m.destination_sol
                != ctx.destination_account_sol.key || m.destination_olas
                != ctx.destination_account_olas.key {
                Some(GovernorError::WrongAccount)
            } else if ctx.source_account_sol.mint != SOL || ctx.destination_account_sol.mint
                != SOL || ctx.source_account_olas.mint != OLAS
                || ctx.destination_account_olas.mint != OLAS {
                Some(GovernorError::WrongTokenMint)
            } else if claims.contains_key(key_of(ctx.posted)) {
                Some(GovernorError::AlreadyProcessed)
            } else if config.total_sol_transferred + ctx.source_account_sol.amount > u64::MAX
                || config.total_olas_transferred + ctx.source_account_olas.amount > u64::MAX {
                Some(GovernorError::Overflow)
            } else {
                None
            },
        }
    }
}

/// Executes a `TransferAll` attestation: the whole balance of both tracked
/// assets goes from the source accounts to the destination accounts. The
/// amounts are the balances at this moment; the message names accounts only.
/// An empty account is no fault: nothing is moved from it.
pub fn transfer_all(
    config: &mut LockboxGovernor,
    received: &mut ReplayGuard,
    ctx: &TransferAllLockboxGovernor,
    vaa_hash: [u8; 32],
) -> (r: Result<Dispatch<TransferAllEvent>, GovernorError>)
    ensures
        match r {
            Ok(done) => {
                &&& transfer_all_fault(*old(config), old(received)@, *ctx) is None
                &&& *final(config) == old(config).credited(
                    Asset::Sol,
                    ctx.source_account_sol.amount,
                ).credited(Asset::Olas, ctx.source_account_olas.amount)
                &&& final(received)@ == old(received)@.insert(
                    key_of(ctx.posted),
                    record_of(ctx.posted, vaa_hash),
                )
                &&& done.actions@ == sweep(ctx.source_account_sol, ctx.destination_account_sol)
                    + sweep(ctx.source_account_olas, ctx.destination_account_olas)
                &&& done.bump == old(config).bump
                &&& done.record == record_of(ctx.posted, vaa_hash)
                &&& done.event == (TransferAllEvent {
                    signer: ctx.signer,
                    destination_account_sol: ctx.destination_account_sol.key,
                    destination_account_olas: ctx.destination_account_olas.key,
                    amount_sol: ctx.source_account_sol.amount,
                    amount_olas: ctx.source_account_olas.amount,
                })
            },
            Err(e) => {
                &&& transfer_all_fault(*old(config), old(received)@, *ctx) == Some(e)
                &&& *final(config) == *old(config)
                &&& final(received)@ == old(received)@
            },
        },
{
    match check_origin(config, &ctx.posted) {
        Err(e) => {
            return Err(e);
        },
        Ok(_) => {},
    }
    let message = match TransferAllMessage::deserialize_reader(ctx.posted.payload.as_slice()) {
        Ok(m) => m,
        Err(e) => {
            return Err(GovernorError::from_decode(e));
        },
    };
    if !address_eq(&message.source_sol, &ctx.source_account_sol.key) {
        return Err(GovernorError::WrongAccount);
    }
    if !address_eq(&message.source_olas, &ctx.source_account_olas.key) {
        return Err(GovernorError::WrongAccount);
    }
    if !address_eq(&message.destination_sol, &ctx.destination_account_sol.key) {
        return Err(GovernorError::WrongAccount);
    }
    if !address_eq(&message.destination_olas, &ctx.destination_account_olas.key) {
        return Err(GovernorError::WrongAccount);
    }
    if !address_eq(&ctx.source_account_sol.mint, &SOL) || !address_eq(
        &ctx.destination_account_sol.mint,
        &SOL,
    ) {
        return Err(GovernorError::WrongTokenMint);
    }
    if !address_eq(&ctx.source_account_olas.mint, &OLAS) || !address_eq(
        &ctx.destination_account_olas.mint,
        &OLAS,
    ) {
        return Err(GovernorError::WrongTokenMint);
    }
    match check_unclaimed(received, &ctx.posted) {
        Err(e) => {
            return Err(e);
        },
        Ok(_) => {},
    }
    let amount_sol: u64 = ctx.source_account_sol.amount;
    let amount_olas: u64 = ctx.source_account_olas.amount;
    if config.total_sol_transferred.checked_add(amount_sol).is_none() {
        return Err(GovernorError::Overflow);
    }
    if config.total_olas_transferred.checked_add(amount_olas).is_none() {
        return Err(GovernorError::Overflow);
    }
    let record = match settle(received, &ctx.posted, vaa_hash) {
        Ok(record) => record,
        Err(e) => {
            return Err(e);
        },
    };
    config.credit(Asset::Sol, amount_sol);
    config.credit(Asset::Olas, amount_olas);
    let mut actions: Vec<Action> = Vec::new();
    if amount_sol > 0 {
        actions.push(
            Action::TokenTransfer {
                source: ctx.source_account_sol.key,
                destination: ctx.destination_account_sol.key,
                amount: amount_sol,
            },
        );
    }
    if amount_olas > 0 {
        actions.push(
            Action::TokenTransfer {
                source: ctx.source_account_olas.key,
                destination: ctx.destination_account_olas.key,
                amount: amount_olas,
            },
        );
    }
    assert(actions@ =~= sweep(ctx.source_account_sol, ctx.destination_account_sol) + sweep(
        ctx.source_account_olas,
        ctx.destination_account_olas,
    ));
    Ok(
        Dispatch {
            actions,
            bump: config.bump,
            record,
            event: TransferAllEvent {
                signer: ctx.signer,
                destination_account_sol: ctx.destination_account_sol.key,
                destination_account_olas: ctx.destination_account_olas.key,
                amount_sol,
                amount_olas,
            },
        },
    )
}

/// The first fault that stops a change of owner of the two asset-holding
/// accounts, if any. The checks, in order: the attestation's origin, its
/// payload, the account bindings, the assets, the replay slot.
pub open spec fn transfer_token_accounts_fault(
    config: LockboxGovernor,
    claims: Claims,
    ctx: TransferTokenAccountsLockboxGovernor,
) -> Option<GovernorError> {
    if !admitted(config, ctx.posted) {
        Some(GovernorError::InvalidForeignEmitter)
    } else {
        match TransferTokenAccountsMessage::parse(ctx.posted.payload@) {
            Err(_) => Some(GovernorError::InvalidMessage),
            Ok(m) => if m.source_sol != ctx.source_account_sol.key || m.source_olas
                != ctx.source_account_olas.key || m.destination != ctx.destination_account {
                Some(GovernorError::WrongAccount)
            } else if ctx.source_account_sol.mint != SOL || ctx.source_account_olas.mint != OLAS {
                Some(GovernorError::WrongTokenMint)
            } else if claims.contains_key(key_of(ctx.posted)) {
                Some(GovernorError::AlreadyProcessed)
            } else {
                None
            },
        }
    }
}

/// Executes a `TransferTokenAccounts` attestation: the two asset-holding
/// accounts get a new owner. No balance moves and no total changes.
pub fn transfer_token_accounts(
    config: &mut LockboxGovernor,
    received: &mut ReplayGuard,
    ctx: &TransferTokenAccountsLockboxGovernor,
    vaa_hash: [u8; 32],
) -> (r: Result<Dispatch<TransferTokenAccountsEvent>, GovernorError>)
    ensures
        *final(config) == *old(config),
        match r {
            Ok(done) => {
                &&& transfer_token_accounts_fault(*old(config), old(received)@, *ctx) is None
                &&& final(received)@ == old(received)@.insert(
                    key_of(ctx.posted),
                    record_of(ctx.posted, vaa_hash),
                )
                &&& done.actions@ == seq![
                    Action::SetAccountOwner {
                        account: ctx.source_account_sol.key,
                        new_owner: ctx.destination_account,
                    },
                    Action::SetAccountOwner {
                        account: ctx.source_account_olas.key,
                        new_owner: ctx.destination_account,
                    },
                ]
                &&& done.bump == old(config).bump
                &&& done.record == record_of(ctx.posted, vaa_hash)
                &&& done.event == (TransferTokenAccountsEvent {
                    signer: ctx.signer,
                    source_account_sol: ctx.source_account_sol.key,
                    source_account_olas: ctx.source_account_olas.key,
                    destination_account: ctx.destination_account,
                })
            },
            Err(e) => {
                &&& transfer_token_accounts_fault(*old(config), old(received)@, *ctx) == Some(e)
                &&& final(received)@ == old(received)@
            },
        },
{
    match check_origin(config, &ctx.posted) {
        Err(e) => {
            return Err(e);
        },
        Ok(_) => {},
    }
    let message = match TransferTokenAccountsMessage::deserialize_reader(
        ctx.posted.payload.as_slice(),
    ) {
        Ok(m) => m,
        Err(e) => {
            return Err(GovernorError::from_decode(e));
        },
    };
    if !address_eq(&message.source_sol, &ctx.source_account_sol.key) {
        return Err(GovernorError::WrongAccount);
    }
    if !address_eq(&message.source_olas, &ctx.source_account_olas.key) {
        return Err(GovernorError::WrongAccount);
    }
    if !address_eq(&message.destination, &ctx.destination_account) {
        return Err(GovernorError::WrongAccount);
    }
    if !address_eq(&ctx.source_account_sol.mint, &SOL) {
        return Err(GovernorError::WrongTokenMint);
    }
    if !address_eq(&ctx.source_account_olas.mint, &OLAS) {
        return Err(GovernorError::WrongTokenMint);
    }
    let record = match settle(received, &ctx.posted, vaa_hash) {
        Ok(record) => record,
        Err(e) => {
            return Err(e);
        },
    };
    let mut actions: Vec<Action> = Vec::new();
    actions.push(
        Action::SetAccountOwner {
            account: ctx.source_account_sol.key,
            new_owner: ctx.destination_account,
        },
    );
    actions.push(
        Action::SetAccountOwner {
            account: ctx.source_account_olas.key,
            new_owner: ctx.destination_account,
        },
    );
    Ok(
        Dispatch {
            actions,
            bump: config.bump,
            record,
            event: TransferTokenAccountsEvent {
                signer: ctx.signer,
                source_account_sol: ctx.source_account_sol.key,
                source_account_olas: ctx.source_account_olas.key,
                destination_account: ctx.destination_account,
            },
        },
    )
}

/// The first fault that stops a change of upgrade authority, if any. The
/// checks, in order: the attestation's origin, its payload, the account
/// bindings, the replay slot.
pub open spec fn change_upgrade_authority_fault(
    config: LockboxGovernor,
    claims: Claims,
    ctx: SetUpgradeAuthorityLockboxGovernor,
) -> Option<GovernorError> {
    if !admitted(config, ctx.posted) {
        Some(GovernorError::InvalidForeignEmitter)
    } else {
        match SetUpgradeAuthorityMessage::parse(ctx.posted.payload@) {
            Err(_) => Some(GovernorError::InvalidMessage),
            Ok(m) => if m.program_id_bytes != ctx.program_account || m.upgrade_authority
                != ctx.upgrade_authority_account {
                Some(GovernorError::WrongAccount)
            } else if claims.contains_key(key_of(ctx.posted)) {
                Some(GovernorError::AlreadyProcessed)
            } else {
                None
            },
        }
    }
}

/// Executes a `SetUpgradeAuthority` attestation: the named program gets the
/// named upgrade authority.
pub fn change_upgrade_authority(
    config: &mut LockboxGovernor,
    received: &mut ReplayGuard,
    ctx: &SetUpgradeAuthorityLockboxGovernor,
    vaa_hash: [u8; 32],
) -> (r: Result<Dispatch<SetUpgradeAuthorityEvent>, GovernorError>)
    ensures
        *final(config) == *old(config),
        match r {
            Ok(done) => {
                &&& change_upgrade_authority_fault(*old(config), old(received)@, *ctx) is None
                &&& final(received)@ == old(received)@.insert(
                    key_of(ctx.posted),
                    record_of(ctx.posted, vaa_hash),
                )
                &&& done.actions@ == seq![
                    Action::SetUpgradeAuthority {
                        program: ctx.program_account,
                        new_authority: ctx.upgrade_authority_account,
                    },
                ]
                &&& done.bump == old(config).bump
                &&& done.record == record_of(ctx.posted, vaa_hash)
                &&& done.event == (SetUpgradeAuthorityEvent {
                    signer: ctx.signer,
                    program_account: ctx.program_account,
                    upgrade_authority_account: ctx.upgrade_authority_account,
                })
            },
            Err(e) => {
                &&& change_upgrade_authority_fault(*old(config), old(received)@, *ctx) == Some(e)
                &&& final(received)@ == old(received)@
            },
        },
{
    match check_origin(config, &ctx.posted) {
        Err(e) => {
            return Err(e);
        },
        Ok(_) => {},
    }
    let message = match SetUpgradeAuthorityMessage::deserialize_reader(
        ctx.posted.payload.as_slice(),
    ) {
        Ok(m) => m,
        Err(e) => {
            return Err(GovernorError::from_decode(e));
        },
    };
    if !address_eq(&message.program_id_bytes, &ctx.program_account) {
        return Err(GovernorError::WrongAccount);
    }
    if !address_eq(&message.upgrade_authority, &ctx.upgrade_authority_account) {
        return Err(GovernorError::WrongAccount);
    }
    let record = match settle(received, &ctx.posted, vaa_hash) {
        Ok(record) => record,
        Err(e) => {
            return Err(e);
        },
    };
    let mut actions: Vec<Action> = Vec::new();
    actions.push(
        Action::SetUpgradeAuthority {
            program: ctx.program_account,
            new_authority: ctx.upgrade_authority_account,
        },
    );
    Ok(
        Dispatch {
            actions,
            bump: config.bump,
            record,
            event: SetUpgradeAuthorityEvent {
                signer: ctx.signer,
                program_account: ctx.program_account,
                upgrade_authority_account: ctx.upgrade_authority_account,
            },
        },
    )
}

/// The first fault that stops an upgrade, if any. The checks, in order: the
/// attestation's origin, its payload, the bindings of program, buffer and
/// spill account, each to its own supplied account, and the replay slot.
pub open spec fn upgrade_program_fault(
    config: LockboxGovernor,
    claims: Claims,
    ctx: UpgradeProgramLockboxGovernor,
) -> Option<GovernorError> {
    if !admitted(config, ctx.posted) {
        Some(GovernorError::InvalidForeignEmitter)
    } else {
        match UpgradeProgramMessage::parse(ctx.posted.payload@) {
            Err(_) => Some(GovernorError::InvalidMessage),
            Ok(m) => if m.program_id_bytes != ctx.program_account || m.buffer_account_bytes
                != ctx.buffer_account || m.spill_account_bytes != ctx.spill_account {
                Some(GovernorError::WrongAccount)
            } else if claims.contains_key(key_of(ctx.posted)) {
                Some(GovernorError::AlreadyProcessed)
            } else {
                None
            },
        }
    }
}

/// Executes an `UpgradeProgram` attestation: the named program's code is
/// replaced from the named buffer, excess funds going to the spill account.
pub fn upgrade_program(
    config: &mut LockboxGovernor,
    received: &mut ReplayGuard,
    ctx: &UpgradeProgramLockboxGovernor,
    vaa_hash: [u8; 32],
) -> (r: Result<Dispatch<UpgradeProgramEvent>, GovernorError>)
    ensures
        *final(config) == *old(config),
        match r {
            Ok(done) => {
                &&& upgrade_program_fault(*old(config), old(received)@, *ctx) is None
                &&& final(received)@ == old(received)@.insert(
                    key_of(ctx.posted),
                    record_of(ctx.posted, vaa_hash),
                )
                &&& done.actions@ == seq![
                    Action::Upgrade {
                        program: ctx.program_account,
                        buffer: ctx.buffer_account,
                        spill: ctx.spill_account,
                    },
                ]
                &&& done.bump == old(config).bump
                &&& done.record == record_of(ctx.posted, vaa_hash)
                &&& done.event == (UpgradeProgramEvent {
                    signer: ctx.signer,
                    program_account: ctx.program_account,
                    buffer_account: ctx.buffer_account,
                    spill_account: ctx.spill_account,
                })
            },
            Err(e) => {
                &&& upgrade_program_fault(*old(config), old(received)@, *ctx) == Some(e)
                &&& final(received)@ == old(received)@
            },
        },
{
    match check_origin(config, &ctx.posted) {
        Err(e) => {
            return Err(e);
        },
        Ok(_) => {},
    }
    let message = match UpgradeProgramMessage::deserialize_reader(ctx.posted.payload.as_slice()) {
        Ok(m) => m,
        Err(e) => {
            return Err(GovernorError::from_decode(e));
        },
    };
    if !address_eq(&message.program_id_bytes, &ctx.program_account) {
        return Err(GovernorError::WrongAccount);
    }
    if !address_eq(&message.buffer_account_bytes, &ctx.buffer_account) {
        return Err(GovernorError::WrongAccount);
    }
    if !address_eq(&message.spill_account_bytes, &ctx.spill_account) {
        return Err(GovernorError::WrongAccount);
    }
    let record = match settle(received, &ctx.posted, vaa_hash) {
        Ok(record) => record,
        Err(e) => {
            return Err(e);
        },
    };
    let mut actions: Vec<Action> = Vec::new();
    actions.push(
        Action::Upgrade {
            program: ctx.program_account,
            buffer: ctx.buffer_account,
            spill: ctx.spill_account,
        },
    );
    Ok(
        Dispatch {
            actions,
            bump: config.bump,
            record,
            event: UpgradeProgramEvent {
                signer: ctx.signer,
                program_account: ctx.program_account,
                buffer_account: ctx.buffer_account,
                spill_account: ctx.spill_account,
            },
        },
    )
}

} // verus!
