//! What holds of the entry points whatever they are given, stated over the
//! fault functions that their contracts are written in.

use vstd::prelude::*;
use crate::context::{
    PostedVaa, SetUpgradeAuthorityLockboxGovernor, TransferAllLockboxGovernor, TransferLockboxGovernor,
    TransferTokenAccountsLockboxGovernor, UpgradeProgramLockboxGovernor,
};
use crate::errors::GovernorError;
use crate::message::{
    SetUpgradeAuthorityMessage, TransferAllMessage, TransferMessage, TransferTokenAccountsMessage,
    UpgradeProgramMessage, PAYLOAD_SET_UPGRADE_AUTHORITY, PAYLOAD_TRANSFER, PAYLOAD_TRANSFER_ALL,
    PAYLOAD_TRANSFER_TOKEN_ACCOUNTS, PAYLOAD_UPGRADE_PROGRAM,
};
use crate::processor::{
    admitted, change_upgrade_authority_fault, key_of, record_of, sweep, transfer_all_fault,
    transfer_asset, transfer_fault, transfer_token_accounts_fault, upgrade_program_fault, Action,
};
use crate::replay::Claims;
use crate::state::{Asset, LockboxGovernor, OLAS, SOL};

verus! {

/// An attestation whose replay key is claimed executes nothing, at whichever
/// entry point and with whatever accounts it is presented: every entry point
/// reports a fault. The fault is `AlreadyProcessed` wherever origin, payload,
/// bindings and assets are in order, that is, wherever the same call with the
/// key free would pass or would stop at a balance or a total.
pub proof fn lemma_claimed_key_is_refused(
    config: LockboxGovernor,
    claims: Claims,
    t: TransferLockboxGovernor,
    a: TransferAllLockboxGovernor,
    o: TransferTokenAccountsLockboxGovernor,
    s: SetUpgradeAuthorityLockboxGovernor,
    u: UpgradeProgramLockboxGovernor,
)
    ensures
        claims.contains_key(key_of(t.posted)) ==> {
            let free = transfer_fault(config, claims.remove(key_of(t.posted)), t);
            &&& transfer_fault(config, claims, t) is Some
            &&& free is None || free == Some(GovernorError::Overflow) ==> transfer_fault(
                config,
                claims,
                t,
            ) == Some(GovernorError::AlreadyProcessed)
        },
        claims.contains_key(key_of(a.posted)) ==> {
            let free = transfer_all_fault(config, claims.remove(key_of(a.posted)), a);
            &&& transfer_all_fault(config, claims, a) is Some
            &&& free is None || free == Some(GovernorError::Overflow) ==> transfer_all_fault(
                config,
                claims,
                a,
            ) == Some(GovernorError::AlreadyProcessed)
        },
        claims.contains_key(key_of(o.posted)) ==> {
            &&& transfer_token_accounts_fault(config, claims, o) is Some
            &&& transfer_token_accounts_fault(config, claims.remove(key_of(o.posted)), o) is None
                ==> transfer_token_accounts_fault(config, claims, o) == Some(
                GovernorError::AlreadyProcessed,
            )
        },
        claims.contains_key(key_of(s.posted)) ==> {
            &&& change_upgrade_authority_fault(config, claims, s) is Some
            &&& change_upgrade_authority_fault(config, claims.remove(key_of(s.posted)), s) is None
                ==> change_upgrade_authority_fault(config, claims, s) == Some(
                GovernorError::AlreadyProcessed,
            )
        },
        claims.contains_key(key_of(u.posted)) ==> {
            &&& upgrade_program_fault(config, claims, u) is Some
            &&& upgrade_program_fault(config, claims.remove(key_of(u.posted)), u) is None
                ==> upgrade_program_fault(config, claims, u) == Some(
                GovernorError::AlreadyProcessed,
            )
        },
{
}

/// A transfer that has executed is answered `AlreadyProcessed` when its
/// attestation is submitted again with the same accounts, whatever those
/// accounts hold by then and whatever the totals have grown to.
pub proof fn lemma_resubmission_is_already_processed(
    config: LockboxGovernor,
    claims: Claims,
    ctx: TransferLockboxGovernor,
    vaa_hash: [u8; 32],
    again: TransferLockboxGovernor,
)
    requires
        transfer_fault(config, claims, ctx) is None,
        again.posted == ctx.posted,
        again.source_account.key == ctx.source_account.key,
        again.source_account.mint == ctx.source_account.mint,
        again.destination_account.key == ctx.destination_account.key,
        again.destination_account.mint == ctx.destination_account.mint,
    ensures
        transfer_fault(
            config.credited(
                transfer_asset(ctx)->Some_0,
                TransferMessage::parse(ctx.posted.payload@)->Ok_0.amount,
            ),
            claims.insert(key_of(ctx.posted), record_of(ctx.posted, vaa_hash)),
            again,
        ) == Some(GovernorError::AlreadyProcessed),
{
}

/// A sweep that has executed is answered `AlreadyProcessed` when its
/// attestation is submitted again with the same accounts, whatever those
/// accounts hold by then and whatever the totals have grown to.
pub proof fn lemma_transfer_all_resubmission_is_already_processed(
    config: LockboxGovernor,
    claims: Claims,
    ctx: TransferAllLockboxGovernor,
    vaa_hash: [u8; 32],
    again: TransferAllLockboxGovernor,
)
    requires
        transfer_all_fault(config, claims, ctx) is None,
        again.posted == ctx.posted,
        again.source_account_sol.key == ctx.source_account_sol.key,
        again.source_account_sol.mint == ctx.source_account_sol.mint,
        again.source_account_olas.key == ctx.source_account_olas.key,
        again.source_account_olas.mint == ctx.source_account_olas.mint,
        again.destination_account_sol.key == ctx.destination_account_sol.key,
        again.destination_account_sol.mint == ctx.destination_account_sol.mint,
        again.destination_account_olas.key == ctx.destination_account_olas.key,
        again.destination_account_olas.mint == ctx.destination_account_olas.mint,
    ensures
        transfer_all_fault(
            config.credited(Asset::Sol, ctx.source_account_sol.amount).credited(
                Asset::Olas,
                ctx.source_account_olas.amount,
            ),
            claims.insert(key_of(ctx.posted), record_of(ctx.posted, vaa_hash)),
            again,
        ) == Some(GovernorError::AlreadyProcessed),
{
}

/// A change of owner, a change of upgrade authority or an upgrade that has
/// executed is answered `AlreadyProcessed` when its attestation is submitted
/// again with the same accounts, whatever the asset-holding accounts hold by
/// then.
pub proof fn lemma_authority_resubmission_is_already_processed(
    config: LockboxGovernor,
    claims: Claims,
    vaa_hash: [u8; 32],
    o: TransferTokenAccountsLockboxGovernor,
    o_again: TransferTokenAccountsLockboxGovernor,
    s: SetUpgradeAuthorityLockboxGovernor,
    s_again: SetUpgradeAuthorityLockboxGovernor,
    u: UpgradeProgramLockboxGovernor,
    u_again: UpgradeProgramLockboxGovernor,
)
    ensures
        transfer_token_accounts_fault(config, claims, o) is None && o_again.posted == o.posted
            && o_again.source_account_sol.key == o.source_account_sol.key
            && o_again.source_account_sol.mint == o.source_account_sol.mint
            && o_again.source_account_olas.key == o.source_account_olas.key
            && o_again.source_account_olas.mint == o.source_account_olas.mint
            && o_again.destination_account == o.destination_account
            ==> transfer_token_accounts_fault(
            config,
            claims.insert(key_of(o.posted), record_of(o.posted, vaa_hash)),
            o_again,
        ) == Some(GovernorError::AlreadyProcessed),
        change_upgrade_authority_fault(config, claims, s) is None && s_again.posted == s.posted
            && s_again.program_account == s.program_account && s_again.upgrade_authority_account
            == s.upgrade_authority_account ==> change_upgrade_authority_fault(
            config,
            claims.insert(key_of(s.posted), record_of(s.posted, vaa_hash)),
            s_again,
        ) == Some(GovernorError::AlreadyProcessed),
        upgrade_program_fault(config, claims, u) is None && u_again.posted == u.posted
            && u_again.program_account == u.program_account && u_again.buffer_account
            == u.buffer_account && u_again.spill_account == u.spill_account
            ==> upgrade_program_fault(
            config,
            claims.insert(key_of(u.posted), record_of(u.posted, vaa_hash)),
            u_again,
        ) == Some(GovernorError::AlreadyProcessed),
{
}

/// Once an attestation has executed, at whichever entry point, no attestation
/// with its chain and sequence executes again, at any entry point and with
/// any accounts: with its record stored, every entry point reports a fault.
/// (Which fault the same attestation gets with its own accounts is said by
/// the laws on resubmission above: `AlreadyProcessed`.)
pub proof fn lemma_no_second_execution(
    config: LockboxGovernor,
    claims: Claims,
    executed: PostedVaa,
    vaa_hash: [u8; 32],
    t: TransferLockboxGovernor,
    a: TransferAllLockboxGovernor,
    o: TransferTokenAccountsLockboxGovernor,
    s: SetUpgradeAuthorityLockboxGovernor,
    u: UpgradeProgramLockboxGovernor,
)
    ensures
        ({
            let after = claims.insert(key_of(executed), record_of(executed, vaa_hash));
            &&& key_of(t.posted) == key_of(executed) ==> transfer_fault(config, after, t) is Some
            &&& key_of(a.posted) == key_of(executed) ==> transfer_all_fault(config, after, a)
                is Some
            &&& key_of(o.posted) == key_of(executed) ==> transfer_token_accounts_fault(
                config,
                after,
                o,
            ) is Some
            &&& key_of(s.posted) == key_of(executed) ==> change_upgrade_authority_fault(
                config,
                after,
                s,
            ) is Some
            &&& key_of(u.posted) == key_of(executed) ==> upgrade_program_fault(config, after, u)
                is Some
        }),
{
    let after = claims.insert(key_of(executed), record_of(executed, vaa_hash));
    lemma_claimed_key_is_refused(config, after, t, a, o, s, u);
}

/// An encoded message whose discriminant byte was altered is refused with
/// `InvalidMessage` at the entry point of its own kind, once its origin is
/// accepted.
pub proof fn lemma_altered_discriminant_is_refused(
    config: LockboxGovernor,
    claims: Claims,
    id: u8,
    t: TransferLockboxGovernor,
    tm: TransferMessage,
    a: TransferAllLockboxGovernor,
    am: TransferAllMessage,
    o: TransferTokenAccountsLockboxGovernor,
    om: TransferTokenAccountsMessage,
    s: SetUpgradeAuthorityLockboxGovernor,
    sm: SetUpgradeAuthorityMessage,
    u: UpgradeProgramLockboxGovernor,
    um: UpgradeProgramMessage,
)
    ensures
        admitted(config, t.posted) && id != PAYLOAD_TRANSFER && t.posted.payload@
            == tm.wire().update(0, id) ==> transfer_fault(config, claims, t) == Some(
            GovernorError::InvalidMessage,
        ),
        admitted(config, a.posted) && id != PAYLOAD_TRANSFER_ALL && a.posted.payload@
            == am.wire().update(0, id) ==> transfer_all_fault(config, claims, a) == Some(
            GovernorError::InvalidMessage,
        ),
        admitted(config, o.posted) && id != PAYLOAD_TRANSFER_TOKEN_ACCOUNTS && o.posted.payload@
            == om.wire().update(0, id) ==> transfer_token_accounts_fault(config, claims, o) == Some(
            GovernorError::InvalidMessage,
        ),
        admitted(config, s.posted) && id != PAYLOAD_SET_UPGRADE_AUTHORITY && s.posted.payload@
            == sm.wire().update(0, id) ==> change_upgrade_authority_fault(config, claims, s)
            == Some(GovernorError::InvalidMessage),
        admitted(config, u.posted) && id != PAYLOAD_UPGRADE_PROGRAM && u.posted.payload@
            == um.wire().update(0, id) ==> upgrade_program_fault(config, claims, u) == Some(
            GovernorError::InvalidMessage,
        ),
{
    if id != PAYLOAD_TRANSFER {
        TransferMessage::lemma_altered_discriminant(tm, id);
    }
    if id != PAYLOAD_TRANSFER_ALL {
        TransferAllMessage::lemma_altered_discriminant(am, id);
    }
    if id != PAYLOAD_TRANSFER_TOKEN_ACCOUNTS {
        TransferTokenAccountsMessage::lemma_altered_discriminant(om, id);
    }
    if id != PAYLOAD_SET_UPGRADE_AUTHORITY {
        SetUpgradeAuthorityMessage::lemma_altered_discriminant(sm, id);
    }
    if id != PAYLOAD_UPGRADE_PROGRAM {
        UpgradeProgramMessage::lemma_altered_discriminant(um, id);
    }
}

/// An attestation that is not from the registered authority on the
/// registered chain is refused at every entry point before anything in it is
/// read.
pub proof fn lemma_foreign_origin_is_refused(
    config: LockboxGovernor,
    claims: Claims,
    t: TransferLockboxGovernor,
    a: TransferAllLockboxGovernor,
    o: TransferTokenAccountsLockboxGovernor,
    s: SetUpgradeAuthorityLockboxGovernor,
    u: UpgradeProgramLockboxGovernor,
)
    ensures
        !admitted(config, t.posted) ==> transfer_fault(config, claims, t) == Some(
            GovernorError::InvalidForeignEmitter,
        ),
        !admitted(config, a.posted) ==> transfer_all_fault(config, claims, a) == Some(
            GovernorError::InvalidForeignEmitter,
        ),
        !admitted(config, o.posted) ==> transfer_token_accounts_fault(config, claims, o) == Some(
            GovernorError::InvalidForeignEmitter,
        ),
        !admitted(config, s.posted) ==> change_upgrade_authority_fault(config, claims, s) == Some(
            GovernorError::InvalidForeignEmitter,
        ),
        !admitted(config, u.posted) ==> upgrade_program_fault(config, claims, u) == Some(
            GovernorError::InvalidForeignEmitter,
        ),
{
}

/// A payload that does not decode as the message of the entry point, be it
/// for its discriminant or its length, is refused with `InvalidMessage` once
/// its origin is accepted.
pub proof fn lemma_undecodable_payload_is_refused(
    config: LockboxGovernor,
    claims: Claims,
    t: TransferLockboxGovernor,
    a: TransferAllLockboxGovernor,
    o: TransferTokenAccountsLockboxGovernor,
    s: SetUpgradeAuthorityLockboxGovernor,
    u: UpgradeProgramLockboxGovernor,
)
    ensures
        admitted(config, t.posted) && TransferMessage::parse(t.posted.payload@) is Err
            ==> transfer_fault(config, claims, t) == Some(GovernorError::InvalidMessage),
        admitted(config, a.posted) && TransferAllMessage::parse(a.posted.payload@) is Err
            ==> transfer_all_fault(config, claims, a) == Some(GovernorError::InvalidMessage),
        admitted(config, o.posted) && TransferTokenAccountsMessage::parse(o.posted.payload@) is Err
            ==> transfer_token_accounts_fault(config, claims, o) == Some(
            GovernorError::InvalidMessage,
        ),
        admitted(config, s.posted) && SetUpgradeAuthorityMessage::parse(s.posted.payload@) is Err
            ==> change_upgrade_authority_fault(config, claims, s) == Some(
            GovernorError::InvalidMessage,
        ),
        admitted(config, u.posted) && UpgradeProgramMessage::parse(u.posted.payload@) is Err
            ==> upgrade_program_fault(config, claims, u) == Some(GovernorError::InvalidMessage),
{
}

/// Where the decoded destination of a transfer is not the supplied
/// destination account, the transfer is refused with `WrongAccount`.
pub proof fn lemma_transfer_wrong_destination(
    config: LockboxGovernor,
    claims: Claims,
    ctx: TransferLockboxGovernor,
)
    requires
        admitted(config, ctx.posted),
        TransferMessage::parse(ctx.posted.payload@) is Ok,
        TransferMessage::parse(ctx.posted.payload@)->Ok_0.destination
            != ctx.destination_account.key,
    ensures
        transfer_fault(config, claims, ctx) == Some(GovernorError::WrongAccount),
{
}

/// Where a decoded destination of a sweep is not the supplied destination
/// account of its asset, the sweep is refused with `WrongAccount`.
pub proof fn lemma_transfer_all_wrong_destination(
    config: LockboxGovernor,
    claims: Claims,
    ctx: TransferAllLockboxGovernor,
)
    requires
        admitted(config, ctx.posted),
        TransferAllMessage::parse(ctx.posted.payload@) is Ok,
        TransferAllMessage::parse(ctx.posted.payload@)->Ok_0.destination_sol
            != ctx.destination_account_sol.key || TransferAllMessage::parse(
            ctx.posted.payload@,
        )->Ok_0.destination_olas != ctx.destination_account_olas.key,
    ensures
        transfer_all_fault(config, claims, ctx) == Some(GovernorError::WrongAccount),
{
}

/// Where the decoded new owner is not the supplied destination account, the
/// change of owner is refused with `WrongAccount`.
pub proof fn lemma_transfer_token_accounts_wrong_destination(
    config: LockboxGovernor,
    claims: Claims,
    ctx: TransferTokenAccountsLockboxGovernor,
)
    requires
        admitted(config, ctx.posted),
        TransferTokenAccountsMessage::parse(ctx.posted.payload@) is Ok,
        TransferTokenAccountsMessage::parse(ctx.posted.payload@)->Ok_0.destination
            != ctx.destination_account,
    ensures
        transfer_token_accounts_fault(config, claims, ctx) == Some(GovernorError::WrongAccount),
{
}

/// Where the decoded program or new authority is not the supplied account,
/// the change of upgrade authority is refused with `WrongAccount`.
pub proof fn lemma_change_upgrade_authority_wrong_account(
    config: LockboxGovernor,
    claims: Claims,
    ctx: SetUpgradeAuthorityLockboxGovernor,
)
    requires
        admitted(config, ctx.posted),
        SetUpgradeAuthorityMessage::parse(ctx.posted.payload@) is Ok,
        SetUpgradeAuthorityMessage::parse(ctx.posted.payload@)->Ok_0.program_id_bytes
            != ctx.program_account || SetUpgradeAuthorityMessage::parse(
            ctx.posted.payload@,
        )->Ok_0.upgrade_authority != ctx.upgrade_authority_account,
    ensures
        change_upgrade_authority_fault(config, claims, ctx) == Some(GovernorError::WrongAccount),
{
}

/// Buffer and spill account of an upgrade are bound each to its own supplied
/// account: a mismatch of either, or of the program, is refused with
/// `WrongAccount`.
pub proof fn lemma_upgrade_program_wrong_account(
    config: LockboxGovernor,
    claims: Claims,
    ctx: UpgradeProgramLockboxGovernor,
)
    requires
        admitted(config, ctx.posted),
        UpgradeProgramMessage::parse(ctx.posted.payload@) is Ok,
        ({
            let m = UpgradeProgramMessage::parse(ctx.posted.payload@)->Ok_0;
            m.program_id_bytes != ctx.program_account || m.buffer_account_bytes
                != ctx.buffer_account || m.spill_account_bytes != ctx.spill_account
        }),
    ensures
        upgrade_program_fault(config, claims, ctx) == Some(GovernorError::WrongAccount),
{
}

/// A transfer is of a tracked asset exactly where both of its accounts hold
/// that asset: both the first, or both the second.
pub proof fn lemma_transfer_asset_is_shared(ctx: TransferLockboxGovernor)
    ensures
        transfer_asset(ctx) == Some(Asset::Sol) <==> ctx.source_account.mint == SOL
            && ctx.destination_account.mint == SOL,
        transfer_asset(ctx) == Some(Asset::Olas) <==> ctx.source_account.mint == OLAS
            && ctx.destination_account.mint == OLAS,
{
    Asset::lemma_mints_differ();
}

/// A transfer of more than the source account holds never executes. It is
/// refused with `Overflow` where origin, bindings and asset are in order and
/// the attestation has not executed before.
pub proof fn lemma_transfer_exceeding_balance(
    config: LockboxGovernor,
    claims: Claims,
    ctx: TransferLockboxGovernor,
)
    requires
        TransferMessage::parse(ctx.posted.payload@) is Ok,
        TransferMessage::parse(ctx.posted.payload@)->Ok_0.amount > ctx.source_account.amount,
    ensures
        transfer_fault(config, claims, ctx) is Some,
        ({
            let m = TransferMessage::parse(ctx.posted.payload@)->Ok_0;
            admitted(config, ctx.posted) && m.source == ctx.source_account.key && m.destination
                == ctx.destination_account.key && transfer_asset(ctx) is Some
                && !claims.contains_key(key_of(ctx.posted))
        }) ==> transfer_fault(config, claims, ctx) == Some(GovernorError::Overflow),
{
}

/// What a sweep of one account moves is its whole balance: one transfer of
/// that amount, or no call at all where the balance is zero.
pub proof fn lemma_sweep_moves_whole_balance(
    source: crate::context::TokenAccount,
    destination: crate::context::TokenAccount,
)
    ensures
        source.amount == 0 ==> sweep(source, destination).len() == 0,
        source.amount > 0 ==> sweep(source, destination).len() == 1 && sweep(
            source,
            destination,
        )[0] == (Action::TokenTransfer {
            source: source.key,
            destination: destination.key,
            amount: source.amount,
        }),
{
}

/// Balances play no part in whether a sweep is accepted, but for the room
/// left in the running totals: an empty account is never a fault.
pub proof fn lemma_transfer_all_accepts_empty_accounts(
    config: LockboxGovernor,
    claims: Claims,
    ctx: TransferAllLockboxGovernor,
    empty: TransferAllLockboxGovernor,
)
    requires
        transfer_all_fault(config, claims, ctx) is None,
        empty.posted == ctx.posted,
        empty.source_account_sol.key == ctx.source_account_sol.key,
        empty.source_account_sol.mint == ctx.source_account_sol.mint,
        empty.source_account_olas.key == ctx.source_account_olas.key,
        empty.source_account_olas.mint == ctx.source_account_olas.mint,
        empty.destination_account_sol == ctx.destination_account_sol,
        empty.destination_account_olas == ctx.destination_account_olas,
        empty.source_account_sol.amount == 0 || empty.source_account_sol.amount
            == ctx.source_account_sol.amount,
        empty.source_account_olas.amount == 0 || empty.source_account_olas.amount
            == ctx.source_account_olas.amount,
    ensures
        transfer_all_fault(config, claims, empty) is None,
{
}

/// An accepted transfer adds exactly its amount to the total of its asset; the
/// other total and everything registered stay as they were.
pub proof fn lemma_transfer_counts_amount(
    config: LockboxGovernor,
    claims: Claims,
    ctx: TransferLockboxGovernor,
)
    requires
        transfer_fault(config, claims, ctx) is None,
    ensures
        ({
            let m = TransferMessage::parse(ctx.posted.payload@)->Ok_0;
            let asset = transfer_asset(ctx)->Some_0;
            let after = config.credited(asset, m.amount);
            &&& m.amount <= ctx.source_account.amount
            &&& after.total(asset) == config.total(asset) + m.amount
            &&& forall|other: Asset| other != asset ==> after.total(other) == config.total(other)
            &&& after.chain == config.chain
            &&& after.foreign_emitter == config.foreign_emitter
            &&& after.bump == config.bump
            &&& after.finality == config.finality
        }),
{
}

/// An accepted sweep adds exactly the two source balances to the two totals,
/// also where a balance is zero.
pub proof fn lemma_transfer_all_counts_balances(
    config: LockboxGovernor,
    claims: Claims,
    ctx: TransferAllLockboxGovernor,
)
    requires
        transfer_all_fault(config, claims, ctx) is None,
    ensures
        ({
            let after = config.credited(Asset::Sol, ctx.source_account_sol.amount).credited(
                Asset::Olas,
                ctx.source_account_olas.amount,
            );
            &&& after.total_sol_transferred == config.total_sol_transferred
                + ctx.source_account_sol.amount
            &&& after.total_olas_transferred == config.total_olas_transferred
                + ctx.source_account_olas.amount
            &&& after.chain == config.chain
            &&& after.foreign_emitter == config.foreign_emitter
            &&& after.bump == config.bump
            &&& after.finality == config.finality
        }),
{
}

} // verus!
