use lockbox_governor::state::{FINALITY_CONFIRMED, OLAS, SOL};
use lockbox_governor::{
    change_upgrade_authority, transfer, transfer_all, transfer_token_accounts, upgrade_program,
    Action, GovernorError, LockboxGovernor, PostedVaa, Received, ReplayGuard,
    SetUpgradeAuthorityEvent, SetUpgradeAuthorityLockboxGovernor, SetUpgradeAuthorityMessage,
    TokenAccount, TransferAllEvent, TransferAllLockboxGovernor, TransferAllMessage, TransferEvent,
    TransferLockboxGovernor, TransferMessage, TransferTokenAccountsEvent,
    TransferTokenAccountsLockboxGovernor, TransferTokenAccountsMessage, UpgradeProgramEvent,
    UpgradeProgramLockboxGovernor, UpgradeProgramMessage,
};

const CHAIN: u16 = 5;
const HASH: [u8; 32] = [0xAB; 32];

fn addr(first: u8) -> [u8; 32] {
    let mut a = [first; 32];
    a[31] = first.wrapping_add(1);
    a
}

fn emitter() -> [u8; 32] {
    addr(0xE0)
}

fn signer() -> [u8; 32] {
    addr(0x51)
}

fn config() -> LockboxGovernor {
    LockboxGovernor {
        bump: [255],
        chain: CHAIN,
        foreign_emitter: emitter(),
        total_sol_transferred: 0,
        total_olas_transferred: 0,
        finality: FINALITY_CONFIRMED,
    }
}

fn posted(sequence: u64, payload: Vec<u8>) -> PostedVaa {
    PostedVaa {
        emitter_chain: CHAIN,
        emitter_address: emitter(),
        sequence,
        batch_id: 77,
        payload,
    }
}

fn account(key: u8, mint: [u8; 32], amount: u64) -> TokenAccount {
    TokenAccount { key: addr(key), mint, amount }
}

fn transfer_payload(source: u8, destination: u8, amount: u64) -> Vec<u8> {
    let mut out = Vec::new();
    TransferMessage { source: addr(source), destination: addr(destination), amount }
        .serialize(&mut out);
    out
}

fn transfer_ctx(amount: u64, balance: u64, mint: [u8; 32]) -> TransferLockboxGovernor {
    TransferLockboxGovernor {
        signer: signer(),
        posted: posted(9, transfer_payload(1, 2, amount)),
        source_account: account(1, mint, balance),
        destination_account: account(2, mint, 0),
    }
}

fn record(sequence: u64) -> Received {
    Received { batch_id: 77, wormhole_message_hash: HASH, sequence }
}

#[test]
fn transfer_counts_and_returns_one_call() {
    let mut cfg = config();
    let mut guard = ReplayGuard::new();
    let ctx = transfer_ctx(1000, 1500, SOL);
    let done = transfer(&mut cfg, &mut guard, &ctx, HASH).unwrap();
    assert_eq!(
        done.actions,
        vec![Action::TokenTransfer { source: addr(1), destination: addr(2), amount: 1000 }]
    );
    assert_eq!(done.record, record(9));
    assert_eq!(done.bump, [255]);
    assert_eq!(done.signer_seeds()[0], b"lockbox_governor");
    assert_eq!(done.signer_seeds()[1], &[255u8]);
    assert_eq!(
        done.event,
        TransferEvent { signer: signer(), token: SOL, destination: addr(2), amount: 1000 }
    );
    assert_eq!(cfg.total_sol_transferred, 1000);
    assert_eq!(cfg.total_olas_transferred, 0);
    assert_eq!(cfg.chain, CHAIN);
    assert_eq!(cfg.foreign_emitter, emitter());
    assert_eq!(guard.record(CHAIN, 9), Some(record(9)));
}

#[test]
fn transfer_of_the_second_asset_counts_on_its_own_total() {
    let mut cfg = config();
    cfg.total_olas_transferred = 5;
    let mut guard = ReplayGuard::new();
    let ctx = transfer_ctx(20, 20, OLAS);
    let done = transfer(&mut cfg, &mut guard, &ctx, HASH).unwrap();
    assert_eq!(done.event.token, OLAS);
    assert_eq!(cfg.total_olas_transferred, 25);
    assert_eq!(cfg.total_sol_transferred, 0);
}

#[test]
fn transfer_of_exactly_the_balance_and_of_nothing_pass() {
    let mut cfg = config();
    let mut guard = ReplayGuard::new();
    assert!(transfer(&mut cfg, &mut guard, &transfer_ctx(1500, 1500, SOL), HASH).is_ok());
    let mut zero = transfer_ctx(0, 0, SOL);
    zero.posted.sequence = 10;
    let done = transfer(&mut cfg, &mut guard, &zero, HASH).unwrap();
    assert_eq!(
        done.actions,
        vec![Action::TokenTransfer { source: addr(1), destination: addr(2), amount: 0 }]
    );
    assert_eq!(cfg.total_sol_transferred, 1500);
}

#[test]
fn transfer_from_another_emitter_is_refused() {
    let mut cfg = config();
    let mut guard = ReplayGuard::new();
    let mut ctx = transfer_ctx(1000, 1500, SOL);
    ctx.posted.emitter_address = addr(0xE1);
    assert_eq!(
        transfer(&mut cfg, &mut guard, &ctx, HASH),
        Err(GovernorError::InvalidForeignEmitter)
    );
    assert_eq!(cfg, config());
    assert!(!guard.is_claimed(CHAIN, 9));
}

#[test]
fn transfer_from_another_chain_is_refused() {
    let mut cfg = config();
    let mut guard = ReplayGuard::new();
    let mut ctx = transfer_ctx(1000, 1500, SOL);
    ctx.posted.emitter_chain = 6;
    assert_eq!(
        transfer(&mut cfg, &mut guard, &ctx, HASH),
        Err(GovernorError::InvalidForeignEmitter)
    );
    assert_eq!(cfg, config());
    assert!(!guard.is_claimed(6, 9));
}

#[test]
fn transfer_with_an_undecodable_payload_is_refused() {
    let mut cfg = config();
    let mut guard = ReplayGuard::new();
    let mut altered = transfer_ctx(1000, 1500, SOL);
    altered.posted.payload[0] = 1;
    assert_eq!(transfer(&mut cfg, &mut guard, &altered, HASH), Err(GovernorError::InvalidMessage));
    let mut short = transfer_ctx(1000, 1500, SOL);
    short.posted.payload.pop();
    assert_eq!(transfer(&mut cfg, &mut guard, &short, HASH), Err(GovernorError::InvalidMessage));
    let mut long = transfer_ctx(1000, 1500, SOL);
    long.posted.payload.push(0);
    assert_eq!(transfer(&mut cfg, &mut guard, &long, HASH), Err(GovernorError::InvalidMessage));
    let mut empty = transfer_ctx(1000, 1500, SOL);
    empty.posted.payload.clear();
    assert_eq!(transfer(&mut cfg, &mut guard, &empty, HASH), Err(GovernorError::InvalidMessage));
    assert_eq!(cfg, config());
    assert!(!guard.is_claimed(CHAIN, 9));
}

#[test]
fn transfer_to_another_destination_is_a_wrong_account() {
    let mut cfg = config();
    cfg.total_sol_transferred = 11;
    let before = cfg;
    let mut guard = ReplayGuard::new();
    let mut ctx = transfer_ctx(1000, 1500, SOL);
    ctx.destination_account.key = addr(3);
    assert_eq!(transfer(&mut cfg, &mut guard, &ctx, HASH), Err(GovernorError::WrongAccount));
    assert_eq!(cfg, before);
    assert!(!guard.is_claimed(CHAIN, 9));
}

#[test]
fn transfer_from_another_source_is_a_wrong_account() {
    let mut cfg = config();
    let mut guard = ReplayGuard::new();
    let mut ctx = transfer_ctx(1000, 1500, SOL);
    ctx.source_account.key[0] ^= 1;
    assert_eq!(transfer(&mut cfg, &mut guard, &ctx, HASH), Err(GovernorError::WrongAccount));
    assert_eq!(cfg, config());
}

#[test]
fn transfer_of_an_untracked_or_mixed_asset_is_a_wrong_mint() {
    let mut cfg = config();
    let mut guard = ReplayGuard::new();
    let untracked = transfer_ctx(1000, 1500, addr(0x77));
    assert_eq!(
        transfer(&mut cfg, &mut guard, &untracked, HASH),
        Err(GovernorError::WrongTokenMint)
    );
    let mut mixed = transfer_ctx(1000, 1500, SOL);
    mixed.destination_account.mint = OLAS;
    assert_eq!(transfer(&mut cfg, &mut guard, &mixed, HASH), Err(GovernorError::WrongTokenMint));
    let mut mixed_back = transfer_ctx(1000, 1500, OLAS);
    mixed_back.destination_account.mint = SOL;
    assert_eq!(
        transfer(&mut cfg, &mut guard, &mixed_back, HASH),
        Err(GovernorError::WrongTokenMint)
    );
    assert_eq!(cfg, config());
    assert!(!guard.is_claimed(CHAIN, 9));
}

#[test]
fn transfer_of_more_than_the_balance_overflows() {
    let mut cfg = config();
    cfg.total_sol_transferred = 3;
    cfg.total_olas_transferred = 4;
    let before = cfg;
    let mut guard = ReplayGuard::new();
    let ctx = transfer_ctx(1501, 1500, SOL);
    assert_eq!(transfer(&mut cfg, &mut guard, &ctx, HASH), Err(GovernorError::Overflow));
    assert_eq!(cfg, before);
    assert!(!guard.is_claimed(CHAIN, 9));
    assert_eq!(
        transfer(&mut cfg, &mut guard, &transfer_ctx(u64::MAX, u64::MAX - 1, OLAS), HASH),
        Err(GovernorError::Overflow)
    );
    assert_eq!(cfg, before);
}

#[test]
fn transfer_that_would_overflow_the_total_overflows() {
    let mut cfg = config();
    cfg.total_sol_transferred = u64::MAX - 999;
    let before = cfg;
    let mut guard = ReplayGuard::new();
    assert_eq!(
        transfer(&mut cfg, &mut guard, &transfer_ctx(1000, 1500, SOL), HASH),
        Err(GovernorError::Overflow)
    );
    assert_eq!(cfg, before);
    assert!(!guard.is_claimed(CHAIN, 9));
    let done = transfer(&mut cfg, &mut guard, &transfer_ctx(999, 1500, SOL), HASH);
    assert!(done.is_ok());
    assert_eq!(cfg.total_sol_transferred, u64::MAX);
}

#[test]
fn faults_are_reported_in_the_order_of_the_checks() {
    let mut cfg = config();
    let mut guard = ReplayGuard::new();
    assert!(transfer(&mut cfg, &mut guard, &transfer_ctx(1, 1500, SOL), HASH).is_ok());
    // Everything at fault at once: the origin is reported.
    let mut ctx = transfer_ctx(2000, 1500, addr(0x77));
    ctx.destination_account.key = addr(3);
    ctx.posted.payload[0] = 4;
    ctx.posted.emitter_address = addr(0xE1);
    assert_eq!(
        transfer(&mut cfg, &mut guard, &ctx, HASH),
        Err(GovernorError::InvalidForeignEmitter)
    );
    ctx.posted.emitter_address = emitter();
    assert_eq!(transfer(&mut cfg, &mut guard, &ctx, HASH), Err(GovernorError::InvalidMessage));
    ctx.posted.payload[0] = 0;
    assert_eq!(transfer(&mut cfg, &mut guard, &ctx, HASH), Err(GovernorError::WrongAccount));
    ctx.destination_account.key = addr(2);
    assert_eq!(transfer(&mut cfg, &mut guard, &ctx, HASH), Err(GovernorError::WrongTokenMint));
    ctx.source_account.mint = SOL;
    ctx.destination_account.mint = SOL;
    assert_eq!(transfer(&mut cfg, &mut guard, &ctx, HASH), Err(GovernorError::AlreadyProcessed));
    ctx.posted.sequence = 10;
    assert_eq!(transfer(&mut cfg, &mut guard, &ctx, HASH), Err(GovernorError::Overflow));
    ctx.source_account.amount = 2000;
    cfg.total_sol_transferred = u64::MAX - 1999;
    assert_eq!(transfer(&mut cfg, &mut guard, &ctx, HASH), Err(GovernorError::Overflow));
    cfg.total_sol_transferred = 1;
    assert!(transfer(&mut cfg, &mut guard, &ctx, HASH).is_ok());
    assert_eq!(cfg.total_sol_transferred, 2001);
}

#[test]
fn a_resubmitted_transfer_is_already_processed_whatever_the_source_holds() {
    let mut cfg = config();
    let mut guard = ReplayGuard::new();
    assert!(transfer(&mut cfg, &mut guard, &transfer_ctx(1000, 1500, SOL), HASH).is_ok());
    let counted = cfg;
    for balance in [1500u64, 1000, 999, 500, 0, u64::MAX] {
        assert_eq!(
            transfer(&mut cfg, &mut guard, &transfer_ctx(1000, balance, SOL), HASH),
            Err(GovernorError::AlreadyProcessed)
        );
        assert_eq!(cfg, counted);
    }
    assert_eq!(guard.record(CHAIN, 9), Some(record(9)));
}

#[test]
fn a_resubmitted_transfer_is_already_processed_whatever_the_total_is() {
    let mut cfg = config();
    cfg.total_olas_transferred = u64::MAX - 1000;
    let mut guard = ReplayGuard::new();
    assert!(transfer(&mut cfg, &mut guard, &transfer_ctx(1000, 1500, OLAS), HASH).is_ok());
    assert_eq!(cfg.total_olas_transferred, u64::MAX);
    let counted = cfg;
    assert_eq!(
        transfer(&mut cfg, &mut guard, &transfer_ctx(1000, 1500, OLAS), HASH),
        Err(GovernorError::AlreadyProcessed)
    );
    assert_eq!(cfg, counted);
    // A first submission in the same state does stop at the total.
    let mut fresh = transfer_ctx(1000, 1500, OLAS);
    fresh.posted.sequence = 10;
    assert_eq!(transfer(&mut cfg, &mut guard, &fresh, HASH), Err(GovernorError::Overflow));
    assert_eq!(cfg, counted);
    assert!(!guard.is_claimed(CHAIN, 10));
}

#[test]
fn a_resubmitted_sweep_is_already_processed_whatever_the_totals_are() {
    let mut cfg = config();
    cfg.total_sol_transferred = u64::MAX - 700;
    cfg.total_olas_transferred = u64::MAX - 900;
    let mut guard = ReplayGuard::new();
    assert!(transfer_all(&mut cfg, &mut guard, &sweep_ctx(700, 900), HASH).is_ok());
    assert_eq!(cfg.total_sol_transferred, u64::MAX);
    assert_eq!(cfg.total_olas_transferred, u64::MAX);
    let counted = cfg;
    for (sol, olas) in [(700u64, 900u64), (0, 0), (1, 0), (0, 1), (u64::MAX, u64::MAX)] {
        assert_eq!(
            transfer_all(&mut cfg, &mut guard, &sweep_ctx(sol, olas), HASH),
            Err(GovernorError::AlreadyProcessed)
        );
        assert_eq!(cfg, counted);
    }
    let mut fresh = sweep_ctx(1, 0);
    fresh.posted.sequence = 22;
    assert_eq!(transfer_all(&mut cfg, &mut guard, &fresh, HASH), Err(GovernorError::Overflow));
    assert!(!guard.is_claimed(CHAIN, 22));
}

#[test]
fn a_resubmission_with_other_accounts_is_stopped_at_the_binding() {
    let mut cfg = config();
    let mut guard = ReplayGuard::new();
    assert!(transfer(&mut cfg, &mut guard, &transfer_ctx(1000, 1500, SOL), HASH).is_ok());
    let counted = cfg;
    let mut other = transfer_ctx(1000, 1500, SOL);
    other.destination_account.key = addr(3);
    assert_eq!(transfer(&mut cfg, &mut guard, &other, HASH), Err(GovernorError::WrongAccount));
    assert_eq!(cfg, counted);
}

fn sweep_ctx(sol: u64, olas: u64) -> TransferAllLockboxGovernor {
    let mut payload = Vec::new();
    TransferAllMessage {
        source_sol: addr(1),
        source_olas: addr(2),
        destination_sol: addr(3),
        destination_olas: addr(4),
    }
    .serialize(&mut payload);
    TransferAllLockboxGovernor {
        signer: signer(),
        posted: posted(21, payload),
        source_account_sol: account(1, SOL, sol),
        source_account_olas: account(2, OLAS, olas),
        destination_account_sol: account(3, SOL, 8),
        destination_account_olas: account(4, OLAS, 9),
    }
}

#[test]
fn transfer_all_moves_both_whole_balances() {
    let mut cfg = config();
    cfg.total_sol_transferred = 100;
    cfg.total_olas_transferred = 200;
    let mut guard = ReplayGuard::new();
    let done = transfer_all(&mut cfg, &mut guard, &sweep_ctx(700, 900), HASH).unwrap();
    assert_eq!(
        done.actions,
        vec![
            Action::TokenTransfer { source: addr(1), destination: addr(3), amount: 700 },
            Action::TokenTransfer { source: addr(2), destination: addr(4), amount: 900 },
        ]
    );
    assert_eq!(
        done.event,
        TransferAllEvent {
            signer: signer(),
            destination_account_sol: addr(3),
            destination_account_olas: addr(4),
            amount_sol: 700,
            amount_olas: 900,
        }
    );
    assert_eq!(done.record, record(21));
    assert_eq!(cfg.total_sol_transferred, 800);
    assert_eq!(cfg.total_olas_transferred, 1100);
    assert_eq!(guard.record(CHAIN, 21), Some(record(21)));
}

#[test]
fn transfer_all_with_an_empty_account_moves_the_other() {
    let mut cfg = config();
    let mut guard = ReplayGuard::new();
    let done = transfer_all(&mut cfg, &mut guard, &sweep_ctx(0, 900), HASH).unwrap();
    assert_eq!(
        done.actions,
        vec![Action::TokenTransfer { source: addr(2), destination: addr(4), amount: 900 }]
    );
    assert_eq!(done.event.amount_sol, 0);
    assert_eq!(done.event.amount_olas, 900);
    assert_eq!(cfg.total_sol_transferred, 0);
    assert_eq!(cfg.total_olas_transferred, 900);

    let mut other = sweep_ctx(700, 0);
    other.posted.sequence = 22;
    let done = transfer_all(&mut cfg, &mut guard, &other, HASH).unwrap();
    assert_eq!(
        done.actions,
        vec![Action::TokenTransfer { source: addr(1), destination: addr(3), amount: 700 }]
    );
    assert_eq!(cfg.total_sol_transferred, 700);
    assert_eq!(cfg.total_olas_transferred, 900);
}

#[test]
fn transfer_all_with_both_accounts_empty_is_no_fault() {
    let mut cfg = config();
    let mut guard = ReplayGuard::new();
    let done = transfer_all(&mut cfg, &mut guard, &sweep_ctx(0, 0), HASH).unwrap();
    assert_eq!(done.actions, vec![]);
    assert_eq!(cfg, config());
    assert!(guard.is_claimed(CHAIN, 21));
}

#[test]
fn transfer_all_binds_every_account() {
    for which in 0..4 {
        let mut cfg = config();
        let mut guard = ReplayGuard::new();
        let mut ctx = sweep_ctx(700, 900);
        match which {
            0 => ctx.source_account_sol.key = addr(9),
            1 => ctx.source_account_olas.key = addr(9),
            2 => ctx.destination_account_sol.key = addr(9),
            _ => ctx.destination_account_olas.key = addr(9),
        }
        assert_eq!(transfer_all(&mut cfg, &mut guard, &ctx, HASH), Err(GovernorError::WrongAccount));
        assert_eq!(cfg, config());
        assert!(!guard.is_claimed(CHAIN, 21));
    }
}

#[test]
fn transfer_all_checks_every_mint() {
    for which in 0..4 {
        let mut cfg = config();
        let mut guard = ReplayGuard::new();
        let mut ctx = sweep_ctx(700, 900);
        match which {
            0 => ctx.source_account_sol.mint = OLAS,
            1 => ctx.source_account_olas.mint = SOL,
            2 => ctx.destination_account_sol.mint = addr(0x77),
            _ => ctx.destination_account_olas.mint = SOL,
        }
        assert_eq!(
            transfer_all(&mut cfg, &mut guard, &ctx, HASH),
            Err(GovernorError::WrongTokenMint)
        );
        assert_eq!(cfg, config());
    }
}

#[test]
fn transfer_all_that_would_overflow_a_total_changes_nothing() {
    let mut cfg = config();
    cfg.total_olas_transferred = u64::MAX - 899;
    let before = cfg;
    let mut guard = ReplayGuard::new();
    assert_eq!(
        transfer_all(&mut cfg, &mut guard, &sweep_ctx(700, 900), HASH),
        Err(GovernorError::Overflow)
    );
    assert_eq!(cfg, before);
    assert!(!guard.is_claimed(CHAIN, 21));
    let mut sol_full = config();
    sol_full.total_sol_transferred = u64::MAX;
    assert_eq!(
        transfer_all(&mut sol_full, &mut guard, &sweep_ctx(1, 0), HASH),
        Err(GovernorError::Overflow)
    );
    assert_eq!(sol_full.total_sol_transferred, u64::MAX);
}

#[test]
fn transfer_all_refuses_other_messages_and_origins() {
    let mut cfg = config();
    let mut guard = ReplayGuard::new();
    let mut ctx = sweep_ctx(700, 900);
    ctx.posted.payload = transfer_payload(1, 3, 5);
    assert_eq!(transfer_all(&mut cfg, &mut guard, &ctx, HASH), Err(GovernorError::InvalidMessage));
    let mut foreign = sweep_ctx(700, 900);
    foreign.posted.emitter_chain = 2;
    assert_eq!(
        transfer_all(&mut cfg, &mut guard, &foreign, HASH),
        Err(GovernorError::InvalidForeignEmitter)
    );
}

fn owner_ctx() -> TransferTokenAccountsLockboxGovernor {
    let mut payload = Vec::new();
    TransferTokenAccountsMessage { source_sol: addr(1), source_olas: addr(2), destination: addr(3) }
        .serialize(&mut payload);
    TransferTokenAccountsLockboxGovernor {
        signer: signer(),
        posted: posted(31, payload),
        source_account_sol: account(1, SOL, 10),
        source_account_olas: account(2, OLAS, 20),
        destination_account: addr(3),
    }
}

#[test]
fn transfer_token_accounts_hands_both_accounts_over() {
    let mut cfg = config();
    cfg.total_sol_transferred = 6;
    let before = cfg;
    let mut guard = ReplayGuard::new();
    let done = transfer_token_accounts(&mut cfg, &mut guard, &owner_ctx(), HASH).unwrap();
    assert_eq!(
        done.actions,
        vec![
            Action::SetAccountOwner { account: addr(1), new_owner: addr(3) },
            Action::SetAccountOwner { account: addr(2), new_owner: addr(3) },
        ]
    );
    assert_eq!(
        done.event,
        TransferTokenAccountsEvent {
            signer: signer(),
            source_account_sol: addr(1),
            source_account_olas: addr(2),
            destination_account: addr(3),
        }
    );
    assert_eq!(done.record, record(31));
    assert_eq!(cfg, before);
    assert_eq!(
        transfer_token_accounts(&mut cfg, &mut guard, &owner_ctx(), HASH),
        Err(GovernorError::AlreadyProcessed)
    );
}

#[test]
fn transfer_token_accounts_binds_accounts_and_mints() {
    let mut cfg = config();
    let mut guard = ReplayGuard::new();
    let mut ctx = owner_ctx();
    ctx.destination_account = addr(4);
    assert_eq!(
        transfer_token_accounts(&mut cfg, &mut guard, &ctx, HASH),
        Err(GovernorError::WrongAccount)
    );
    let mut ctx = owner_ctx();
    ctx.source_account_olas.key = addr(4);
    assert_eq!(
        transfer_token_accounts(&mut cfg, &mut guard, &ctx, HASH),
        Err(GovernorError::WrongAccount)
    );
    let mut ctx = owner_ctx();
    ctx.source_account_sol.mint = OLAS;
    assert_eq!(
        transfer_token_accounts(&mut cfg, &mut guard, &ctx, HASH),
        Err(GovernorError::WrongTokenMint)
    );
    let mut ctx = owner_ctx();
    ctx.source_account_olas.mint = addr(0x77);
    assert_eq!(
        transfer_token_accounts(&mut cfg, &mut guard, &ctx, HASH),
        Err(GovernorError::WrongTokenMint)
    );
    let mut ctx = owner_ctx();
    ctx.posted.payload[0] = 4;
    assert_eq!(
        transfer_token_accounts(&mut cfg, &mut guard, &ctx, HASH),
        Err(GovernorError::InvalidMessage)
    );
    assert!(!guard.is_claimed(CHAIN, 31));
}

fn authority_ctx() -> SetUpgradeAuthorityLockboxGovernor {
    let mut payload = Vec::new();
    SetUpgradeAuthorityMessage { program_id_bytes: addr(1), upgrade_authority: addr(2) }
        .serialize(&mut payload);
    SetUpgradeAuthorityLockboxGovernor {
        signer: signer(),
        posted: posted(41, payload),
        program_account: addr(1),
        program_data_account: addr(5),
        upgrade_authority_account: addr(2),
    }
}

#[test]
fn change_upgrade_authority_names_program_and_authority() {
    let mut cfg = config();
    let mut guard = ReplayGuard::new();
    let done = change_upgrade_authority(&mut cfg, &mut guard, &authority_ctx(), HASH).unwrap();
    assert_eq!(
        done.actions,
        vec![Action::SetUpgradeAuthority { program: addr(1), new_authority: addr(2) }]
    );
    assert_eq!(
        done.event,
        SetUpgradeAuthorityEvent {
            signer: signer(),
            program_account: addr(1),
            upgrade_authority_account: addr(2),
        }
    );
    assert_eq!(done.record, record(41));
    assert_eq!(cfg, config());
    assert_eq!(
        change_upgrade_authority(&mut cfg, &mut guard, &authority_ctx(), HASH),
        Err(GovernorError::AlreadyProcessed)
    );
}

#[test]
fn change_upgrade_authority_binds_the_program() {
    let mut cfg = config();
    let mut guard = ReplayGuard::new();
    let mut ctx = authority_ctx();
    ctx.program_account = addr(9);
    assert_eq!(
        change_upgrade_authority(&mut cfg, &mut guard, &ctx, HASH),
        Err(GovernorError::WrongAccount)
    );
    let mut ctx = authority_ctx();
    ctx.posted.payload.push(1);
    assert_eq!(
        change_upgrade_authority(&mut cfg, &mut guard, &ctx, HASH),
        Err(GovernorError::InvalidMessage)
    );
    let mut ctx = authority_ctx();
    ctx.posted.emitter_address = [0u8; 32];
    assert_eq!(
        change_upgrade_authority(&mut cfg, &mut guard, &ctx, HASH),
        Err(GovernorError::InvalidForeignEmitter)
    );
    assert!(!guard.is_claimed(CHAIN, 41));
}

fn upgrade_ctx() -> UpgradeProgramLockboxGovernor {
    let mut payload = Vec::new();
    UpgradeProgramMessage {
        program_id_bytes: addr(1),
        buffer_account_bytes: addr(2),
        spill_account_bytes: addr(3),
    }
    .serialize(&mut payload);
    UpgradeProgramLockboxGovernor {
        signer: signer(),
        posted: posted(51, payload),
        program_account: addr(1),
        program_data_account: addr(5),
        buffer_account: addr(2),
        spill_account: addr(3),
    }
}

#[test]
fn upgrade_program_names_program_buffer_and_spill() {
    let mut cfg = config();
    let mut guard = ReplayGuard::new();
    let done = upgrade_program(&mut cfg, &mut guard, &upgrade_ctx(), HASH).unwrap();
    assert_eq!(
        done.actions,
        vec![Action::Upgrade { program: addr(1), buffer: addr(2), spill: addr(3) }]
    );
    assert_eq!(
        done.event,
        UpgradeProgramEvent {
            signer: signer(),
            program_account: addr(1),
            buffer_account: addr(2),
            spill_account: addr(3),
        }
    );
    assert_eq!(done.record, record(51));
    assert_eq!(done.signer_seeds(), cfg.seeds());
    assert_eq!(cfg, config());
    assert_eq!(
        upgrade_program(&mut cfg, &mut guard, &upgrade_ctx(), HASH),
        Err(GovernorError::AlreadyProcessed)
    );
}

#[test]
fn upgrade_program_binds_buffer_and_spill_each_to_its_own_account() {
    let mut cfg = config();
    let mut guard = ReplayGuard::new();
    let mut ctx = upgrade_ctx();
    ctx.spill_account = addr(2);
    assert_eq!(upgrade_program(&mut cfg, &mut guard, &ctx, HASH), Err(GovernorError::WrongAccount));
    let mut ctx = upgrade_ctx();
    ctx.buffer_account = addr(3);
    assert_eq!(upgrade_program(&mut cfg, &mut guard, &ctx, HASH), Err(GovernorError::WrongAccount));
    let mut ctx = upgrade_ctx();
    ctx.program_account = addr(3);
    assert_eq!(upgrade_program(&mut cfg, &mut guard, &ctx, HASH), Err(GovernorError::WrongAccount));
    let mut ctx = upgrade_ctx();
    ctx.posted.payload[0] = 2;
    assert_eq!(
        upgrade_program(&mut cfg, &mut guard, &ctx, HASH),
        Err(GovernorError::InvalidMessage)
    );
    assert!(!guard.is_claimed(CHAIN, 51));
    assert!(upgrade_program(&mut cfg, &mut guard, &upgrade_ctx(), HASH).is_ok());
}

#[test]
fn a_claimed_key_stops_every_entry_point() {
    let mut cfg = config();
    let mut guard = ReplayGuard::new();
    assert!(upgrade_program(&mut cfg, &mut guard, &upgrade_ctx(), HASH).is_ok());
    let mut t = transfer_ctx(10, 100, SOL);
    t.posted.sequence = 51;
    assert_eq!(transfer(&mut cfg, &mut guard, &t, HASH), Err(GovernorError::AlreadyProcessed));
    let mut a = sweep_ctx(1, 2);
    a.posted.sequence = 51;
    assert_eq!(transfer_all(&mut cfg, &mut guard, &a, HASH), Err(GovernorError::AlreadyProcessed));
    let mut o = owner_ctx();
    o.posted.sequence = 51;
    assert_eq!(
        transfer_token_accounts(&mut cfg, &mut guard, &o, HASH),
        Err(GovernorError::AlreadyProcessed)
    );
    let mut s = authority_ctx();
    s.posted.sequence = 51;
    assert_eq!(
        change_upgrade_authority(&mut cfg, &mut guard, &s, HASH),
        Err(GovernorError::AlreadyProcessed)
    );
    assert_eq!(cfg, config());
    assert_eq!(guard.record(CHAIN, 51), Some(record(51)));
    // The same sequence from another registered chain is another key.
    let mut elsewhere = config();
    elsewhere.chain = 6;
    let mut t6 = transfer_ctx(10, 100, SOL);
    t6.posted.sequence = 51;
    t6.posted.emitter_chain = 6;
    assert!(transfer(&mut elsewhere, &mut guard, &t6, HASH).is_ok());
}
