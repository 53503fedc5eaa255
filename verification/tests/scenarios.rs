use lockbox_governor::state::{OLAS, SOL};
use lockbox_governor::{
    change_upgrade_authority, initialize, initialize_once, transfer, Action, GovernorError,
    InitializeLockboxGovernor, PostedVaa, Received, ReplayGuard,
    SetUpgradeAuthorityLockboxGovernor, SetUpgradeAuthorityMessage, TokenAccount,
    TransferLockboxGovernor, TransferMessage,
};

fn addr(first: u8) -> [u8; 32] {
    let mut a = [first; 32];
    a[0] = 0xA0;
    a
}

/// Makes the calls that an entry point returned, on the accounts at hand.
fn settle(actions: &[Action], accounts: &mut [TokenAccount]) {
    for action in actions {
        if let Action::TokenTransfer { source, destination, amount } = action {
            for account in accounts.iter_mut() {
                if account.key == *source {
                    account.amount -= amount;
                }
                if account.key == *destination {
                    account.amount += amount;
                }
            }
        }
    }
}

#[test]
fn transfer_executes_once_and_only_once() {
    let mut authority = [0u8; 32];
    authority[12] = 0x9C;
    authority[31] = 0x01;
    let init = InitializeLockboxGovernor { signer: addr(1), bump: 255 };
    let mut slot = None;
    assert_eq!(initialize_once(&mut slot, &init, 5, authority), Ok(()));
    let mut config = slot.unwrap();
    assert_eq!(config, initialize(&init, 5, authority).unwrap());
    let mut guard = ReplayGuard::new();

    let mut accounts = [
        TokenAccount { key: addr(10), mint: SOL, amount: 1500 },
        TokenAccount { key: addr(11), mint: SOL, amount: 40 },
    ];
    let mut payload = Vec::new();
    TransferMessage { source: addr(10), destination: addr(11), amount: 1000 }
        .serialize(&mut payload);
    let posted = PostedVaa {
        emitter_chain: 5,
        emitter_address: authority,
        sequence: 17,
        batch_id: 3,
        payload,
    };
    let hash = [0x5A; 32];

    let ctx = TransferLockboxGovernor {
        signer: addr(1),
        posted: posted.clone(),
        source_account: accounts[0],
        destination_account: accounts[1],
    };
    let done = transfer(&mut config, &mut guard, &ctx, hash).unwrap();
    settle(&done.actions, &mut accounts);
    assert_eq!(accounts[0].amount, 500);
    assert_eq!(accounts[1].amount, 1040);
    assert_eq!(config.total_sol_transferred, 1000);
    assert_eq!(config.total_olas_transferred, 0);
    assert_eq!(
        guard.record(5, 17),
        Some(Received { batch_id: 3, wormhole_message_hash: hash, sequence: 17 })
    );

    let again = TransferLockboxGovernor {
        signer: addr(1),
        posted,
        source_account: accounts[0],
        destination_account: accounts[1],
    };
    let counted = config;
    assert_eq!(
        transfer(&mut config, &mut guard, &again, hash),
        Err(GovernorError::AlreadyProcessed)
    );
    assert_eq!(config, counted);
    assert_eq!(accounts[0].amount, 500);
    assert_eq!(accounts[1].amount, 1040);
    assert_eq!(
        guard.record(5, 17),
        Some(Received { batch_id: 3, wormhole_message_hash: hash, sequence: 17 })
    );
}

#[test]
fn upgrade_authority_goes_only_to_the_named_account() {
    let authority = [0x33; 32];
    let init = InitializeLockboxGovernor { signer: addr(1), bump: 254 };
    let mut config = initialize(&init, 5, authority).unwrap();
    let mut guard = ReplayGuard::new();
    let program = addr(0x50);
    let named = addr(0x4E);
    let supplied = addr(0x4F);
    let mut program_authority = addr(0x01);

    let mut payload = Vec::new();
    SetUpgradeAuthorityMessage { program_id_bytes: program, upgrade_authority: named }
        .serialize(&mut payload);
    let posted = PostedVaa {
        emitter_chain: 5,
        emitter_address: authority,
        sequence: 2,
        batch_id: 0,
        payload,
    };
    let wrong = SetUpgradeAuthorityLockboxGovernor {
        signer: addr(1),
        posted: posted.clone(),
        program_account: program,
        program_data_account: addr(0x51),
        upgrade_authority_account: supplied,
    };
    let result = change_upgrade_authority(&mut config, &mut guard, &wrong, [1; 32]);
    assert_eq!(result, Err(GovernorError::WrongAccount));
    if let Ok(done) = &result {
        for action in &done.actions {
            if let Action::SetUpgradeAuthority { new_authority, .. } = action {
                program_authority = *new_authority;
            }
        }
    }
    assert_eq!(program_authority, addr(0x01));
    assert!(!guard.is_claimed(5, 2));

    // The refusal claimed nothing: the attestation still executes with the
    // account it names.
    let right = SetUpgradeAuthorityLockboxGovernor {
        signer: addr(1),
        posted,
        program_account: program,
        program_data_account: addr(0x51),
        upgrade_authority_account: named,
    };
    let done = change_upgrade_authority(&mut config, &mut guard, &right, [1; 32]).unwrap();
    for action in &done.actions {
        if let Action::SetUpgradeAuthority { new_authority, .. } = action {
            program_authority = *new_authority;
        }
    }
    assert_eq!(program_authority, named);
    assert!(guard.is_claimed(5, 2));
}

#[test]
fn each_asset_is_counted_on_its_own_total_across_attestations() {
    let authority = [0x33; 32];
    let init = InitializeLockboxGovernor { signer: addr(1), bump: 254 };
    let mut config = initialize(&init, 2, authority).unwrap();
    let mut guard = ReplayGuard::new();
    let mut accounts = [
        TokenAccount { key: addr(10), mint: SOL, amount: 100 },
        TokenAccount { key: addr(11), mint: SOL, amount: 0 },
        TokenAccount { key: addr(12), mint: OLAS, amount: 50 },
        TokenAccount { key: addr(13), mint: OLAS, amount: 0 },
    ];
    let moves = [(0usize, 1usize, 60u64, 1u64), (2, 3, 50, 2), (0, 1, 40, 3)];
    for (from, to, amount, sequence) in moves {
        let mut payload = Vec::new();
        TransferMessage { source: accounts[from].key, destination: accounts[to].key, amount }
            .serialize(&mut payload);
        let ctx = TransferLockboxGovernor {
            signer: addr(1),
            posted: PostedVaa {
                emitter_chain: 2,
                emitter_address: authority,
                sequence,
                batch_id: 0,
                payload,
            },
            source_account: accounts[from],
            destination_account: accounts[to],
        };
        let done = transfer(&mut config, &mut guard, &ctx, [0; 32]).unwrap();
        settle(&done.actions, &mut accounts);
    }
    assert_eq!(config.total_sol_transferred, 100);
    assert_eq!(config.total_olas_transferred, 50);
    assert_eq!(accounts.map(|a| a.amount), [0, 100, 0, 50]);
}
