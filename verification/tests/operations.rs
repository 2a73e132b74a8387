use sentinel_vault::{
    claim, deposit, initialize, migrate, prepare_migration, withdraw, Claim, Deposit, Initialize,
    Migrate, MigrationStatus, Pubkey, SentinelConfig, SentinelError, SwapOrder, TokenAccount,
    TokenTransfer, UserVault, VaultAuthorization, Withdraw,
};

const ADMIN: u8 = 1;
const ALICE: u8 = 2;
const BOB: u8 = 3;
const OLD_MINT: u8 = 10;
const NEW_MINT: u8 = 11;
const OTHER_MINT: u8 = 12;
const DEX: u8 = 20;
const OTHER_DEX: u8 = 21;
const VAULT_OLD: u8 = 30;
const VAULT_NEW: u8 = 31;

fn key(tag: u8) -> Pubkey {
    let mut bytes = [0u8; 32];
    bytes[0] = tag;
    bytes[31] = 0xA5;
    Pubkey::new_from_array(bytes)
}

fn vault_authority() -> VaultAuthorization {
    VaultAuthorization::derive(&key(99)).expect("the derivation finds a bump seed")
}

fn account(address: u8, mint: u8, amount: u64) -> TokenAccount {
    TokenAccount { address: key(address), mint: key(mint), amount }
}

fn blank_config() -> SentinelConfig {
    SentinelConfig {
        authority: Pubkey::default(),
        old_token_mint: Pubkey::default(),
        new_token_mint: Pubkey::default(),
        vault_old_token_account: Pubkey::default(),
        vault_new_token_account: Pubkey::default(),
        total_old_deposited: 0,
        total_new_received: 0,
        migration_status: MigrationStatus::NotStarted,
        dex_program_id: Pubkey::default(),
        migration_timestamp: 0,
        bump: 0,
    }
}

fn new_vault() -> SentinelConfig {
    let mut ctx =
        Initialize { authority: key(ADMIN), sentinel_config: blank_config(), sentinel_config_bump: 254 };
    assert_eq!(initialize(&mut ctx, key(OLD_MINT), key(DEX)), Ok(()));
    ctx.sentinel_config
}

fn completed_vault(total_old_deposited: u64, total_new_received: u64) -> SentinelConfig {
    SentinelConfig {
        new_token_mint: key(NEW_MINT),
        vault_new_token_account: key(VAULT_NEW),
        total_old_deposited,
        total_new_received,
        migration_status: MigrationStatus::Completed,
        migration_timestamp: 1_700_000_500,
        ..new_vault()
    }
}

fn position(user: u8, old_token_deposited: u64) -> UserVault {
    UserVault {
        user: key(user),
        old_token_deposited,
        has_claimed: false,
        deposit_timestamp: 1_700_000_000,
        bump: 253,
    }
}

fn deposit_request(user: u8, user_vault: Option<UserVault>, config: SentinelConfig) -> Deposit {
    Deposit {
        user: key(user),
        user_vault,
        user_vault_bump: 253,
        sentinel_config: config,
        user_old_token_account: account(user + 100, OLD_MINT, 1_000_000),
        vault_old_token_account: account(VAULT_OLD, OLD_MINT, config.total_old_deposited),
    }
}

fn withdraw_request(user: u8, user_vault: UserVault, config: SentinelConfig) -> Withdraw {
    Withdraw {
        user: key(user),
        user_vault,
        sentinel_config: config,
        vault_authority: vault_authority(),
        vault_old_token_account: account(VAULT_OLD, OLD_MINT, config.total_old_deposited),
        user_old_token_account: account(user + 100, OLD_MINT, 0),
    }
}

fn migrate_request(caller: u8, config: SentinelConfig, new_balance_before: u64) -> Migrate {
    Migrate {
        authority: key(caller),
        sentinel_config: config,
        vault_authority: vault_authority(),
        vault_old_token_account: account(VAULT_OLD, OLD_MINT, config.total_old_deposited),
        vault_new_token_account: account(VAULT_NEW, NEW_MINT, new_balance_before),
        dex_program: key(DEX),
    }
}

fn claim_request(user: u8, user_vault: UserVault, config: SentinelConfig, vault_balance: u64) -> Claim {
    Claim {
        user: key(user),
        user_vault,
        sentinel_config: config,
        vault_authority: vault_authority(),
        vault_new_token_account: account(VAULT_NEW, NEW_MINT, vault_balance),
        user_new_token_account: account(user + 150, NEW_MINT, 0),
    }
}

/// Runs the two deposits, the migration and the two claims of the worked
/// examples, and returns what the two depositors were paid and what stayed
/// in the vault.
fn run_two_depositors(total_new_received: u64) -> (u64, u64, u64) {
    let config = new_vault();

    let mut first = deposit_request(ALICE, None, config);
    let paid_in = deposit(&mut first, 100, 1_700_000_000).expect("the first deposit is taken");
    assert_eq!(paid_in.amount, 100);
    let alice = first.user_vault.expect("the deposit opened a position");

    let mut second = deposit_request(BOB, None, first.sentinel_config);
    let paid_in = deposit(&mut second, 300, 1_700_000_001).expect("the second deposit is taken");
    assert_eq!(paid_in.amount, 300);
    let bob = second.user_vault.expect("the deposit opened a position");
    assert_eq!(second.sentinel_config.total_old_deposited, 400);

    let mut conversion = migrate_request(ADMIN, second.sentinel_config, 0);
    assert_eq!(
        migrate(&mut conversion, key(NEW_MINT), 1, total_new_received, 1_700_000_500),
        Ok(())
    );
    let config = conversion.sentinel_config;
    assert_eq!(config.total_new_received, total_new_received);
    assert_eq!(config.migration_status, MigrationStatus::Completed);

    let mut vault_balance = total_new_received;
    let mut first_claim = claim_request(ALICE, alice, config, vault_balance);
    let to_alice = claim(&mut first_claim).expect("the first claim is paid");
    vault_balance -= to_alice.amount;
    let mut second_claim = claim_request(BOB, bob, config, vault_balance);
    let to_bob = claim(&mut second_claim).expect("the second claim is paid");
    vault_balance -= to_bob.amount;
    (to_alice.amount, to_bob.amount, vault_balance)
}

#[test]
fn two_depositors_share_the_conversion_without_dust() {
    assert_eq!(run_two_depositors(800), (200, 600, 0));
}

#[test]
fn two_depositors_leave_one_unit_of_dust() {
    assert_eq!(run_two_depositors(801), (200, 600, 1));
}

#[test]
fn initialize_sets_up_an_empty_vault() {
    let stale = SentinelConfig {
        authority: key(BOB),
        total_old_deposited: 5,
        total_new_received: 6,
        migration_status: MigrationStatus::Completed,
        migration_timestamp: 7,
        new_token_mint: key(NEW_MINT),
        ..blank_config()
    };
    let mut ctx = Initialize { authority: key(ADMIN), sentinel_config: stale, sentinel_config_bump: 254 };
    assert_eq!(initialize(&mut ctx, key(OLD_MINT), key(DEX)), Ok(()));
    assert_eq!(
        ctx.sentinel_config,
        SentinelConfig {
            authority: key(ADMIN),
            old_token_mint: key(OLD_MINT),
            new_token_mint: Pubkey::default(),
            vault_old_token_account: Pubkey::default(),
            vault_new_token_account: Pubkey::default(),
            total_old_deposited: 0,
            total_new_received: 0,
            migration_status: MigrationStatus::NotStarted,
            dex_program_id: key(DEX),
            migration_timestamp: 0,
            bump: 254,
        }
    );
    assert_eq!(ctx.authority, key(ADMIN));
    assert_eq!(ctx.sentinel_config_bump, 254);
}

#[test]
fn first_deposit_opens_the_position() {
    let mut ctx = deposit_request(ALICE, None, new_vault());
    let before = ctx;
    let transfer = deposit(&mut ctx, 100, 1_700_000_000);
    assert_eq!(
        transfer,
        Ok(TokenTransfer {
            from: key(ALICE + 100),
            to: key(VAULT_OLD),
            authority: key(ALICE),
            amount: 100,
            signer: None,
        })
    );
    assert_eq!(
        ctx.user_vault,
        Some(UserVault {
            user: key(ALICE),
            old_token_deposited: 100,
            has_claimed: false,
            deposit_timestamp: 1_700_000_000,
            bump: 253,
        })
    );
    assert_eq!(ctx.sentinel_config.total_old_deposited, 100);
    assert_eq!(
        ctx.sentinel_config,
        SentinelConfig { total_old_deposited: 100, ..before.sentinel_config }
    );
    assert_eq!(ctx.user_old_token_account, before.user_old_token_account);
    assert_eq!(ctx.vault_old_token_account, before.vault_old_token_account);
}

#[test]
fn later_deposit_raises_the_position_and_keeps_its_stamp() {
    let config = SentinelConfig { total_old_deposited: 100, ..new_vault() };
    let mut ctx = deposit_request(ALICE, Some(position(ALICE, 100)), config);
    assert!(deposit(&mut ctx, 50, 1_800_000_000).is_ok());
    assert_eq!(ctx.user_vault, Some(position(ALICE, 150)));
    assert_eq!(ctx.sentinel_config.total_old_deposited, 150);
}

#[test]
fn deposit_after_a_full_withdrawal_keeps_the_first_stamp() {
    let config = SentinelConfig { total_old_deposited: 100, ..new_vault() };
    let mut out = withdraw_request(ALICE, position(ALICE, 100), config);
    assert!(withdraw(&mut out, 100).is_ok());
    assert_eq!(out.user_vault.old_token_deposited, 0);
    let mut back = deposit_request(ALICE, Some(out.user_vault), out.sentinel_config);
    assert!(deposit(&mut back, 7, 1_900_000_000).is_ok());
    assert_eq!(back.user_vault, Some(position(ALICE, 7)));
}

#[test]
fn deposit_is_rejected_after_the_migration() {
    let mut ctx = deposit_request(ALICE, None, completed_vault(400, 800));
    let before = ctx;
    assert_eq!(deposit(&mut ctx, 100, 1), Err(SentinelError::DepositAfterMigration));
    assert_eq!(ctx, before);
    // The status is tested first, whatever else is wrong with the request.
    assert_eq!(deposit(&mut ctx, 0, 1), Err(SentinelError::DepositAfterMigration));
}

#[test]
fn deposit_of_nothing_is_rejected() {
    let mut ctx = deposit_request(ALICE, None, new_vault());
    let before = ctx;
    assert_eq!(deposit(&mut ctx, 0, 1), Err(SentinelError::DepositAmountTooSmall));
    assert_eq!(ctx, before);
}

#[test]
fn deposit_of_another_asset_is_rejected() {
    let mut ctx = deposit_request(ALICE, None, new_vault());
    ctx.user_old_token_account.mint = key(OTHER_MINT);
    let before = ctx;
    assert_eq!(deposit(&mut ctx, 100, 1), Err(SentinelError::InvalidTokenMint));
    assert_eq!(ctx, before);

    let mut ctx = deposit_request(ALICE, None, new_vault());
    ctx.vault_old_token_account.mint = key(OTHER_MINT);
    let before = ctx;
    assert_eq!(deposit(&mut ctx, 100, 1), Err(SentinelError::InvalidTokenMint));
    assert_eq!(ctx, before);
}

#[test]
fn deposit_that_overflows_the_total_is_rejected() {
    let config = SentinelConfig { total_old_deposited: u64::MAX - 5, ..new_vault() };
    let mut ctx = deposit_request(ALICE, Some(position(ALICE, 10)), config);
    let before = ctx;
    assert_eq!(deposit(&mut ctx, 6, 1), Err(SentinelError::ArithmeticOverflow));
    assert_eq!(ctx, before);
    assert_eq!(ctx.sentinel_config.total_old_deposited, u64::MAX - 5);
    // The largest amount that still fits is taken.
    assert!(deposit(&mut ctx, 5, 1).is_ok());
    assert_eq!(ctx.sentinel_config.total_old_deposited, u64::MAX);
    assert_eq!(ctx.user_vault, Some(position(ALICE, 15)));
}

#[test]
fn deposit_that_overflows_the_position_is_rejected() {
    let config = SentinelConfig { total_old_deposited: 10, ..new_vault() };
    let mut ctx = deposit_request(ALICE, Some(position(ALICE, u64::MAX)), config);
    let before = ctx;
    assert_eq!(deposit(&mut ctx, 1, 1), Err(SentinelError::ArithmeticOverflow));
    assert_eq!(ctx, before);
}

#[test]
fn withdraw_returns_part_of_a_deposit() {
    let config = SentinelConfig { total_old_deposited: 400, ..new_vault() };
    let mut ctx = withdraw_request(ALICE, position(ALICE, 100), config);
    let before = ctx;
    let transfer = withdraw(&mut ctx, 40);
    assert_eq!(
        transfer,
        Ok(TokenTransfer {
            from: key(VAULT_OLD),
            to: key(ALICE + 100),
            authority: vault_authority().address(),
            amount: 40,
            signer: Some(vault_authority()),
        })
    );
    assert_eq!(ctx.user_vault, position(ALICE, 60));
    assert_eq!(
        ctx.sentinel_config,
        SentinelConfig { total_old_deposited: 360, ..before.sentinel_config }
    );
}

#[test]
fn withdraw_of_more_than_the_position_is_rejected() {
    let config = SentinelConfig { total_old_deposited: 400, ..new_vault() };
    let mut ctx = withdraw_request(ALICE, position(ALICE, 100), config);
    let before = ctx;
    assert_eq!(withdraw(&mut ctx, 101), Err(SentinelError::InsufficientNewTokens));
    assert_eq!(ctx, before);
    assert!(withdraw(&mut ctx, 100).is_ok());
    assert_eq!(ctx.user_vault.old_token_deposited, 0);
    assert_eq!(ctx.sentinel_config.total_old_deposited, 300);
}

#[test]
fn withdraw_is_rejected_after_the_migration() {
    let mut ctx = withdraw_request(ALICE, position(ALICE, 100), completed_vault(400, 800));
    let before = ctx;
    assert_eq!(withdraw(&mut ctx, 40), Err(SentinelError::DepositAfterMigration));
    assert_eq!(ctx, before);
}

#[test]
fn withdraw_of_nothing_is_rejected() {
    let config = SentinelConfig { total_old_deposited: 400, ..new_vault() };
    let mut ctx = withdraw_request(ALICE, position(ALICE, 100), config);
    let before = ctx;
    assert_eq!(withdraw(&mut ctx, 0), Err(SentinelError::DepositAmountTooSmall));
    assert_eq!(ctx, before);
}

#[test]
fn withdraw_from_another_depositors_position_is_rejected() {
    let config = SentinelConfig { total_old_deposited: 400, ..new_vault() };
    let mut ctx = withdraw_request(BOB, position(ALICE, 100), config);
    let before = ctx;
    assert_eq!(withdraw(&mut ctx, 40), Err(SentinelError::Unauthorized));
    assert_eq!(ctx, before);
    // The balance is tested before the owner.
    assert_eq!(withdraw(&mut ctx, 101), Err(SentinelError::InsufficientNewTokens));
}

#[test]
fn withdraw_into_another_asset_is_rejected() {
    let config = SentinelConfig { total_old_deposited: 400, ..new_vault() };
    let mut ctx = withdraw_request(ALICE, position(ALICE, 100), config);
    ctx.user_old_token_account.mint = key(OTHER_MINT);
    let before = ctx;
    assert_eq!(withdraw(&mut ctx, 40), Err(SentinelError::InvalidTokenMint));
    assert_eq!(ctx, before);

    let mut ctx = withdraw_request(ALICE, position(ALICE, 100), config);
    ctx.vault_old_token_account.mint = key(OTHER_MINT);
    let before = ctx;
    assert_eq!(withdraw(&mut ctx, 40), Err(SentinelError::InvalidTokenMint));
    assert_eq!(ctx, before);
}

#[test]
fn withdraw_of_more_than_the_total_is_rejected() {
    let config = SentinelConfig { total_old_deposited: 30, ..new_vault() };
    let mut ctx = withdraw_request(ALICE, position(ALICE, 100), config);
    let before = ctx;
    assert_eq!(withdraw(&mut ctx, 40), Err(SentinelError::ArithmeticOverflow));
    assert_eq!(ctx, before);
}

#[test]
fn total_follows_the_positions_through_deposits_and_withdrawals() {
    let mut config = new_vault();
    let mut alice: Option<UserVault> = None;
    let mut bob: Option<UserVault> = None;
    let steps: [(u8, bool, u64); 7] = [
        (ALICE, true, 100),
        (BOB, true, 300),
        (ALICE, false, 30),
        (BOB, false, 301),
        (ALICE, true, 0),
        (BOB, false, 300),
        (ALICE, true, 5),
    ];
    for (who, is_deposit, amount) in steps {
        let held = if who == ALICE { alice } else { bob };
        if is_deposit {
            let mut ctx = deposit_request(who, held, config);
            let _ = deposit(&mut ctx, amount, 1_700_000_000);
            config = ctx.sentinel_config;
            if who == ALICE {
                alice = ctx.user_vault;
            } else {
                bob = ctx.user_vault;
            }
        } else {
            let mut ctx = withdraw_request(who, held.expect("the position is open"), config);
            let _ = withdraw(&mut ctx, amount);
            config = ctx.sentinel_config;
            if who == ALICE {
                alice = Some(ctx.user_vault);
            } else {
                bob = Some(ctx.user_vault);
            }
        }
        let sum = alice.map_or(0, |p| p.old_token_deposited) + bob.map_or(0, |p| p.old_token_deposited);
        assert_eq!(config.total_old_deposited, sum);
    }
    assert_eq!(config.total_old_deposited, 75);
    assert_eq!(alice.map(|p| p.old_token_deposited), Some(75));
    assert_eq!(bob.map(|p| p.old_token_deposited), Some(0));
}

#[test]
fn prepare_migration_orders_the_swap_of_the_whole_pool() {
    let config = SentinelConfig { total_old_deposited: 400, ..new_vault() };
    let ctx = migrate_request(ADMIN, config, 5);
    assert_eq!(
        prepare_migration(&ctx, 700),
        Ok(SwapOrder {
            dex_program: key(DEX),
            vault_old_token_account: key(VAULT_OLD),
            vault_new_token_account: key(VAULT_NEW),
            old_token_amount: 400,
            new_token_balance_before: 5,
            min_new_tokens_out: 700,
            signer: vault_authority(),
        })
    );
}

#[test]
fn prepare_migration_refuses_what_migrate_rejects() {
    let config = SentinelConfig { total_old_deposited: 400, ..new_vault() };
    assert_eq!(
        prepare_migration(&migrate_request(ALICE, config, 0), 1),
        Err(SentinelError::Unauthorized)
    );
    assert_eq!(
        prepare_migration(&migrate_request(ADMIN, completed_vault(400, 800), 0), 1),
        Err(SentinelError::MigrationAlreadyCompleted)
    );
    assert_eq!(
        prepare_migration(&migrate_request(ADMIN, new_vault(), 0), 1),
        Err(SentinelError::NoDepositsToMigrate)
    );
    let mut elsewhere = migrate_request(ADMIN, config, 0);
    elsewhere.dex_program = key(OTHER_DEX);
    assert_eq!(prepare_migration(&elsewhere, 1), Err(SentinelError::InvalidDexProgram));
}

#[test]
fn migrate_commits_what_the_exchange_returned() {
    let config = SentinelConfig { total_old_deposited: 400, ..new_vault() };
    let mut ctx = migrate_request(ADMIN, config, 5);
    let before = ctx;
    assert_eq!(migrate(&mut ctx, key(NEW_MINT), 800, 805, 1_700_000_500), Ok(()));
    assert_eq!(
        ctx.sentinel_config,
        SentinelConfig {
            new_token_mint: key(NEW_MINT),
            total_new_received: 800,
            migration_status: MigrationStatus::Completed,
            migration_timestamp: 1_700_000_500,
            vault_new_token_account: key(VAULT_NEW),
            ..before.sentinel_config
        }
    );
    assert_eq!(ctx.vault_new_token_account, before.vault_new_token_account);
    assert_eq!(ctx.vault_old_token_account, before.vault_old_token_account);
}

#[test]
fn migrate_by_anybody_else_is_rejected() {
    let config = SentinelConfig { total_old_deposited: 400, ..new_vault() };
    let mut ctx = migrate_request(ALICE, config, 0);
    let before = ctx;
    assert_eq!(migrate(&mut ctx, key(NEW_MINT), 1, 800, 1), Err(SentinelError::Unauthorized));
    assert_eq!(ctx, before);
}

#[test]
fn migrate_runs_only_once() {
    let config = SentinelConfig { total_old_deposited: 400, ..new_vault() };
    let mut ctx = migrate_request(ADMIN, config, 0);
    assert_eq!(migrate(&mut ctx, key(NEW_MINT), 1, 800, 1_700_000_500), Ok(()));
    let committed = ctx;
    assert_eq!(
        migrate(&mut ctx, key(OTHER_MINT), 1, 1600, 1_700_000_600),
        Err(SentinelError::MigrationAlreadyCompleted)
    );
    assert_eq!(ctx, committed);
    // Anybody else is turned away before the status is looked at.
    let mut stranger = migrate_request(ALICE, committed.sentinel_config, 800);
    assert_eq!(migrate(&mut stranger, key(OTHER_MINT), 1, 1600, 1), Err(SentinelError::Unauthorized));
}

#[test]
fn migrate_of_an_empty_pool_is_rejected() {
    let mut ctx = migrate_request(ADMIN, new_vault(), 0);
    let before = ctx;
    assert_eq!(migrate(&mut ctx, key(NEW_MINT), 0, 0, 1), Err(SentinelError::NoDepositsToMigrate));
    assert_eq!(ctx, before);
}

#[test]
fn migrate_through_another_exchange_is_rejected() {
    let config = SentinelConfig { total_old_deposited: 400, ..new_vault() };
    let mut ctx = migrate_request(ADMIN, config, 0);
    ctx.dex_program = key(OTHER_DEX);
    let before = ctx;
    assert_eq!(migrate(&mut ctx, key(NEW_MINT), 1, 800, 1), Err(SentinelError::InvalidDexProgram));
    assert_eq!(ctx, before);
}

#[test]
fn migrate_that_lost_balance_is_rejected() {
    let config = SentinelConfig { total_old_deposited: 400, ..new_vault() };
    let mut ctx = migrate_request(ADMIN, config, 10);
    let before = ctx;
    assert_eq!(migrate(&mut ctx, key(NEW_MINT), 0, 9, 1), Err(SentinelError::ArithmeticOverflow));
    assert_eq!(ctx, before);
}

#[test]
fn migrate_below_the_floor_is_rejected() {
    let config = SentinelConfig { total_old_deposited: 400, ..new_vault() };
    let mut ctx = migrate_request(ADMIN, config, 10);
    let before = ctx;
    assert_eq!(
        migrate(&mut ctx, key(NEW_MINT), 800, 809, 1),
        Err(SentinelError::InsufficientNewTokens)
    );
    assert_eq!(ctx, before);
    assert_eq!(migrate(&mut ctx, key(NEW_MINT), 800, 810, 1), Ok(()));
    assert_eq!(ctx.sentinel_config.total_new_received, 800);
}

#[test]
fn migrate_may_receive_nothing_when_no_floor_is_asked() {
    let config = SentinelConfig { total_old_deposited: 400, ..new_vault() };
    let mut ctx = migrate_request(ADMIN, config, 10);
    assert_eq!(migrate(&mut ctx, key(NEW_MINT), 0, 10, 1), Ok(()));
    assert_eq!(ctx.sentinel_config.total_new_received, 0);
    assert_eq!(ctx.sentinel_config.migration_status, MigrationStatus::Completed);
}

#[test]
fn claim_pays_the_share_and_marks_the_position() {
    let mut ctx = claim_request(ALICE, position(ALICE, 100), completed_vault(400, 801), 801);
    let before = ctx;
    assert_eq!(
        claim(&mut ctx),
        Ok(TokenTransfer {
            from: key(VAULT_NEW),
            to: key(ALICE + 150),
            authority: vault_authority().address(),
            amount: 200,
            signer: Some(vault_authority()),
        })
    );
    assert_eq!(ctx.user_vault, UserVault { has_claimed: true, ..position(ALICE, 100) });
    assert_eq!(ctx.sentinel_config, before.sentinel_config);
    assert_eq!(ctx.vault_new_token_account, before.vault_new_token_account);
}

#[test]
fn claim_is_paid_only_once() {
    let mut ctx = claim_request(ALICE, position(ALICE, 100), completed_vault(400, 800), 800);
    assert!(claim(&mut ctx).is_ok());
    let paid = ctx;
    assert_eq!(claim(&mut ctx), Err(SentinelError::AlreadyClaimed));
    assert_eq!(ctx, paid);
    assert!(ctx.user_vault.has_claimed);
}

#[test]
fn claim_is_rejected_before_the_migration() {
    let config = SentinelConfig { total_old_deposited: 400, ..new_vault() };
    let mut ctx = claim_request(ALICE, position(ALICE, 100), config, 800);
    let before = ctx;
    assert_eq!(claim(&mut ctx), Err(SentinelError::MigrationNotCompleted));
    assert_eq!(ctx, before);
}

#[test]
fn claim_by_the_administrator_is_rejected() {
    // Even with a position of its own.
    let mut ctx = claim_request(ADMIN, position(ADMIN, 100), completed_vault(400, 800), 800);
    let before = ctx;
    assert_eq!(claim(&mut ctx), Err(SentinelError::AdminCannotClaim));
    assert_eq!(ctx, before);
    // And on somebody else's.
    let mut ctx = claim_request(ADMIN, position(ALICE, 100), completed_vault(400, 800), 800);
    assert_eq!(claim(&mut ctx), Err(SentinelError::AdminCannotClaim));
}

#[test]
fn claim_on_an_empty_position_is_rejected() {
    let mut ctx = claim_request(ALICE, position(ALICE, 0), completed_vault(400, 800), 800);
    let before = ctx;
    assert_eq!(claim(&mut ctx), Err(SentinelError::DepositAmountTooSmall));
    assert_eq!(ctx, before);
}

#[test]
fn claim_on_another_depositors_position_is_rejected() {
    let mut ctx = claim_request(BOB, position(ALICE, 100), completed_vault(400, 800), 800);
    let before = ctx;
    assert_eq!(claim(&mut ctx), Err(SentinelError::Unauthorized));
    assert_eq!(ctx, before);
}

#[test]
fn claim_against_an_empty_total_is_rejected() {
    let mut ctx = claim_request(ALICE, position(ALICE, 100), completed_vault(0, 800), 800);
    let before = ctx;
    assert_eq!(claim(&mut ctx), Err(SentinelError::ArithmeticOverflow));
    assert_eq!(ctx, before);
}

#[test]
fn claim_of_a_share_beyond_any_amount_is_rejected() {
    let mut ctx =
        claim_request(ALICE, position(ALICE, u64::MAX), completed_vault(1, u64::MAX), u64::MAX);
    let before = ctx;
    assert_eq!(claim(&mut ctx), Err(SentinelError::ArithmeticOverflow));
    assert_eq!(ctx, before);
}

#[test]
fn claim_that_the_vault_cannot_pay_is_rejected() {
    let mut ctx = claim_request(ALICE, position(ALICE, 100), completed_vault(400, 800), 199);
    let before = ctx;
    assert_eq!(claim(&mut ctx), Err(SentinelError::InsufficientNewTokens));
    assert_eq!(ctx, before);
    ctx.vault_new_token_account.amount = 200;
    assert_eq!(claim(&mut ctx).map(|transfer| transfer.amount), Ok(200));
}

#[test]
fn claim_of_a_share_that_rounds_to_nothing_still_marks_the_position() {
    let mut ctx = claim_request(ALICE, position(ALICE, 1), completed_vault(400, 399), 399);
    assert_eq!(claim(&mut ctx).map(|transfer| transfer.amount), Ok(0));
    assert!(ctx.user_vault.has_claimed);
}

#[test]
fn vault_that_holds_what_it_received_pays_every_depositor() {
    const CAROL: u8 = 4;
    let mut config = new_vault();
    let mut positions: Vec<(u8, UserVault)> = Vec::new();
    for (who, amount) in [(ALICE, 7u64), (BOB, 11), (CAROL, 13)] {
        let mut ctx = deposit_request(who, None, config);
        assert!(deposit(&mut ctx, amount, 1_700_000_000).is_ok());
        config = ctx.sentinel_config;
        positions.push((who, ctx.user_vault.expect("the deposit opened a position")));
    }
    let mut out = withdraw_request(BOB, positions[1].1, config);
    assert!(withdraw(&mut out, 1).is_ok());
    config = out.sentinel_config;
    positions[1].1 = out.user_vault;
    assert_eq!(config.total_old_deposited, 30);

    let mut conversion = migrate_request(ADMIN, config, 3);
    assert_eq!(migrate(&mut conversion, key(NEW_MINT), 1000, 1003, 1_700_000_500), Ok(()));
    config = conversion.sentinel_config;
    assert_eq!(config.total_new_received, 1000);

    let mut vault_balance: u64 = 1000;
    let mut paid: Vec<u64> = Vec::new();
    for (who, held) in positions {
        let mut ctx = claim_request(who, held, config, vault_balance);
        let transfer = claim(&mut ctx).expect("the vault covers the share");
        vault_balance -= transfer.amount;
        paid.push(transfer.amount);
    }
    // 7, 10 and 13 parts of 30, of 1000, each rounded down.
    assert_eq!(paid, vec![233, 333, 433]);
    assert_eq!(vault_balance, 1);
}
