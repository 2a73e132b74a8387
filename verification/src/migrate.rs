//! The one conversion of the pool, in two decisions around the exchange:
//! whether it may run, and whether what it returned is accepted.

use vstd::prelude::*;
use crate::authority::VaultAuthorization;
use crate::error::SentinelError;
use crate::pubkey::Pubkey;
use crate::state::{MigrationStatus, SentinelConfig, TokenAccount};

verus! {

/// What a migration touches: the caller, the vault's configuration, the vault
/// authority, the vault's two asset accounts as they stand before the
/// exchange runs, and the exchange that the call names.
#[derive(Clone, Copy, Debug, PartialEq, Eq)]
pub struct Migrate {
    /// The caller, who signed the request.
    pub authority: Pubkey,
    pub sentinel_config: SentinelConfig,
    /// The capability under which the pool is handed to the exchange.
    pub vault_authority: VaultAuthorization,
    /// The vault's account of the pooled asset, before the exchange.
    pub vault_old_token_account: TokenAccount,
    /// The vault's account of the converted asset, before the exchange.
    pub vault_new_token_account: TokenAccount,
    /// The exchange that the call asks to go through.
    pub dex_program: Pubkey,
}

/// What the host is asked to run once a migration has been admitted: the
/// exchange of the vault's whole balance of the pooled asset.
#[derive(Clone, Copy, Debug, PartialEq, Eq)]
pub struct SwapOrder {
    /// The exchange to call.
    pub dex_program: Pubkey,
    /// The account that the exchange takes the pooled asset from.
    pub vault_old_token_account: Pubkey,
    /// The account that the exchange credits with the converted asset.
    pub vault_new_token_account: Pubkey,
    /// How much of the pooled asset is offered: all the vault holds.
    pub old_token_amount: u64,
    /// The balance of the converted asset before the exchange.
    pub new_token_balance_before: u64,
    /// The least that the exchange must return.
    pub min_new_tokens_out: u64,
    /// The capability that lets the exchange act on the vault's accounts.
    pub signer: VaultAuthorization,
}

/// Why a migration is not admitted, or `None` where the exchange may run.
/// The first condition that fails decides.
pub open spec fn migration_refusal(ctx: Migrate) -> Option<SentinelError> {
    if ctx.authority != ctx.sentinel_config.authority {
        Some(SentinelError::Unauthorized)
    } else if ctx.sentinel_config.migration_status != MigrationStatus::NotStarted {
        Some(SentinelError::MigrationAlreadyCompleted)
    } else if ctx.sentinel_config.total_old_deposited == 0 {
        Some(SentinelError::NoDepositsToMigrate)
    } else if ctx.dex_program != ctx.sentinel_config.dex_program_id {
        Some(SentinelError::InvalidDexProgram)
    } else {
        None
    }
}

/// The order that an admitted migration gives to the host.
pub open spec fn swap_order(ctx: Migrate, min_new_tokens_out: u64) -> SwapOrder {
    SwapOrder {
        dex_program: ctx.dex_program,
        vault_old_token_account: ctx.vault_old_token_account.address,
        vault_new_token_account: ctx.vault_new_token_account.address,
        old_token_amount: ctx.vault_old_token_account.amount,
        new_token_balance_before: ctx.vault_new_token_account.amount,
        min_new_tokens_out,
        signer: ctx.vault_authority,
    }
}

/// What the exchange returned: the growth of the vault's balance of the
/// converted asset over the exchange.
pub open spec fn new_tokens_received(ctx: Migrate, new_token_balance_after: u64) -> int {
    new_token_balance_after - ctx.vault_new_token_account.amount
}

/// Why a migration is rejected, or `None` where it is committed. A migration
/// that is not admitted is rejected for that reason; an admitted one is
/// rejected where the balance of the converted asset fell over the exchange,
/// or grew by less than the floor.
pub open spec fn migrate_rejection(
    ctx: Migrate,
    min_new_tokens_out: u64,
    new_token_balance_after: u64,
) -> Option<SentinelError> {
    if migration_refusal(ctx) is Some {
        migration_refusal(ctx)
    } else if new_tokens_received(ctx, new_token_balance_after) < 0 {
        Some(SentinelError::ArithmeticOverflow)
    } else if new_tokens_received(ctx, new_token_balance_after) < min_new_tokens_out {
        Some(SentinelError::InsufficientNewTokens)
    } else {
        None
    }
}

/// The records after a migration that was committed: the configuration
/// names the new asset and the account that holds it, records what was
/// received and when, and is marked completed. Nothing else changes.
pub open spec fn migrate_effect(
    ctx: Migrate,
    new_token_mint: Pubkey,
    new_token_balance_after: u64,
    now: i64,
) -> Migrate {
    Migrate {
        sentinel_config: SentinelConfig {
            new_token_mint,
            total_new_received: new_tokens_received(ctx, new_token_balance_after) as u64,
            migration_status: MigrationStatus::Completed,
            migration_timestamp: now,
            vault_new_token_account: ctx.vault_new_token_account.address,
            ..ctx.sentinel_config
        },
        ..ctx
    }
}

/// Decides whether the exchange may run, and on what terms.
///
/// The host calls this first, runs the order it gets, reads the vault's
/// balance of the converted asset again and hands it to [`migrate`].
pub fn prepare_migration(ctx: &Migrate, min_new_tokens_out: u64) -> (r: Result<
    SwapOrder,
    SentinelError,
>)
    ensures
        match r {
            Ok(order) => migration_refusal(*ctx) is None && order == swap_order(
                *ctx,
                min_new_tokens_out,
            ),
            Err(e) => migration_refusal(*ctx) == Some(e),
        },
{
    if ctx.authority != ctx.sentinel_config.authority {
        return Err(SentinelError::Unauthorized);
    }
    if ctx.sentinel_config.migration_status != MigrationStatus::NotStarted {
        return Err(SentinelError::MigrationAlreadyCompleted);
    }
    if ctx.sentinel_config.total_old_deposited == 0 {
        return Err(SentinelError::NoDepositsToMigrate);
    }
    if ctx.dex_program != ctx.sentinel_config.dex_program_id {
        return Err(SentinelError::InvalidDexProgram);
    }
    Ok(
        SwapOrder {
            dex_program: ctx.dex_program,
            vault_old_token_account: ctx.vault_old_token_account.address,
            vault_new_token_account: ctx.vault_new_token_account.address,
            old_token_amount: ctx.vault_old_token_account.amount,
            new_token_balance_before: ctx.vault_new_token_account.amount,
            min_new_tokens_out,
            signer: ctx.vault_authority,
        },
    )
}

/// Commits the one conversion of the pool, given what the exchange left in
/// the vault's account of the converted asset. `now` is the host's clock.
///
/// `ctx` holds the accounts as they stood before the exchange. On success
/// the configuration records the new asset, what was received and when, and
/// is marked completed, all at once. On rejection nothing changes.
///
/// Once the migration has run every further one is rejected: as
/// `MigrationAlreadyCompleted` where the administrator asks, as
/// `Unauthorized` where anybody else does.
pub fn migrate(
    ctx: &mut Migrate,
    new_token_mint: Pubkey,
    min_new_tokens_out: u64,
    new_token_balance_after: u64,
    now: i64,
) -> (r: Result<(), SentinelError>)
    ensures
        match r {
            Ok(_) => {
                &&& migrate_rejection(*old(ctx), min_new_tokens_out, new_token_balance_after)
                    is None
                &&& *final(ctx) == migrate_effect(
                    *old(ctx),
                    new_token_mint,
                    new_token_balance_after,
                    now,
                )
            },
            Err(e) => {
                &&& migrate_rejection(*old(ctx), min_new_tokens_out, new_token_balance_after)
                    == Some(e)
                &&& *final(ctx) == *old(ctx)
            },
        },
        r is Ok ==> {
            &&& final(ctx).sentinel_config.migration_status == MigrationStatus::Completed
            &&& final(ctx).sentinel_config.total_new_received
                == new_token_balance_after - old(ctx).vault_new_token_account.amount
            &&& final(ctx).sentinel_config.total_new_received >= min_new_tokens_out
        },
        old(ctx).sentinel_config.migration_status == MigrationStatus::Completed ==> {
            &&& r is Err
            &&& old(ctx).authority == old(ctx).sentinel_config.authority
                ==> (r matches Err(SentinelError::MigrationAlreadyCompleted))
            &&& old(ctx).authority != old(ctx).sentinel_config.authority
                ==> (r matches Err(SentinelError::Unauthorized))
        },
{
    let order = match prepare_migration(ctx, min_new_tokens_out) {
        Ok(order) => order,
        Err(e) => {
            return Err(e);
        },
    };
    let received = match new_token_balance_after.checked_sub(order.new_token_balance_before) {
        Some(received) => received,
        None => {
            return Err(SentinelError::ArithmeticOverflow);
        },
    };
    if received < min_new_tokens_out {
        return Err(SentinelError::InsufficientNewTokens);
    }
    ctx.sentinel_config.new_token_mint = new_token_mint;
    ctx.sentinel_config.total_new_received = received;
    ctx.sentinel_config.migration_status = MigrationStatus::Completed;
    ctx.sentinel_config.migration_timestamp = now;
    ctx.sentinel_config.vault_new_token_account = ctx.vault_new_token_account.address;
    Ok(())
}

} // verus!
