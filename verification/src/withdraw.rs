//! Withdrawing a deposit, before the migration.

use vstd::prelude::*;
use crate::authority::VaultAuthorization;
use crate::error::SentinelError;
use crate::pubkey::Pubkey;
use crate::state::{MigrationStatus, SentinelConfig, TokenAccount, UserVault};
use crate::transfer::TokenTransfer;

verus! {

/// What a withdrawal touches: the caller, the caller's position, the vault's
/// configuration, the vault authority and the two accounts of the pooled asset.
#[derive(Clone, Copy, Debug, PartialEq, Eq)]
pub struct Withdraw {
    /// The caller, who signed the request.
    pub user: Pubkey,
    /// The position that is drawn on.
    pub user_vault: UserVault,
    pub sentinel_config: SentinelConfig,
    /// The capability under which the funds leave the vault.
    pub vault_authority: VaultAuthorization,
    /// The vault's account of the pooled asset, which pays out.
    pub vault_old_token_account: TokenAccount,
    /// The caller's account of the pooled asset, which receives.
    pub user_old_token_account: TokenAccount,
}

/// Why a withdrawal is rejected, or `None` where it goes through. The first
/// condition that fails decides.
///
/// A withdrawal that exceeds the position is reported as
/// `InsufficientNewTokens`, the kind that also reports a vault that cannot
/// pay a share.
pub open spec fn withdraw_rejection(ctx: Withdraw, amount: u64) -> Option<SentinelError> {
    if ctx.sentinel_config.migration_status != MigrationStatus::NotStarted {
        Some(SentinelError::DepositAfterMigration)
    } else if amount == 0 {
        Some(SentinelError::DepositAmountTooSmall)
    } else if ctx.user_vault.old_token_deposited < amount {
        Some(SentinelError::InsufficientNewTokens)
    } else if ctx.user_vault.user != ctx.user {
        Some(SentinelError::Unauthorized)
    } else if ctx.user_old_token_account.mint != ctx.sentinel_config.old_token_mint {
        Some(SentinelError::InvalidTokenMint)
    } else if ctx.vault_old_token_account.mint != ctx.sentinel_config.old_token_mint {
        Some(SentinelError::InvalidTokenMint)
    } else if ctx.sentinel_config.total_old_deposited < amount {
        Some(SentinelError::ArithmeticOverflow)
    } else {
        None
    }
}

/// The records after a withdrawal that went through: the position and the
/// pool's total are both lower by `amount`, and nothing else changes.
pub open spec fn withdraw_effect(ctx: Withdraw, amount: u64) -> Withdraw {
    Withdraw {
        user_vault: UserVault {
            old_token_deposited: (ctx.user_vault.old_token_deposited - amount) as u64,
            ..ctx.user_vault
        },
        sentinel_config: SentinelConfig {
            total_old_deposited: (ctx.sentinel_config.total_old_deposited - amount) as u64,
            ..ctx.sentinel_config
        },
        ..ctx
    }
}

/// The transfer that a withdrawal orders: `amount` of the pooled asset, from
/// the vault's account back to the caller's, under the vault authority.
pub open spec fn withdraw_transfer(ctx: Withdraw, amount: u64) -> TokenTransfer {
    TokenTransfer {
        from: ctx.vault_old_token_account.address,
        to: ctx.user_old_token_account.address,
        authority: ctx.vault_authority.spec_address(),
        amount,
        signer: Some(ctx.vault_authority),
    }
}

/// Gives a depositor back part or all of a deposit, before the migration.
///
/// On success the position and the pool's total are lowered by `amount` and
/// the transfer is returned for the host to carry out. On rejection nothing
/// changes and no transfer is ordered.
///
/// Once the migration has run every withdrawal is rejected as
/// `DepositAfterMigration`. Before it, a withdrawal of more than the
/// position holds is rejected as `InsufficientNewTokens`.
pub fn withdraw(ctx: &mut Withdraw, amount: u64) -> (r: Result<TokenTransfer, SentinelError>)
    ensures
        match r {
            Ok(transfer) => {
                &&& withdraw_rejection(*old(ctx), amount) is None
                &&& *final(ctx) == withdraw_effect(*old(ctx), amount)
                &&& transfer == withdraw_transfer(*old(ctx), amount)
            },
            Err(e) => {
                &&& withdraw_rejection(*old(ctx), amount) == Some(e)
                &&& *final(ctx) == *old(ctx)
            },
        },
        r is Ok ==> {
            &&& final(ctx).user_vault.old_token_deposited
                == old(ctx).user_vault.old_token_deposited - amount
            &&& final(ctx).sentinel_config.total_old_deposited
                == old(ctx).sentinel_config.total_old_deposited - amount
        },
        old(ctx).sentinel_config.migration_status != MigrationStatus::NotStarted
            ==> (r matches Err(SentinelError::DepositAfterMigration)),
        amount > old(ctx).user_vault.old_token_deposited ==> {
            &&& r is Err
            &&& old(ctx).sentinel_config.migration_status == MigrationStatus::NotStarted
                ==> (r matches Err(SentinelError::InsufficientNewTokens))
        },
{
    if ctx.sentinel_config.migration_status != MigrationStatus::NotStarted {
        return Err(SentinelError::DepositAfterMigration);
    }
    if amount == 0 {
        return Err(SentinelError::DepositAmountTooSmall);
    }
    if ctx.user_vault.old_token_deposited < amount {
        return Err(SentinelError::InsufficientNewTokens);
    }
    if ctx.user_vault.user != ctx.user {
        return Err(SentinelError::Unauthorized);
    }
    if ctx.user_old_token_account.mint != ctx.sentinel_config.old_token_mint {
        return Err(SentinelError::InvalidTokenMint);
    }
    if ctx.vault_old_token_account.mint != ctx.sentinel_config.old_token_mint {
        return Err(SentinelError::InvalidTokenMint);
    }
    if ctx.sentinel_config.total_old_deposited < amount {
        return Err(SentinelError::ArithmeticOverflow);
    }
    let transfer = TokenTransfer {
        from: ctx.vault_old_token_account.address,
        to: ctx.user_old_token_account.address,
        authority: ctx.vault_authority.address(),
        amount,
        signer: Some(ctx.vault_authority),
    };
    ctx.user_vault.old_token_deposited = ctx.user_vault.old_token_deposited - amount;
    ctx.sentinel_config.total_old_deposited = ctx.sentinel_config.total_old_deposited - amount;
    Ok(transfer)
}

} // verus!
