//! Depositing the pooled asset, before the migration.

use vstd::prelude::*;
use crate::error::SentinelError;
use crate::pubkey::Pubkey;
use crate::state::{MigrationStatus, SentinelConfig, TokenAccount, UserVault};
use crate::transfer::TokenTransfer;

verus! {

/// What a deposit touches: the caller, the caller's position if there is one,
/// the vault's configuration and the two accounts of the pooled asset.
#[derive(Clone, Copy, Debug, PartialEq, Eq)]
pub struct Deposit {
    /// The caller, who signed the request.
    pub user: Pubkey,
    /// The caller's position; `None` until the first deposit opens it.
    pub user_vault: Option<UserVault>,
    /// The bump seed of the position's derived address, stored when the
    /// position is opened.
    pub user_vault_bump: u8,
    pub sentinel_config: SentinelConfig,
    /// The caller's account of the pooled asset, which pays.
    pub user_old_token_account: TokenAccount,
    /// The vault's account of the pooled asset, which receives.
    pub vault_old_token_account: TokenAccount,
}

/// What a position holds; nothing where it has not been opened.
pub open spec fn deposited(position: Option<UserVault>) -> nat {
    match position {
        Some(vault) => vault.old_token_deposited as nat,
        None => 0,
    }
}

/// Why a deposit is rejected, or `None` where it goes through. The first
/// condition that fails decides.
pub open spec fn deposit_rejection(ctx: Deposit, amount: u64) -> Option<SentinelError> {
    if ctx.sentinel_config.migration_status != MigrationStatus::NotStarted {
        Some(SentinelError::DepositAfterMigration)
    } else if amount == 0 {
        Some(SentinelError::DepositAmountTooSmall)
    } else if ctx.user_old_token_account.mint != ctx.sentinel_config.old_token_mint {
        Some(SentinelError::InvalidTokenMint)
    } else if ctx.vault_old_token_account.mint != ctx.sentinel_config.old_token_mint {
        Some(SentinelError::InvalidTokenMint)
    } else if deposited(ctx.user_vault) + amount > u64::MAX {
        Some(SentinelError::ArithmeticOverflow)
    } else if ctx.sentinel_config.total_old_deposited + amount > u64::MAX {
        Some(SentinelError::ArithmeticOverflow)
    } else {
        None
    }
}

/// The position after a deposit that went through. The first deposit opens
/// it for the caller, unpaid and stamped with `now`; a later one only raises
/// what it holds.
pub open spec fn position_after_deposit(ctx: Deposit, amount: u64, now: i64) -> UserVault {
    match ctx.user_vault {
        Some(vault) => UserVault {
            old_token_deposited: (vault.old_token_deposited + amount) as u64,
            ..vault
        },
        None => UserVault {
            user: ctx.user,
            old_token_deposited: amount,
            has_claimed: false,
            deposit_timestamp: now,
            bump: ctx.user_vault_bump,
        },
    }
}

/// The records after a deposit that went through: the position and the
/// pool's total are both higher by `amount`, and nothing else changes.
pub open spec fn deposit_effect(ctx: Deposit, amount: u64, now: i64) -> Deposit {
    Deposit {
        user_vault: Some(position_after_deposit(ctx, amount, now)),
        sentinel_config: SentinelConfig {
            total_old_deposited: (ctx.sentinel_config.total_old_deposited + amount) as u64,
            ..ctx.sentinel_config
        },
        ..ctx
    }
}

/// The transfer that a deposit orders: `amount` of the pooled asset, from the
/// caller's account to the vault's, signed by the caller.
pub open spec fn deposit_transfer(ctx: Deposit, amount: u64) -> TokenTransfer {
    TokenTransfer {
        from: ctx.user_old_token_account.address,
        to: ctx.vault_old_token_account.address,
        authority: ctx.user,
        amount,
        signer: None,
    }
}

/// Takes a deposit of the pooled asset, before the migration. `now` is the
/// host's clock, read for this operation.
///
/// On success the position (opened if this is the first deposit) and the
/// pool's total are raised by `amount` and the transfer is returned for the
/// host to carry out. On rejection nothing changes and no transfer is
/// ordered.
///
/// Once the migration has run every deposit is rejected as
/// `DepositAfterMigration`. An amount that the position or the pool's total
/// cannot take without overflow is rejected, and as `ArithmeticOverflow`
/// where no earlier condition rejects the deposit.
pub fn deposit(ctx: &mut Deposit, amount: u64, now: i64) -> (r: Result<TokenTransfer, SentinelError>)
    ensures
        match r {
            Ok(transfer) => {
                &&& deposit_rejection(*old(ctx), amount) is None
                &&& *final(ctx) == deposit_effect(*old(ctx), amount, now)
                &&& transfer == deposit_transfer(*old(ctx), amount)
            },
            Err(e) => {
                &&& deposit_rejection(*old(ctx), amount) == Some(e)
                &&& *final(ctx) == *old(ctx)
            },
        },
        r is Ok ==> {
            &&& deposited(final(ctx).user_vault) == deposited(old(ctx).user_vault) + amount
            &&& final(ctx).sentinel_config.total_old_deposited
                == old(ctx).sentinel_config.total_old_deposited + amount
        },
        old(ctx).sentinel_config.migration_status != MigrationStatus::NotStarted
            ==> (r matches Err(SentinelError::DepositAfterMigration)),
        old(ctx).sentinel_config.total_old_deposited + amount > u64::MAX
            || deposited(old(ctx).user_vault) + amount > u64::MAX ==> {
            &&& r is Err
            &&& old(ctx).sentinel_config.migration_status == MigrationStatus::NotStarted
                && old(ctx).user_old_token_account.mint == old(ctx).sentinel_config.old_token_mint
                && old(ctx).vault_old_token_account.mint == old(ctx).sentinel_config.old_token_mint
                ==> (r matches Err(SentinelError::ArithmeticOverflow))
        },
{
    if ctx.sentinel_config.migration_status != MigrationStatus::NotStarted {
        return Err(SentinelError::DepositAfterMigration);
    }
    if amount == 0 {
        return Err(SentinelError::DepositAmountTooSmall);
    }
    if ctx.user_old_token_account.mint != ctx.sentinel_config.old_token_mint {
        return Err(SentinelError::InvalidTokenMint);
    }
    if ctx.vault_old_token_account.mint != ctx.sentinel_config.old_token_mint {
        return Err(SentinelError::InvalidTokenMint);
    }
    let position = match ctx.user_vault {
        Some(vault) => match vault.old_token_deposited.checked_add(amount) {
            Some(raised) => UserVault { old_token_deposited: raised, ..vault },
            None => {
                return Err(SentinelError::ArithmeticOverflow);
            },
        },
        None => UserVault {
            user: ctx.user,
            old_token_deposited: amount,
            has_claimed: false,
            deposit_timestamp: now,
            bump: ctx.user_vault_bump,
        },
    };
    let total = match ctx.sentinel_config.total_old_deposited.checked_add(amount) {
        Some(total) => total,
        None => {
            return Err(SentinelError::ArithmeticOverflow);
        },
    };
    let transfer = TokenTransfer {
        from: ctx.user_old_token_account.address,
        to: ctx.vault_old_token_account.address,
        authority: ctx.user,
        amount,
        signer: None,
    };
    ctx.user_vault = Some(position);
    ctx.sentinel_config.total_old_deposited = total;
    Ok(transfer)
}

} // verus!
