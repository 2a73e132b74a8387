//! Claiming a share of the converted asset, after the migration.

use vstd::prelude::*;
use crate::authority::VaultAuthorization;
use crate::error::SentinelError;
use crate::pubkey::Pubkey;
use crate::share::{pro_rata_share, user_share};
use crate::state::{MigrationStatus, SentinelConfig, TokenAccount, UserVault};
use crate::transfer::TokenTransfer;

verus! {

/// What a claim touches: the caller, the caller's position, the vault's
/// configuration, the vault authority and the two accounts of the new asset.
#[derive(Clone, Copy, Debug, PartialEq, Eq)]
pub struct Claim {
    /// The caller, who signed the request.
    pub user: Pubkey,
    /// The position that the claim is made on.
    pub user_vault: UserVault,
    pub sentinel_config: SentinelConfig,
    /// The capability under which the share leaves the vault.
    pub vault_authority: VaultAuthorization,
    /// The vault's account of the converted asset, which pays the share.
    pub vault_new_token_account: TokenAccount,
    /// The caller's account of the converted asset, which receives it.
    pub user_new_token_account: TokenAccount,
}

/// The share that the position is owed: its part of what the conversion
/// returned, in proportion to its part of the pool, rounded down.
pub open spec fn claim_share(ctx: Claim) -> nat {
    pro_rata_share(
        ctx.user_vault.old_token_deposited as nat,
        ctx.sentinel_config.total_new_received as nat,
        ctx.sentinel_config.total_old_deposited as nat,
    )
}

/// Why a claim is rejected, or `None` where it goes through. The first
/// condition that fails decides.
pub open spec fn claim_rejection(ctx: Claim) -> Option<SentinelError> {
    if ctx.sentinel_config.migration_status != MigrationStatus::Completed {
        Some(SentinelError::MigrationNotCompleted)
    } else if ctx.user_vault.has_claimed {
        Some(SentinelError::AlreadyClaimed)
    } else if ctx.user == ctx.sentinel_config.authority {
        Some(SentinelError::AdminCannotClaim)
    } else if ctx.user_vault.old_token_deposited == 0 {
        Some(SentinelError::DepositAmountTooSmall)
    } else if ctx.user_vault.user != ctx.user {
        Some(SentinelError::Unauthorized)
    } else if ctx.sentinel_config.total_old_deposited == 0 || claim_share(ctx) > u64::MAX {
        Some(SentinelError::ArithmeticOverflow)
    } else if ctx.vault_new_token_account.amount < claim_share(ctx) {
        Some(SentinelError::InsufficientNewTokens)
    } else {
        None
    }
}

/// The records after a claim that went through: the position is marked as
/// paid, and nothing else changes.
pub open spec fn claim_effect(ctx: Claim) -> Claim {
    Claim { user_vault: UserVault { has_claimed: true, ..ctx.user_vault }, ..ctx }
}

/// The transfer that a claim orders: the share, from the vault's account of
/// the new asset to the caller's, under the vault authority.
pub open spec fn claim_transfer(ctx: Claim) -> TokenTransfer {
    TokenTransfer {
        from: ctx.vault_new_token_account.address,
        to: ctx.user_new_token_account.address,
        authority: ctx.vault_authority.spec_address(),
        amount: claim_share(ctx) as u64,
        signer: Some(ctx.vault_authority),
    }
}

/// Pays a depositor the pro-rata share of the converted asset, once.
///
/// On success the position is marked as paid and the transfer of the share is
/// returned for the host to carry out. On rejection nothing changes and no
/// transfer is ordered.
///
/// The share that is paid is the depositor's part of what the conversion
/// returned, rounded down. Before the migration every claim is rejected as
/// `MigrationNotCompleted`; after it a position that is marked as paid is
/// rejected as `AlreadyClaimed`, and the administrator is rejected whatever
/// position the request names.
pub fn claim(ctx: &mut Claim) -> (r: Result<TokenTransfer, SentinelError>)
    ensures
        match r {
            Ok(transfer) => {
                &&& claim_rejection(*old(ctx)) is None
                &&& *final(ctx) == claim_effect(*old(ctx))
                &&& transfer == claim_transfer(*old(ctx))
            },
            Err(e) => {
                &&& claim_rejection(*old(ctx)) == Some(e)
                &&& *final(ctx) == *old(ctx)
            },
        },
        r matches Ok(transfer) ==> transfer.amount == pro_rata_share(
            old(ctx).user_vault.old_token_deposited as nat,
            old(ctx).sentinel_config.total_new_received as nat,
            old(ctx).sentinel_config.total_old_deposited as nat,
        ),
        old(ctx).sentinel_config.migration_status != MigrationStatus::Completed
            ==> (r matches Err(SentinelError::MigrationNotCompleted)),
        old(ctx).sentinel_config.migration_status == MigrationStatus::Completed
            && old(ctx).user_vault.has_claimed
            ==> (r matches Err(SentinelError::AlreadyClaimed)),
        old(ctx).user == old(ctx).sentinel_config.authority ==> r is Err,
{
    if ctx.sentinel_config.migration_status != MigrationStatus::Completed {
        return Err(SentinelError::MigrationNotCompleted);
    }
    if ctx.user_vault.has_claimed {
        return Err(SentinelError::AlreadyClaimed);
    }
    if ctx.user == ctx.sentinel_config.authority {
        return Err(SentinelError::AdminCannotClaim);
    }
    if ctx.user_vault.old_token_deposited == 0 {
        return Err(SentinelError::DepositAmountTooSmall);
    }
    if ctx.user_vault.user != ctx.user {
        return Err(SentinelError::Unauthorized);
    }
    let share: u64 = match user_share(
        ctx.user_vault.old_token_deposited,
        ctx.sentinel_config.total_new_received,
        ctx.sentinel_config.total_old_deposited,
    ) {
        Ok(share) => share,
        Err(e) => {
            return Err(e);
        },
    };
    if ctx.vault_new_token_account.amount < share {
        return Err(SentinelError::InsufficientNewTokens);
    }
    let transfer = TokenTransfer {
        from: ctx.vault_new_token_account.address,
        to: ctx.user_new_token_account.address,
        authority: ctx.vault_authority.address(),
        amount: share,
        signer: Some(ctx.vault_authority),
    };
    ctx.user_vault.has_claimed = true;
    Ok(transfer)
}

} // verus!
