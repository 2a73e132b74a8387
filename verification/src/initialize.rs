//! Setting the vault up.

use vstd::prelude::*;
use crate::error::SentinelError;
use crate::pubkey::Pubkey;
use crate::state::{MigrationStatus, SentinelConfig};

verus! {

/// What initialization touches: the administrator and the configuration
/// record that the host has just created for this deployment.
#[derive(Clone, Copy, Debug, PartialEq, Eq)]
pub struct Initialize {
    /// The caller, who signed the request and becomes the administrator.
    pub authority: Pubkey,
    /// The new record. Whatever it holds is overwritten.
    pub sentinel_config: SentinelConfig,
    /// The bump seed of the record's derived address.
    pub sentinel_config_bump: u8,
}

/// The configuration of a vault that has just been set up: nothing
/// deposited, nothing received, the migration not started, and the new asset
/// and the vault's accounts not yet set.
pub open spec fn initial_config(
    authority: Pubkey,
    old_token_mint: Pubkey,
    dex_program_id: Pubkey,
    bump: u8,
) -> SentinelConfig {
    SentinelConfig {
        authority,
        old_token_mint,
        new_token_mint: Pubkey::unset(),
        vault_old_token_account: Pubkey::unset(),
        vault_new_token_account: Pubkey::unset(),
        total_old_deposited: 0,
        total_new_received: 0,
        migration_status: MigrationStatus::NotStarted,
        dex_program_id,
        migration_timestamp: 0,
        bump,
    }
}

/// Sets the vault up for one migration: the caller becomes the
/// administrator, `old_token_mint` the asset that is pooled and
/// `dex_program_id` the only exchange a migration may go through.
///
/// Always succeeds. That only one configuration exists per deployment is
/// ensured where the record is created, by the host.
pub fn initialize(ctx: &mut Initialize, old_token_mint: Pubkey, dex_program_id: Pubkey) -> (r:
    Result<(), SentinelError>)
    ensures
        r is Ok,
        final(ctx).sentinel_config == initial_config(
            old(ctx).authority,
            old_token_mint,
            dex_program_id,
            old(ctx).sentinel_config_bump,
        ),
        final(ctx).authority == old(ctx).authority,
        final(ctx).sentinel_config_bump == old(ctx).sentinel_config_bump,
{
    ctx.sentinel_config = SentinelConfig {
        authority: ctx.authority,
        old_token_mint,
        new_token_mint: Pubkey::default(),
        vault_old_token_account: Pubkey::default(),
        vault_new_token_account: Pubkey::default(),
        total_old_deposited: 0,
        total_new_received: 0,
        migration_status: MigrationStatus::NotStarted,
        dex_program_id,
        migration_timestamp: 0,
        bump: ctx.sentinel_config_bump,
    };
    Ok(())
}

} // verus!
