//! The records that the vault keeps, and what it reads of asset accounts.

use vstd::prelude::*;
use crate::pubkey::Pubkey;

verus! {

/// Lifecycle of the migration. The only move is from `NotStarted` to
/// `Completed`, and only a successful migration makes it.
#[derive(Clone, Copy, Debug, PartialEq, Eq, Hash, Structural)]
pub enum MigrationStatus {
    NotStarted,
    Completed,
}

/// The vault's configuration: one record per deployment.
#[derive(Clone, Copy, Debug, PartialEq, Eq)]
pub struct SentinelConfig {
    /// The administrator. Never changes once the vault is initialized.
    pub authority: Pubkey,
    /// The asset kind that depositors pool.
    pub old_token_mint: Pubkey,
    /// The asset kind that the pool is converted to; unset until the migration.
    pub new_token_mint: Pubkey,
    /// The vault's account for the pooled asset.
    pub vault_old_token_account: Pubkey,
    /// The vault's account for the converted asset.
    pub vault_new_token_account: Pubkey,
    /// The sum of what all positions currently hold.
    pub total_old_deposited: u64,
    /// What the conversion returned; zero until the migration, fixed afterwards.
    pub total_new_received: u64,
    /// Whether the migration has run.
    pub migration_status: MigrationStatus,
    /// The only exchange that a migration may go through.
    pub dex_program_id: Pubkey,
    /// When the migration ran; zero before.
    pub migration_timestamp: i64,
    /// The bump seed of the record's derived address.
    pub bump: u8,
}

/// One depositor's position.
#[derive(Clone, Copy, Debug, PartialEq, Eq)]
pub struct UserVault {
    /// The depositor who may act on the position.
    pub user: Pubkey,
    /// What the depositor currently has in the pool.
    pub old_token_deposited: u64,
    /// Whether the share has been paid out. Never goes back to `false`.
    pub has_claimed: bool,
    /// When the position was opened.
    pub deposit_timestamp: i64,
    /// The bump seed of the record's derived address.
    pub bump: u8,
}

impl UserVault {
    /// The position that a record holds, or `None` where no deposit has
    /// opened it yet.
    ///
    /// The host allocates a position's record before the first deposit fills
    /// it in; until then the record names no depositor.
    pub fn opened(self) -> (position: Option<UserVault>)
        ensures
            position == if self.user == Pubkey::unset() {
                None
            } else {
                Some(self)
            },
    {
        if self.user == Pubkey::default() {
            None
        } else {
            Some(self)
        }
    }
}

/// What the vault reads of an asset account: where it is, which asset it
/// holds and how much. Balances move only through transfers that the host carries out.
#[derive(Clone, Copy, Debug, PartialEq, Eq)]
pub struct TokenAccount {
    pub address: Pubkey,
    pub mint: Pubkey,
    pub amount: u64,
}

} // verus!
