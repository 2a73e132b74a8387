//! Pooled-asset migration vault: depositors pool a legacy asset, the
//! administrator converts the pool once, and each depositor then claims a
//! pro-rata share of what the conversion returned.

pub mod authority;
pub mod claim;
pub mod deposit;
pub mod error;
pub mod initialize;
pub mod invariants;
pub mod ledger;
pub mod migrate;
pub mod pubkey;
pub mod share;
pub mod state;
pub mod transfer;
pub mod withdraw;

pub use authority::VaultAuthorization;
pub use claim::{claim, Claim};
pub use deposit::{deposit, Deposit};
pub use error::SentinelError;
pub use initialize::{initialize, Initialize};
pub use migrate::{migrate, prepare_migration, Migrate, SwapOrder};
pub use pubkey::Pubkey;
pub use state::{MigrationStatus, SentinelConfig, TokenAccount, UserVault};
pub use transfer::TokenTransfer;
pub use withdraw::{withdraw, Withdraw};
