//! The reasons for which the vault rejects an operation.

use vstd::prelude::*;

verus! {

/// Why the vault rejected an operation.
///
/// A rejected operation changes no record and orders no transfer.
#[derive(Clone, Copy, Debug, PartialEq, Eq, Hash, Structural)]
pub enum SentinelError {
    /// A deposit or withdrawal was attempted once the migration had run.
    DepositAfterMigration,
    /// The migration was triggered with an empty pool.
    NoDepositsToMigrate,
    /// The position has already been paid its share.
    AlreadyClaimed,
    /// A claim was attempted before the migration had run.
    MigrationNotCompleted,
    /// The amount is zero, or the position holds nothing to claim against.
    DepositAmountTooSmall,
    /// The migration was triggered a second time.
    MigrationAlreadyCompleted,
    /// An asset account holds another asset than the vault was set up for.
    InvalidTokenMint,
    /// The caller is not the administrator, or does not own the position.
    Unauthorized,
    /// The new asset kind has not been configured.
    NewTokenMintNotConfigured,
    /// The exchange named in the call is not the whitelisted one.
    InvalidDexProgram,
    /// The balance does not cover the amount: the exchange returned less than
    /// the floor, a withdrawal exceeds the position, or the vault cannot pay a share.
    InsufficientNewTokens,
    /// A checked addition, subtraction or division failed, or a share does
    /// not fit the amount type.
    ArithmeticOverflow,
    /// The administrator tried to claim a share.
    AdminCannotClaim,
}

impl SentinelError {
    /// The text shown to the caller for each kind of rejection.
    pub open spec fn spec_message(self) -> Seq<char> {
        match self {
            SentinelError::DepositAfterMigration => "Deposits are not allowed after migration has started"@,
            SentinelError::NoDepositsToMigrate => "No deposits to migrate"@,
            SentinelError::AlreadyClaimed => "User has already claimed their tokens"@,
            SentinelError::MigrationNotCompleted => "Migration has not been completed yet"@,
            SentinelError::DepositAmountTooSmall => "Deposit amount must be greater than zero"@,
            SentinelError::MigrationAlreadyCompleted => "Migration has already been completed"@,
            SentinelError::InvalidTokenMint => "Invalid token mint"@,
            SentinelError::Unauthorized => "Unauthorized: only admin can perform this action"@,
            SentinelError::NewTokenMintNotConfigured => "New token mint has not been configured"@,
            SentinelError::InvalidDexProgram => "Invalid DEX program"@,
            SentinelError::InsufficientNewTokens => "Insufficient new tokens in vault"@,
            SentinelError::ArithmeticOverflow => "Arithmetic overflow"@,
            SentinelError::AdminCannotClaim => "Admin cannot claim tokens"@,
        }
    }

    /// The text shown to the caller for this rejection.
    pub fn message(&self) -> (text: String)
        ensures
            text@ == self.spec_message(),
    {
        match self {
            SentinelError::DepositAfterMigration => "Deposits are not allowed after migration has started".to_string(),
            SentinelError::NoDepositsToMigrate => "No deposits to migrate".to_string(),
            SentinelError::AlreadyClaimed => "User has already claimed their tokens".to_string(),
            SentinelError::MigrationNotCompleted => "Migration has not been completed yet".to_string(),
            SentinelError::DepositAmountTooSmall => "Deposit amount must be greater than zero".to_string(),
            SentinelError::MigrationAlreadyCompleted => "Migration has already been completed".to_string(),
            SentinelError::InvalidTokenMint => "Invalid token mint".to_string(),
            SentinelError::Unauthorized => "Unauthorized: only admin can perform this action".to_string(),
            SentinelError::NewTokenMintNotConfigured => "New token mint has not been configured".to_string(),
            SentinelError::InvalidDexProgram => "Invalid DEX program".to_string(),
            SentinelError::InsufficientNewTokens => "Insufficient new tokens in vault".to_string(),
            SentinelError::ArithmeticOverflow => "Arithmetic overflow".to_string(),
            SentinelError::AdminCannotClaim => "Admin cannot claim tokens".to_string(),
        }
    }
}

} // verus!
