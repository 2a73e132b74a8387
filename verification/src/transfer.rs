//! Transfers that the vault orders from the host.

use vstd::prelude::*;
use crate::authority::VaultAuthorization;
use crate::pubkey::Pubkey;

verus! {

/// An order to the host to move `amount` from one asset account to another.
///
/// The vault decides that a transfer is due and for how much; moving the
/// balance is the host's transfer primitive, within the same atomic operation.
#[derive(Clone, Copy, Debug, PartialEq, Eq)]
pub struct TokenTransfer {
    /// The account that is debited.
    pub from: Pubkey,
    /// The account that is credited.
    pub to: Pubkey,
    /// The identity the transfer acts as: the depositor for a deposit, the
    /// vault authority for funds that leave the vault.
    pub authority: Pubkey,
    /// How much is moved.
    pub amount: u64,
    /// The capability that lets the transfer act as the vault authority;
    /// `None` where the depositor signs for it.
    pub signer: Option<VaultAuthorization>,
}

} // verus!
