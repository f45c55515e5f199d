//! The ways an operation on a vault can fail.

use vstd::prelude::*;

verus! {

/// Every failure ends the operation with the ledger as it was.
#[derive(Clone, Copy, Debug, PartialEq, Eq, Structural)]
pub enum VaultError {
    /// The first deposit is below the floor, or a deposit is of nothing.
    InsufficientDeposit,
    /// The withdrawal asks for more than the principal owed to the depositor.
    InsufficientFunds,
    /// The deposit's lock period has not run out yet.
    LockPeriodNotOver,
    /// The caller is not the vault's leader.
    Unauthorized,
    /// Custody refused a transfer, a mint or a burn.
    CustodyError,
    /// The vault's value is below the principal it owes.
    InvariantViolated,
    /// The vault was terminated.
    VaultTerminated,
    /// The vault already took its first deposit.
    AlreadyInitialized,
    /// Trading is paused.
    TradingPaused,
    /// A quantity cannot be computed or recorded: the bond price is zero, a
    /// total would pass the largest number, or the ledger holds less than is
    /// to be taken from it.
    ArithmeticError,
}

impl VaultError {
    /// The text of the error, as `message` gives it.
    pub open spec fn message_of(self) -> Seq<char> {
        match self {
            VaultError::InsufficientDeposit => "Deposit amount is insufficient for initialization."@,
            VaultError::InsufficientFunds => "Insufficient funds to withdraw."@,
            VaultError::LockPeriodNotOver => "Lock period not over."@,
            VaultError::Unauthorized => "Only the vault's leader may do this."@,
            VaultError::CustodyError => "Custody refused the operation."@,
            VaultError::InvariantViolated => "Vault value is below the deposited principal."@,
            VaultError::VaultTerminated => "Vault is terminated."@,
            VaultError::AlreadyInitialized => "Vault already took its first deposit."@,
            VaultError::TradingPaused => "Trading is paused."@,
            VaultError::ArithmeticError => "Amount cannot be computed or recorded."@,
        }
    }

    /// A sentence that says what went wrong.
    pub fn message(&self) -> (text: &'static str)
        ensures
            text@ == self.message_of(),
    {
        match self {
            VaultError::InsufficientDeposit => "Deposit amount is insufficient for initialization.",
            VaultError::InsufficientFunds => "Insufficient funds to withdraw.",
            VaultError::LockPeriodNotOver => "Lock period not over.",
            VaultError::Unauthorized => "Only the vault's leader may do this.",
            VaultError::CustodyError => "Custody refused the operation.",
            VaultError::InvariantViolated => "Vault value is below the deposited principal.",
            VaultError::VaultTerminated => "Vault is terminated.",
            VaultError::AlreadyInitialized => "Vault already took its first deposit.",
            VaultError::TradingPaused => "Trading is paused.",
            VaultError::ArithmeticError => "Amount cannot be computed or recorded.",
        }
    }
}

} // verus!
