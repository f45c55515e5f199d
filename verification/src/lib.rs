//! Accounting engine of a pooled-investment vault.
//!
//! Depositors pay a payment asset into a pool that one leader manages. What a
//! depositor owns of the pool is counted in bond shares, whose price follows
//! the pool's profit. This crate holds the ledger records, the bond pricing
//! rules and the processors that validate an operation, say which custody
//! calls it needs and update the ledger. The custody calls themselves
//! (transfers, minting, burning) are made by the caller.

pub mod constants;
pub mod custody;
pub mod error;
pub mod identity;
pub mod instructions;
pub mod laws;
pub mod pricing;
pub mod state;

pub use constants::{GENESIS_BOND_PRICE, LOCK_SECONDS, MIN_INITIAL_DEPOSIT};
pub use error::VaultError;
pub use identity::Identity;
pub use custody::{settle, Authority, CustodyCall, CustodyOutcome, Holder};
pub use state::user::User;
pub use state::vault::{Phase, Vault};
pub use instructions::close_position::{close_position, ClosePosition};
pub use instructions::close_positions::{close_positions, ClosePositions};
pub use instructions::deposit::{deposit, Deposit, DepositParams};
pub use instructions::init_deposit::{init_deposit, InitDeposit, InitDepositParams};
pub use instructions::initialize_vault::{initialize_vault, InitializeVault};
pub use instructions::pause_trading::{pause_trading, PauseTrading};
pub use instructions::start_trading::{start_trading, StartTrading};
pub use instructions::terminate_vault::{terminate_vault, TerminateVault};
pub use instructions::withdraw::{lock_holds, withdraw, Withdraw, WithdrawParams};
