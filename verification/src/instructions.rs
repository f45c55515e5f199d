//! The processors, one for each operation on a vault.

pub mod close_position;
pub mod close_positions;
pub mod deposit;
pub mod init_deposit;
pub mod initialize;
pub mod initialize_vault;
pub mod pause_trading;
pub mod start_trading;
pub mod terminate_vault;
pub mod withdraw;
