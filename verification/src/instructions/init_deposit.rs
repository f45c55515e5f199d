//! The first deposit, by which the leader opens the vault.

use vstd::prelude::*;
use crate::constants::{GENESIS_BOND_PRICE, MIN_INITIAL_DEPOSIT};
use crate::custody::{CustodyCall, Holder};
use crate::error::VaultError;
use crate::identity::Identity;
use crate::instructions::deposit::{deposit_calls, deposited_vault, minted};
use crate::pricing::{bond_amount_for, bond_price};
use crate::state::user::User;
use crate::state::vault::Vault;

verus! {

/// The records that the first deposit works on.
#[derive(Clone, Debug, PartialEq, Eq)]
pub struct InitDeposit {
    pub vault: Vault,
    /// The leader's own position in `vault`.
    pub user: User,
    /// Who makes the deposit.
    pub leader: Identity,
    /// Decimal places of the bond share token.
    pub mint_decimals: u8,
}

#[derive(Clone, Debug, PartialEq, Eq)]
pub struct InitDepositParams {
    /// Names the trading strategy, for good.
    pub strategy_id: String,
    /// What the leader pays, in the payment asset.
    pub initial_deposit: u64,
}

/// No deposit was taken yet.
pub open spec fn is_unfunded(vault: Vault) -> bool {
    vault.bond_supply == 0 && vault.deposit_value == 0 && vault.tvl == 0
}

/// The shares can be recorded.
pub open spec fn init_deposit_fits(vault: Vault, decimals: u8, initial_deposit: u64) -> bool {
    minted(vault, decimals, initial_deposit) <= u64::MAX
}

/// Why the first deposit is refused, if it is.
pub open spec fn init_deposit_error(
    vault: Vault,
    by_leader: bool,
    decimals: u8,
    initial_deposit: u64,
) -> Option<VaultError> {
    if !by_leader {
        Some(VaultError::Unauthorized)
    } else if vault.is_terminated() {
        Some(VaultError::VaultTerminated)
    } else if !is_unfunded(vault) {
        Some(VaultError::AlreadyInitialized)
    } else if initial_deposit < MIN_INITIAL_DEPOSIT {
        Some(VaultError::InsufficientDeposit)
    } else if !init_deposit_fits(vault, decimals, initial_deposit) {
        Some(VaultError::ArithmeticError)
    } else {
        None
    }
}

/// The vault after its first deposit: the vault after a deposit of that
/// amount, under the strategy's name.
pub open spec fn opened_vault(
    vault: Vault,
    strategy_id: String,
    decimals: u8,
    initial_deposit: u64,
) -> Vault {
    Vault { strategy_id, ..deposited_vault(vault, decimals, initial_deposit) }
}

/// The leader's position after the first deposit, made at `now`.
pub open spec fn opened_user(vault: Vault, decimals: u8, initial_deposit: u64, now: i64) -> User {
    User {
        deposit_value: initial_deposit,
        bond_amount: minted(vault, decimals, initial_deposit) as u64,
        deposit_time: now,
    }
}

/// Takes the leader's first deposit at time `now` and names the strategy.
///
/// Only the vault's leader may make it, only once, and with no less than
/// `MIN_INITIAL_DEPOSIT`. The shares are issued at the genesis price. The
/// leader's position then holds exactly this deposit. A refused deposit
/// changes nothing.
pub fn init_deposit(ctx: &mut InitDeposit, params: InitDepositParams, now: i64) -> (outcome:
    Result<Vec<CustodyCall>, VaultError>)
    ensures
        final(ctx).leader == old(ctx).leader,
        final(ctx).mint_decimals == old(ctx).mint_decimals,
        match init_deposit_error(
            old(ctx).vault,
            old(ctx).leader == old(ctx).vault.leader,
            old(ctx).mint_decimals,
            params.initial_deposit,
        ) {
            Some(e) => outcome == Err::<Vec<CustodyCall>, VaultError>(e) && *final(ctx) == *old(ctx),
            None => {
                &&& outcome.is_ok()
                &&& outcome.unwrap()@ == deposit_calls(
                    old(ctx).vault,
                    old(ctx).mint_decimals,
                    params.initial_deposit,
                )
                &&& final(ctx).vault == opened_vault(
                    old(ctx).vault,
                    params.strategy_id,
                    old(ctx).mint_decimals,
                    params.initial_deposit,
                )
                &&& final(ctx).user == opened_user(
                    old(ctx).vault,
                    old(ctx).mint_decimals,
                    params.initial_deposit,
                    now,
                )
            },
        },
        old(ctx).vault.covers_principal() ==> final(ctx).vault.covers_principal(),
        old(ctx).vault.is_terminated() ==> final(ctx).vault.is_terminated(),
        outcome.is_ok() ==> final(ctx).vault.well_formed(),
        outcome.is_ok() ==> final(ctx).vault.bond_supply == final(ctx).user.bond_amount,
        outcome.is_ok() ==> final(ctx).vault.tvl == params.initial_deposit && final(
            ctx
        ).vault.deposit_value == params.initial_deposit,
{
    let amount = params.initial_deposit;
    if !ctx.vault.is_leader(&ctx.leader) {
        return Err(VaultError::Unauthorized);
    }
    if ctx.vault.has_ended() {
        return Err(VaultError::VaultTerminated);
    }
    if ctx.vault.bond_supply != 0 || ctx.vault.deposit_value != 0 || ctx.vault.tvl != 0 {
        return Err(VaultError::AlreadyInitialized);
    }
    if amount < MIN_INITIAL_DEPOSIT {
        return Err(VaultError::InsufficientDeposit);
    }
    let bond_amount = match bond_amount_for(amount, GENESIS_BOND_PRICE, ctx.mint_decimals) {
        Some(shares) => shares,
        None => { return Err(VaultError::ArithmeticError); },
    };
    let new_price = match bond_price(amount, amount, bond_amount) {
        Some(p) => p,
        None => { return Err(VaultError::ArithmeticError); },
    };
    let mut calls: Vec<CustodyCall> = Vec::new();
    calls.push(ctx.vault.transfer_tokens_from_user(Holder::Depositor, Holder::Vault, amount));
    calls.push(CustodyCall::Mint { to: Holder::Depositor, amount: bond_amount });

    ctx.vault.strategy_id = params.strategy_id;
    ctx.vault.deposit_value = amount;
    ctx.vault.tvl = amount;
    ctx.vault.bond_supply = bond_amount;
    ctx.vault.bond_price = new_price;
    ctx.user.deposit_value = amount;
    ctx.user.bond_amount = bond_amount;
    ctx.user.deposit_time = now;
    proof {
        assert(calls@ =~= deposit_calls(old(ctx).vault, old(ctx).mint_decimals, amount));
    }
    Ok(calls)
}

} // verus!
