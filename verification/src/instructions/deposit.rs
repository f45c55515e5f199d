//! Deposits: any depositor may pay into a vault that is not terminated.

use vstd::prelude::*;
use crate::constants::GENESIS_BOND_PRICE;
use crate::custody::{CustodyCall, Holder};
use crate::error::VaultError;
use crate::identity::Identity;
use crate::pricing::{bond_amount_for, bond_price, bond_price_of, bond_quantity};
use crate::state::user::User;
use crate::state::vault::Vault;

verus! {

/// The records that a deposit works on.
#[derive(Clone, Debug, PartialEq, Eq)]
pub struct Deposit {
    pub vault: Vault,
    /// The depositor's position in `vault`.
    pub user: User,
    pub depositor: Identity,
    /// Decimal places of the bond share token.
    pub mint_decimals: u8,
}

#[derive(Clone, Copy, Debug, PartialEq, Eq, Structural)]
pub struct DepositParams {
    /// What the depositor pays, in the payment asset.
    pub amount: u64,
}

/// The price at which a deposit is turned into shares: the vault's price
/// before the deposit, and the genesis price while no share exists.
pub open spec fn issue_price(vault: Vault) -> int {
    if vault.bond_supply == 0 {
        GENESIS_BOND_PRICE as int
    } else {
        vault.bond_price as int
    }
}

/// The shares that a deposit of `amount` is given.
pub open spec fn minted(vault: Vault, decimals: u8, amount: u64) -> int {
    bond_quantity(amount as int, issue_price(vault), decimals as nat)
}

/// The bond price after a deposit of `amount`.
pub open spec fn price_after_deposit(vault: Vault, decimals: u8, amount: u64) -> int {
    bond_price_of(
        vault.deposit_value + amount,
        vault.tvl + amount,
        vault.bond_supply + minted(vault, decimals, amount),
    )
}

/// The shares have a price, and every new total can be recorded.
pub open spec fn deposit_fits(vault: Vault, user: User, decimals: u8, amount: u64) -> bool {
    &&& issue_price(vault) > 0
    &&& vault.tvl + amount <= u64::MAX
    &&& vault.bond_supply + minted(vault, decimals, amount) <= u64::MAX
    &&& user.deposit_value + amount <= u64::MAX
    &&& user.bond_amount + minted(vault, decimals, amount) <= u64::MAX
}

/// Why a deposit is refused, if it is.
pub open spec fn deposit_error(vault: Vault, user: User, decimals: u8, amount: u64) -> Option<
    VaultError,
> {
    if vault.is_terminated() {
        Some(VaultError::VaultTerminated)
    } else if amount == 0 {
        Some(VaultError::InsufficientDeposit)
    } else if !vault.covers_principal() {
        Some(VaultError::InvariantViolated)
    } else if !deposit_fits(vault, user, decimals, amount) {
        Some(VaultError::ArithmeticError)
    } else {
        None
    }
}

/// The vault after an accepted deposit.
pub open spec fn deposited_vault(vault: Vault, decimals: u8, amount: u64) -> Vault {
    vault.with_totals(
        vault.tvl + amount,
        vault.deposit_value + amount,
        vault.bond_supply + minted(vault, decimals, amount),
        price_after_deposit(vault, decimals, amount),
    )
}

/// The depositor's position after an accepted deposit made at `now`.
pub open spec fn deposited_user(vault: Vault, user: User, decimals: u8, amount: u64, now: i64)
    -> User {
    User {
        deposit_value: (user.deposit_value + amount) as u64,
        bond_amount: (user.bond_amount + minted(vault, decimals, amount)) as u64,
        deposit_time: now,
    }
}

/// The custody calls of an accepted deposit: the payment into the vault,
/// then the issue of the shares.
pub open spec fn deposit_calls(vault: Vault, decimals: u8, amount: u64) -> Seq<CustodyCall> {
    seq![
        CustodyCall::Transfer {
            from: Holder::Depositor,
            to: Holder::Vault,
            authority: crate::custody::Authority::Owner,
            amount,
        },
        CustodyCall::Mint { to: Holder::Depositor, amount: minted(vault, decimals, amount) as u64 },
    ]
}

/// Takes a deposit of `params.amount` at time `now`.
///
/// The shares are priced before the deposit is added. An accepted deposit
/// adds the amount to the vault's value and principal and to the depositor's
/// principal, adds the shares to the supply and to the depositor's shares,
/// restarts the depositor's lock period and reprices the bond. A refused one
/// changes nothing.
pub fn deposit(ctx: &mut Deposit, params: DepositParams, now: i64) -> (outcome: Result<
    Vec<CustodyCall>,
    VaultError,
>)
    ensures
        final(ctx).depositor == old(ctx).depositor,
        final(ctx).mint_decimals == old(ctx).mint_decimals,
        match deposit_error(old(ctx).vault, old(ctx).user, old(ctx).mint_decimals, params.amount) {
            Some(e) => outcome == Err::<Vec<CustodyCall>, VaultError>(e) && *final(ctx) == *old(ctx),
            None => {
                &&& outcome.is_ok()
                &&& outcome.unwrap()@ == deposit_calls(
                    old(ctx).vault,
                    old(ctx).mint_decimals,
                    params.amount,
                )
                &&& final(ctx).vault == deposited_vault(
                    old(ctx).vault,
                    old(ctx).mint_decimals,
                    params.amount,
                )
                &&& final(ctx).user == deposited_user(
                    old(ctx).vault,
                    old(ctx).user,
                    old(ctx).mint_decimals,
                    params.amount,
                    now,
                )
            },
        },
        old(ctx).vault.covers_principal() ==> final(ctx).vault.covers_principal(),
        old(ctx).vault.is_terminated() ==> final(ctx).vault.is_terminated(),
        outcome.is_ok() ==> final(ctx).vault.well_formed(),
        outcome.is_ok() ==> final(ctx).vault.bond_supply - old(ctx).vault.bond_supply == final(ctx).user.bond_amount - old(ctx).user.bond_amount,
{
    let amount = params.amount;
    if ctx.vault.has_ended() {
        return Err(VaultError::VaultTerminated);
    }
    if amount == 0 {
        return Err(VaultError::InsufficientDeposit);
    }
    if ctx.vault.tvl < ctx.vault.deposit_value {
        return Err(VaultError::InvariantViolated);
    }
    let price: u64 = if ctx.vault.bond_supply == 0 {
        GENESIS_BOND_PRICE
    } else {
        ctx.vault.bond_price
    };
    let bond_amount = match bond_amount_for(amount, price, ctx.mint_decimals) {
        Some(shares) => shares,
        None => { return Err(VaultError::ArithmeticError); },
    };
    let tvl = match ctx.vault.tvl.checked_add(amount) {
        Some(sum) => sum,
        None => { return Err(VaultError::ArithmeticError); },
    };
    let deposit_value: u64 = ctx.vault.deposit_value + amount;
    let bond_supply = match ctx.vault.bond_supply.checked_add(bond_amount) {
        Some(sum) => sum,
        None => { return Err(VaultError::ArithmeticError); },
    };
    let user_value = match ctx.user.deposit_value.checked_add(amount) {
        Some(sum) => sum,
        None => { return Err(VaultError::ArithmeticError); },
    };
    let user_bonds = match ctx.user.bond_amount.checked_add(bond_amount) {
        Some(sum) => sum,
        None => { return Err(VaultError::ArithmeticError); },
    };
    let new_price = match bond_price(deposit_value, tvl, bond_supply) {
        Some(p) => p,
        None => { return Err(VaultError::ArithmeticError); },
    };
    let mut calls: Vec<CustodyCall> = Vec::new();
    calls.push(ctx.vault.transfer_tokens_from_user(Holder::Depositor, Holder::Vault, amount));
    calls.push(CustodyCall::Mint { to: Holder::Depositor, amount: bond_amount });

    ctx.vault.tvl = tvl;
    ctx.vault.deposit_value = deposit_value;
    ctx.vault.bond_supply = bond_supply;
    ctx.vault.bond_price = new_price;
    ctx.user.deposit_value = user_value;
    ctx.user.bond_amount = user_bonds;
    ctx.user.deposit_time = now;
    proof {
        assert(calls@ =~= deposit_calls(old(ctx).vault, old(ctx).mint_decimals, amount));
    }
    Ok(calls)
}

} // verus!
