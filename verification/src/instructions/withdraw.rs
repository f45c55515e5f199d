//! Withdrawals: a depositor takes principal back once the lock period of
//! the latest deposit is over. A leader who withdraws also collects the
//! performance fee.

use vstd::prelude::*;
use crate::constants::LOCK_SECONDS;
use crate::custody::{Authority, CustodyCall, Holder};
use crate::error::VaultError;
use crate::identity::Identity;
use crate::pricing::{
    bond_amount_for,
    bond_price,
    bond_price_of,
    bond_quantity,
    lemma_bond_quantity_nonnegative,
    performance_fee,
    performance_fee_of,
};
use crate::state::user::User;
use crate::state::vault::Vault;

verus! {

/// The records that a withdrawal works on.
#[derive(Clone, Debug, PartialEq, Eq)]
pub struct Withdraw {
    pub vault: Vault,
    /// The withdrawer's position in `vault`.
    pub user: User,
    /// Who withdraws.
    pub depositor: Identity,
    /// Decimal places of the bond share token.
    pub mint_decimals: u8,
}

#[derive(Clone, Copy, Debug, PartialEq, Eq, Structural)]
pub struct WithdrawParams {
    /// What the depositor asks for, in the payment asset.
    pub amount: u64,
}

/// The lock policy: a deposit made at `deposit_time` is locked at `now` while
/// fewer than `LOCK_SECONDS` seconds have passed since.
pub open spec fn is_locked(deposit_time: i64, now: i64) -> bool {
    now < deposit_time + LOCK_SECONDS
}

/// The performance fee that a withdrawal pays out: a tenth of the profit if
/// the leader withdraws, nothing otherwise.
pub open spec fn withdrawal_fee(vault: Vault, by_leader: bool) -> int {
    if by_leader {
        performance_fee_of(vault.deposit_value as int, vault.tvl as int)
    } else {
        0
    }
}

/// The shares that a withdrawal of `amount` retires, at the vault's price
/// before the withdrawal: those for the amount and those for the fee.
pub open spec fn retired(vault: Vault, decimals: u8, by_leader: bool, amount: u64) -> int {
    bond_quantity(amount as int, vault.bond_price as int, decimals as nat) + bond_quantity(
        withdrawal_fee(vault, by_leader),
        vault.bond_price as int,
        decimals as nat,
    )
}

/// The bond price after a withdrawal of `amount`.
pub open spec fn price_after_withdraw(vault: Vault, decimals: u8, by_leader: bool, amount: u64)
    -> int {
    bond_price_of(
        vault.deposit_value - amount,
        vault.tvl - amount - withdrawal_fee(vault, by_leader),
        vault.bond_supply - retired(vault, decimals, by_leader, amount),
    )
}

/// The shares have a price, and the ledger holds what is to be taken from
/// it.
pub open spec fn withdraw_fits(
    vault: Vault,
    user: User,
    decimals: u8,
    by_leader: bool,
    amount: u64,
) -> bool {
    &&& vault.bond_price > 0
    &&& retired(vault, decimals, by_leader, amount) <= user.bond_amount
    &&& retired(vault, decimals, by_leader, amount) <= vault.bond_supply
    &&& amount <= vault.deposit_value
}

/// Why a withdrawal is refused, if it is.
pub open spec fn withdraw_error(
    vault: Vault,
    user: User,
    decimals: u8,
    by_leader: bool,
    amount: u64,
    now: i64,
) -> Option<VaultError> {
    if vault.is_terminated() {
        Some(VaultError::VaultTerminated)
    } else if is_locked(user.deposit_time, now) {
        Some(VaultError::LockPeriodNotOver)
    } else if amount > user.deposit_value {
        Some(VaultError::InsufficientFunds)
    } else if !vault.covers_principal() {
        Some(VaultError::InvariantViolated)
    } else if !withdraw_fits(vault, user, decimals, by_leader, amount) {
        Some(VaultError::ArithmeticError)
    } else {
        None
    }
}

/// The vault after an accepted withdrawal.
pub open spec fn withdrawn_vault(vault: Vault, decimals: u8, by_leader: bool, amount: u64)
    -> Vault {
    vault.with_totals(
        vault.tvl - amount - withdrawal_fee(vault, by_leader),
        vault.deposit_value - amount,
        vault.bond_supply - retired(vault, decimals, by_leader, amount),
        price_after_withdraw(vault, decimals, by_leader, amount),
    )
}

/// The withdrawer's position after an accepted withdrawal.
pub open spec fn withdrawn_user(
    vault: Vault,
    user: User,
    decimals: u8,
    by_leader: bool,
    amount: u64,
) -> User {
    User {
        deposit_value: (user.deposit_value - amount) as u64,
        bond_amount: (user.bond_amount - retired(vault, decimals, by_leader, amount)) as u64,
        deposit_time: user.deposit_time,
    }
}

/// The payment of `amount` out of the vault's custody to the depositor.
pub open spec fn payout_call(vault: Vault, amount: int) -> CustodyCall {
    CustodyCall::Transfer {
        from: Holder::Vault,
        to: Holder::Depositor,
        authority: Authority::VaultAuthority { bump: vault.vault_authority_bump },
        amount: amount as u64,
    }
}

/// The custody calls of an accepted withdrawal: the payment of the amount,
/// for the leader the payment of the fee, then the burn of the shares.
pub open spec fn withdraw_calls(vault: Vault, decimals: u8, by_leader: bool, amount: u64) -> Seq<
    CustodyCall,
> {
    let burn = CustodyCall::Burn {
        from: Holder::Depositor,
        amount: retired(vault, decimals, by_leader, amount) as u64,
    };
    if by_leader {
        seq![
            payout_call(vault, amount as int),
            payout_call(vault, withdrawal_fee(vault, true)),
            burn,
        ]
    } else {
        seq![payout_call(vault, amount as int), burn]
    }
}

/// Whether a deposit made at `deposit_time` is still locked at `now`.
pub fn lock_holds(deposit_time: i64, now: i64) -> (locked: bool)
    ensures
        locked == is_locked(deposit_time, now),
{
    match deposit_time.checked_add(LOCK_SECONDS) {
        Some(end) => now < end,
        None => true,
    }
}

/// Takes a withdrawal of `params.amount` at time `now`.
///
/// The shares are priced before the withdrawal. An accepted withdrawal takes
/// the amount from the vault's value and principal and from the depositor's
/// principal, takes the retired shares from the supply and from the
/// depositor's shares, and reprices the bond. If the depositor is the vault's
/// leader, the performance fee leaves the vault's value too, and the shares
/// that stand for it are retired with the others. A refused withdrawal changes
/// nothing.
pub fn withdraw(ctx: &mut Withdraw, params: WithdrawParams, now: i64) -> (outcome: Result<
    Vec<CustodyCall>,
    VaultError,
>)
    ensures
        final(ctx).depositor == old(ctx).depositor,
        final(ctx).mint_decimals == old(ctx).mint_decimals,
        match withdraw_error(
            old(ctx).vault,
            old(ctx).user,
            old(ctx).mint_decimals,
            old(ctx).depositor == old(ctx).vault.leader,
            params.amount,
            now,
        ) {
            Some(e) => outcome == Err::<Vec<CustodyCall>, VaultError>(e) && *final(ctx) == *old(ctx),
            None => {
                &&& outcome.is_ok()
                &&& outcome.unwrap()@ == withdraw_calls(
                    old(ctx).vault,
                    old(ctx).mint_decimals,
                    old(ctx).depositor == old(ctx).vault.leader,
                    params.amount,
                )
                &&& final(ctx).vault == withdrawn_vault(
                    old(ctx).vault,
                    old(ctx).mint_decimals,
                    old(ctx).depositor == old(ctx).vault.leader,
                    params.amount,
                )
                &&& final(ctx).user == withdrawn_user(
                    old(ctx).vault,
                    old(ctx).user,
                    old(ctx).mint_decimals,
                    old(ctx).depositor == old(ctx).vault.leader,
                    params.amount,
                )
            },
        },
        old(ctx).vault.covers_principal() ==> final(ctx).vault.covers_principal(),
        old(ctx).vault.is_terminated() ==> final(ctx).vault.is_terminated(),
        outcome.is_ok() ==> final(ctx).vault.well_formed(),
        outcome.is_ok() ==> old(ctx).vault.bond_supply - final(ctx).vault.bond_supply == old(
            ctx
        ).user.bond_amount - final(ctx).user.bond_amount,
        outcome.is_ok() && old(ctx).depositor == old(ctx).vault.leader ==> old(ctx).vault.tvl
            - final(ctx).vault.tvl == params.amount + (old(ctx).vault.tvl - old(
            ctx
        ).vault.deposit_value) / 10,
        outcome.is_ok() && old(ctx).depositor != old(ctx).vault.leader ==> old(ctx).vault.tvl
            - final(ctx).vault.tvl == params.amount,
{
    let amount = params.amount;
    let price = ctx.vault.bond_price;
    let decimals = ctx.mint_decimals;
    if ctx.vault.has_ended() {
        return Err(VaultError::VaultTerminated);
    }
    if lock_holds(ctx.user.deposit_time, now) {
        return Err(VaultError::LockPeriodNotOver);
    }
    if amount > ctx.user.deposit_value {
        return Err(VaultError::InsufficientFunds);
    }
    let profit_fee = match performance_fee(ctx.vault.deposit_value, ctx.vault.tvl) {
        Some(fee) => fee,
        None => { return Err(VaultError::InvariantViolated); },
    };
    let by_leader = ctx.vault.is_leader(&ctx.depositor);
    let fee: u64 = if by_leader { profit_fee } else { 0 };
    if price == 0 {
        return Err(VaultError::ArithmeticError);
    }
    proof {
        lemma_bond_quantity_nonnegative(amount as int, price as int, decimals as nat);
        lemma_bond_quantity_nonnegative(fee as int, price as int, decimals as nat);
    }
    let amount_bonds = match bond_amount_for(amount, price, decimals) {
        Some(shares) => shares,
        None => { return Err(VaultError::ArithmeticError); },
    };
    let fee_bonds = match bond_amount_for(fee, price, decimals) {
        Some(shares) => shares,
        None => { return Err(VaultError::ArithmeticError); },
    };
    let bond_value = match amount_bonds.checked_add(fee_bonds) {
        Some(sum) => sum,
        None => { return Err(VaultError::ArithmeticError); },
    };
    if bond_value > ctx.user.bond_amount || bond_value > ctx.vault.bond_supply || amount
        > ctx.vault.deposit_value {
        return Err(VaultError::ArithmeticError);
    }
    let tvl: u64 = ctx.vault.tvl - fee - amount;
    let deposit_value: u64 = ctx.vault.deposit_value - amount;
    let bond_supply: u64 = ctx.vault.bond_supply - bond_value;
    let new_price = match bond_price(deposit_value, tvl, bond_supply) {
        Some(p) => p,
        None => { return Err(VaultError::ArithmeticError); },
    };
    let mut calls: Vec<CustodyCall> = Vec::new();
    calls.push(ctx.vault.transfer_tokens(Holder::Vault, Holder::Depositor, amount));
    if by_leader {
        calls.push(ctx.vault.transfer_tokens(Holder::Vault, Holder::Depositor, fee));
    }
    calls.push(CustodyCall::Burn { from: Holder::Depositor, amount: bond_value });

    ctx.user.bond_amount = ctx.user.bond_amount - bond_value;
    ctx.user.deposit_value = ctx.user.deposit_value - amount;
    ctx.vault.tvl = tvl;
    ctx.vault.deposit_value = deposit_value;
    ctx.vault.bond_supply = bond_supply;
    ctx.vault.bond_price = new_price;
    proof {
        assert(calls@ =~= withdraw_calls(old(ctx).vault, decimals, by_leader, amount));
    }
    Ok(calls)
}

} // verus!
