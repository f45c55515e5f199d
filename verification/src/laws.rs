//! What holds of the processors taken together.
//!
//! The laws speak of the specification functions by which the processors'
//! own contracts say what an accepted operation does and when an operation is
//! refused.

use vstd::prelude::*;
use crate::constants::{GENESIS_BOND_PRICE, MIN_INITIAL_DEPOSIT};
use crate::error::VaultError;
use crate::identity::Identity;
use crate::instructions::close_position::{close_position_error, closed_user, closed_vault};
use crate::instructions::deposit::{
    deposit_error,
    deposited_user,
    deposited_vault,
    issue_price,
    minted,
};
use crate::instructions::init_deposit::{init_deposit_error, opened_user, opened_vault};
use crate::instructions::initialize_vault::{created_vault, InitializeVault};
use crate::instructions::pause_trading::paused;
use crate::instructions::start_trading::resumed;
use crate::instructions::terminate_vault::terminated;
use crate::instructions::withdraw::{
    is_locked,
    payout_call,
    retired,
    withdraw_calls,
    withdraw_error,
    withdrawal_fee,
    withdrawn_user,
    withdrawn_vault,
};
use crate::pricing::{
    accruing_value_of,
    bond_price_of,
    bond_quantity,
    lemma_bond_price_bounds,
    lemma_bond_quantity_nonnegative,
    lemma_first_purchase_keeps_quantity,
    lemma_purchase_keeps_quantity,
    lemma_quotient_between,
    share_scale,
};
use crate::state::user::{
    lemma_total_bonds_bounds,
    lemma_total_bonds_of_none,
    lemma_total_bonds_update,
    total_bonds,
    User,
};
use crate::state::vault::{Phase, Vault};

verus! {

/// One operation that moves shares, addressed to the position at index
/// `position` of the vault's positions.
pub enum Order {
    /// The first deposit, which `depositor` makes.
    Open { position: usize, depositor: Identity, strategy_id: String, amount: u64, now: i64 },
    Deposit { position: usize, amount: u64, now: i64 },
    Withdraw { position: usize, depositor: Identity, amount: u64, now: i64 },
    /// The closing of the position of `depositor`, which `caller` orders.
    Close { position: usize, caller: Identity, depositor: Identity },
}

/// The vault and its positions after `order`. A refused order, and one for a
/// position that does not exist, leaves both as they were.
pub open spec fn after_order(vault: Vault, users: Seq<User>, decimals: u8, order: Order) -> (
    Vault,
    Seq<User>,
) {
    match order {
        Order::Open { position, depositor, strategy_id, amount, now } => {
            if position < users.len() && init_deposit_error(
                vault,
                depositor == vault.leader,
                decimals,
                amount,
            ).is_none() {
                (
                    opened_vault(vault, strategy_id, decimals, amount),
                    users.update(position as int, opened_user(vault, decimals, amount, now)),
                )
            } else {
                (vault, users)
            }
        },
        Order::Close { position, caller, depositor } => {
            if position < users.len() && close_position_error(
                vault,
                users[position as int],
                caller == vault.leader,
                depositor == vault.leader,
            ).is_none() {
                (
                    closed_vault(vault, users[position as int], depositor == vault.leader),
                    users.update(position as int, closed_user(users[position as int])),
                )
            } else {
                (vault, users)
            }
        },
        Order::Deposit { position, amount, now } => {
            if position < users.len() && deposit_error(
                vault,
                users[position as int],
                decimals,
                amount,
            ).is_none() {
                (
                    deposited_vault(vault, decimals, amount),
                    users.update(
                        position as int,
                        deposited_user(vault, users[position as int], decimals, amount, now),
                    ),
                )
            } else {
                (vault, users)
            }
        },
        Order::Withdraw { position, depositor, amount, now } => {
            let by_leader = depositor == vault.leader;
            if position < users.len() && withdraw_error(
                vault,
                users[position as int],
                decimals,
                by_leader,
                amount,
                now,
            ).is_none() {
                (
                    withdrawn_vault(vault, decimals, by_leader, amount),
                    users.update(
                        position as int,
                        withdrawn_user(vault, users[position as int], decimals, by_leader, amount),
                    ),
                )
            } else {
                (vault, users)
            }
        },
    }
}

/// The vault and its positions after all of `orders`, taken in turn.
pub open spec fn after_orders(vault: Vault, users: Seq<User>, decimals: u8, orders: Seq<Order>)
    -> (Vault, Seq<User>)
    decreases orders.len(),
{
    if orders.len() == 0 {
        (vault, users)
    } else {
        let before = after_orders(vault, users, decimals, orders.drop_last());
        after_order(before.0, before.1, decimals, orders.last())
    }
}

/// An accepted deposit leaves a vault in use whose totals are those that the
/// deposit asks for, and gives the shares it issues to the depositor.
pub proof fn lemma_deposit_accounts(vault: Vault, user: User, decimals: u8, amount: u64, now: i64)
    requires
        deposit_error(vault, user, decimals, amount).is_none(),
    ensures
        minted(vault, decimals, amount) >= 0,
        deposited_vault(vault, decimals, amount).well_formed(),
        deposited_vault(vault, decimals, amount).tvl == vault.tvl + amount,
        deposited_vault(vault, decimals, amount).deposit_value == vault.deposit_value + amount,
        deposited_vault(vault, decimals, amount).bond_supply == vault.bond_supply + minted(
            vault,
            decimals,
            amount,
        ),
        deposited_user(vault, user, decimals, amount, now).bond_amount == user.bond_amount
            + minted(vault, decimals, amount),
        deposited_user(vault, user, decimals, amount, now).deposit_value == user.deposit_value
            + amount,
{
    lemma_bond_quantity_nonnegative(amount as int, issue_price(vault), decimals as nat);
    lemma_bond_price_bounds(
        vault.deposit_value + amount,
        vault.tvl + amount,
        vault.bond_supply + minted(vault, decimals, amount),
    );
}

/// An accepted withdrawal leaves a vault in use whose totals are those that
/// the withdrawal asks for, and takes the shares it retires from the
/// withdrawer. The vault's value goes down by the amount and the fee.
pub proof fn lemma_withdraw_accounts(
    vault: Vault,
    user: User,
    decimals: u8,
    by_leader: bool,
    amount: u64,
    now: i64,
)
    requires
        withdraw_error(vault, user, decimals, by_leader, amount, now).is_none(),
    ensures
        retired(vault, decimals, by_leader, amount) >= 0,
        0 <= withdrawal_fee(vault, by_leader) <= vault.tvl - vault.deposit_value,
        withdrawn_vault(vault, decimals, by_leader, amount).well_formed(),
        withdrawn_vault(vault, decimals, by_leader, amount).tvl == vault.tvl - amount
            - withdrawal_fee(vault, by_leader),
        withdrawn_vault(vault, decimals, by_leader, amount).deposit_value == vault.deposit_value
            - amount,
        withdrawn_vault(vault, decimals, by_leader, amount).bond_supply == vault.bond_supply
            - retired(vault, decimals, by_leader, amount),
        withdrawn_user(vault, user, decimals, by_leader, amount).bond_amount == user.bond_amount
            - retired(vault, decimals, by_leader, amount),
        withdrawn_user(vault, user, decimals, by_leader, amount).deposit_value
            == user.deposit_value - amount,
{
    let fee = withdrawal_fee(vault, by_leader);
    lemma_bond_quantity_nonnegative(amount as int, vault.bond_price as int, decimals as nat);
    lemma_bond_quantity_nonnegative(fee, vault.bond_price as int, decimals as nat);
    lemma_bond_price_bounds(
        vault.deposit_value - amount,
        vault.tvl - amount - fee,
        vault.bond_supply - retired(vault, decimals, by_leader, amount),
    );
}

/// A first deposit, a deposit, a withdrawal or a closing keeps the books: if
/// the bond supply is the sum of the shares of all positions before it, it is
/// so after it, and a vault whose value covers its principal still does.
pub proof fn lemma_order_keeps_books(vault: Vault, users: Seq<User>, decimals: u8, order: Order)
    ensures
        after_order(vault, users, decimals, order).1.len() == users.len(),
        total_bonds(users) == vault.bond_supply ==> total_bonds(
            after_order(vault, users, decimals, order).1,
        ) == after_order(vault, users, decimals, order).0.bond_supply,
        vault.covers_principal() ==> after_order(vault, users, decimals, order).0.covers_principal(),
        vault.is_terminated() ==> after_order(vault, users, decimals, order).0.is_terminated(),
{
    match order {
        Order::Open { position, depositor, strategy_id, amount, now } => {
            if position < users.len() && init_deposit_error(
                vault,
                depositor == vault.leader,
                decimals,
                amount,
            ).is_none() {
                lemma_bond_quantity_nonnegative(amount as int, issue_price(vault), decimals as nat);
                lemma_bond_price_bounds(
                    vault.deposit_value + amount,
                    vault.tvl + amount,
                    vault.bond_supply + minted(vault, decimals, amount),
                );
                lemma_total_bonds_bounds(users, position as int);
                lemma_total_bonds_update(
                    users,
                    position as int,
                    opened_user(vault, decimals, amount, now),
                );
            }
        },
        Order::Close { position, caller, depositor } => {
            let of_leader = depositor == vault.leader;
            if position < users.len() && close_position_error(
                vault,
                users[position as int],
                caller == vault.leader,
                of_leader,
            ).is_none() {
                let user = users[position as int];
                lemma_bond_price_bounds(
                    vault.deposit_value - user.deposit_value,
                    vault.tvl - user.deposit_value - withdrawal_fee(vault, of_leader),
                    vault.bond_supply - user.bond_amount,
                );
                lemma_total_bonds_update(users, position as int, closed_user(user));
            }
        },
        Order::Deposit { position, amount, now } => {
            if position < users.len() && deposit_error(
                vault,
                users[position as int],
                decimals,
                amount,
            ).is_none() {
                let user = users[position as int];
                lemma_deposit_accounts(vault, user, decimals, amount, now);
                lemma_total_bonds_update(
                    users,
                    position as int,
                    deposited_user(vault, user, decimals, amount, now),
                );
            }
        },
        Order::Withdraw { position, depositor, amount, now } => {
            let by_leader = depositor == vault.leader;
            if position < users.len() && withdraw_error(
                vault,
                users[position as int],
                decimals,
                by_leader,
                amount,
                now,
            ).is_none() {
                let user = users[position as int];
                lemma_withdraw_accounts(vault, user, decimals, by_leader, amount, now);
                lemma_total_bonds_update(
                    users,
                    position as int,
                    withdrawn_user(vault, user, decimals, by_leader, amount),
                );
            }
        },
    }
}

/// Any sequence of first deposits, deposits, withdrawals and closings keeps
/// the books: after every one of them the bond supply is the sum of the
/// shares of all positions, if it was so at the start, and the vault's value
/// covers its principal, if it did at the start.
pub proof fn lemma_orders_keep_books(
    vault: Vault,
    users: Seq<User>,
    decimals: u8,
    orders: Seq<Order>,
)
    ensures
        after_orders(vault, users, decimals, orders).1.len() == users.len(),
        total_bonds(users) == vault.bond_supply ==> total_bonds(
            after_orders(vault, users, decimals, orders).1,
        ) == after_orders(vault, users, decimals, orders).0.bond_supply,
        vault.covers_principal() ==> after_orders(
            vault,
            users,
            decimals,
            orders,
        ).0.covers_principal(),
        vault.is_terminated() ==> after_orders(vault, users, decimals, orders).0.is_terminated(),
    decreases orders.len(),
{
    if orders.len() > 0 {
        lemma_orders_keep_books(vault, users, decimals, orders.drop_last());
        let before = after_orders(vault, users, decimals, orders.drop_last());
        lemma_order_keeps_books(before.0, before.1, decimals, orders.last());
    }
}

/// From the creation of a vault on, whatever first deposits, deposits,
/// withdrawals and closings follow: if no position held a share when the
/// vault was created, the bond supply is the sum of the shares of all
/// positions, and the vault's value covers its principal.
pub proof fn lemma_books_since_creation(
    binding: InitializeVault,
    strategy_id: String,
    users: Seq<User>,
    decimals: u8,
    orders: Seq<Order>,
)
    requires
        forall|i: int| 0 <= i < users.len() ==> users[i].bond_amount == 0,
    ensures
        total_bonds(after_orders(created_vault(binding, strategy_id), users, decimals, orders).1)
            == after_orders(
            created_vault(binding, strategy_id),
            users,
            decimals,
            orders,
        ).0.bond_supply,
        after_orders(
            created_vault(binding, strategy_id),
            users,
            decimals,
            orders,
        ).0.covers_principal(),
{
    lemma_total_bonds_of_none(users);
    lemma_orders_keep_books(created_vault(binding, strategy_id), users, decimals, orders);
}

/// The first deposit into a new vault is refused as insufficient exactly
/// when it is below the floor, whatever the share token.
pub proof fn lemma_first_deposit_below_floor(
    binding: InitializeVault,
    strategy_id: String,
    decimals: u8,
    initial_deposit: u64,
)
    ensures
        initial_deposit < MIN_INITIAL_DEPOSIT <==> init_deposit_error(
            created_vault(binding, strategy_id),
            true,
            decimals,
            initial_deposit,
        ) == Some(VaultError::InsufficientDeposit),
{
}

/// The first deposit into a new vault is accepted whenever it reaches the
/// floor and its shares can be recorded. The leader is given
/// `floor(deposit / genesis price) * 10^decimals` shares, which are the whole
/// supply, and the vault's value and principal are the deposit.
pub proof fn lemma_first_deposit_is_accepted(
    binding: InitializeVault,
    strategy_id: String,
    decimals: u8,
    initial_deposit: u64,
    now: i64,
)
    requires
        initial_deposit >= MIN_INITIAL_DEPOSIT,
        bond_quantity(initial_deposit as int, GENESIS_BOND_PRICE as int, decimals as nat)
            <= u64::MAX,
    ensures
        init_deposit_error(
            created_vault(binding, strategy_id),
            true,
            decimals,
            initial_deposit,
        ).is_none(),
        opened_vault(created_vault(binding, strategy_id), strategy_id, decimals, initial_deposit)
            == (Vault {
            tvl: initial_deposit,
            deposit_value: initial_deposit,
            bond_supply: bond_quantity(
                initial_deposit as int,
                GENESIS_BOND_PRICE as int,
                decimals as nat,
            ) as u64,
            bond_price: bond_price_of(
                initial_deposit as int,
                initial_deposit as int,
                bond_quantity(initial_deposit as int, GENESIS_BOND_PRICE as int, decimals as nat),
            ) as u64,
            ..created_vault(binding, strategy_id)
        }),
        opened_user(created_vault(binding, strategy_id), decimals, initial_deposit, now) == (User {
            deposit_value: initial_deposit,
            bond_amount: bond_quantity(
                initial_deposit as int,
                GENESIS_BOND_PRICE as int,
                decimals as nat,
            ) as u64,
            deposit_time: now,
        }),
        opened_vault(
            created_vault(binding, strategy_id),
            strategy_id,
            decimals,
            initial_deposit,
        ).well_formed(),
{
    let vault = created_vault(binding, strategy_id);
    assert(issue_price(vault) == GENESIS_BOND_PRICE);
    let shares = minted(vault, decimals, initial_deposit);
    lemma_bond_quantity_nonnegative(
        initial_deposit as int,
        GENESIS_BOND_PRICE as int,
        decimals as nat,
    );
    lemma_bond_price_bounds(initial_deposit as int, initial_deposit as int, shares);
}

/// With a share token of six decimal places, as many as the payment asset
/// counts, the first deposit into a new vault is taken at par whenever it
/// reaches the floor: it is accepted, the leader is given as many shares as
/// the deposit holds in whole units of the payment asset, which is the
/// deposit itself where it is a whole number of units, and the bond price is
/// one.
pub proof fn lemma_first_deposit_at_par(
    binding: InitializeVault,
    strategy_id: String,
    initial_deposit: u64,
    now: i64,
)
    requires
        initial_deposit >= MIN_INITIAL_DEPOSIT,
    ensures
        init_deposit_error(created_vault(binding, strategy_id), true, 6, initial_deposit).is_none(),
        opened_vault(created_vault(binding, strategy_id), strategy_id, 6, initial_deposit)
            == (Vault {
            tvl: initial_deposit,
            deposit_value: initial_deposit,
            bond_supply: (initial_deposit - initial_deposit % 1_000_000) as u64,
            bond_price: 1,
            ..created_vault(binding, strategy_id)
        }),
        opened_user(created_vault(binding, strategy_id), 6, initial_deposit, now) == (User {
            deposit_value: initial_deposit,
            bond_amount: (initial_deposit - initial_deposit % 1_000_000) as u64,
            deposit_time: now,
        }),
        initial_deposit % 1_000_000 == 0 ==> opened_user(
            created_vault(binding, strategy_id),
            6,
            initial_deposit,
            now,
        ).bond_amount == initial_deposit,
{
    let deposit = initial_deposit as int;
    let shares = bond_quantity(deposit, GENESIS_BOND_PRICE as int, 6);
    assert(share_scale(6) == 1_000_000) by {
        reveal_with_fuel(share_scale, 7);
    }
    assert(shares == deposit - deposit % 1_000_000);
    lemma_quotient_between(deposit, shares, 1);
    assert(bond_price_of(deposit, deposit, shares) == 1);
    lemma_first_deposit_is_accepted(binding, strategy_id, 6, initial_deposit, now);
}

/// An accepted withdrawal by the leader pays the performance fee of exactly
/// a tenth of the profit, in a custody call of its own, and takes the amount
/// and the fee out of the vault's value. Another depositor's withdrawal takes
/// out the amount alone.
pub proof fn lemma_leader_withdrawal_pays_fee(
    vault: Vault,
    user: User,
    decimals: u8,
    by_leader: bool,
    amount: u64,
    now: i64,
)
    requires
        withdraw_error(vault, user, decimals, by_leader, amount, now).is_none(),
    ensures
        by_leader ==> vault.tvl - withdrawn_vault(vault, decimals, true, amount).tvl == amount + (
        vault.tvl - vault.deposit_value) / 10,
        by_leader ==> withdraw_calls(vault, decimals, true, amount)[1] == payout_call(
            vault,
            (vault.tvl - vault.deposit_value) / 10,
        ),
        !by_leader ==> vault.tvl - withdrawn_vault(vault, decimals, false, amount).tvl == amount,
{
    lemma_withdraw_accounts(vault, user, decimals, by_leader, amount, now);
}

/// A withdrawal that comes before the lock period of an accepted deposit has
/// run out is refused for that reason, whatever its amount.
pub proof fn lemma_withdraw_waits_for_lock(
    vault: Vault,
    user: User,
    decimals: u8,
    by_leader: bool,
    deposited: u64,
    deposited_at: i64,
    asked: u64,
    now: i64,
)
    requires
        deposit_error(vault, user, decimals, deposited).is_none(),
        is_locked(deposited_at, now),
    ensures
        withdraw_error(
            deposited_vault(vault, decimals, deposited),
            deposited_user(vault, user, decimals, deposited, deposited_at),
            decimals,
            by_leader,
            asked,
            now,
        ) == Some(VaultError::LockPeriodNotOver),
{
    lemma_deposit_accounts(vault, user, decimals, deposited, deposited_at);
}

/// A deposit into a vault in use, withdrawn in full once its lock period is
/// over, is undone: the withdrawal is accepted, the vault is as it was before
/// the deposit, and so is the position but for the time of its last deposit.
///
/// This is stated for a deposit that leaves the shares with a price, and for
/// a withdrawal on which no performance fee falls and which retires as many
/// shares as the deposit was given.
pub proof fn lemma_deposit_then_withdraw_round_trip(
    vault: Vault,
    user: User,
    decimals: u8,
    by_leader: bool,
    amount: u64,
    deposited_at: i64,
    now: i64,
)
    requires
        vault.well_formed(),
        deposit_error(vault, user, decimals, amount).is_none(),
        !is_locked(deposited_at, now),
        deposited_vault(vault, decimals, amount).bond_price > 0,
        withdrawal_fee(deposited_vault(vault, decimals, amount), by_leader) == 0,
        bond_quantity(
            amount as int,
            deposited_vault(vault, decimals, amount).bond_price as int,
            decimals as nat,
        ) == minted(vault, decimals, amount),
    ensures
        withdraw_error(
            deposited_vault(vault, decimals, amount),
            deposited_user(vault, user, decimals, amount, deposited_at),
            decimals,
            by_leader,
            amount,
            now,
        ).is_none(),
        withdrawn_vault(deposited_vault(vault, decimals, amount), decimals, by_leader, amount)
            == vault,
        withdrawn_user(
            deposited_vault(vault, decimals, amount),
            deposited_user(vault, user, decimals, amount, deposited_at),
            decimals,
            by_leader,
            amount,
        ) == (User { deposit_time: deposited_at, ..user }),
{
    lemma_deposit_accounts(vault, user, decimals, amount, deposited_at);
    let funded = deposited_vault(vault, decimals, amount);
    lemma_bond_quantity_nonnegative(0, funded.bond_price as int, decimals as nat);
    assert(retired(funded, decimals, by_leader, amount) == minted(vault, decimals, amount));
}

/// With a share token of no decimal places, a deposit into a vault in use
/// whose shares have a price and that holds nothing without shares,
/// withdrawn in full once its lock period is over, is undone whenever no
/// performance fee falls on the withdrawal: the withdrawal is accepted, the
/// vault is as it was before the deposit, and so is the position but for the
/// time of its last deposit.
pub proof fn lemma_whole_share_round_trip(
    vault: Vault,
    user: User,
    by_leader: bool,
    amount: u64,
    deposited_at: i64,
    now: i64,
)
    requires
        vault.well_formed(),
        vault.bond_price > 0,
        vault.empty_without_shares(),
        deposit_error(vault, user, 0, amount).is_none(),
        !is_locked(deposited_at, now),
        withdrawal_fee(deposited_vault(vault, 0, amount), by_leader) == 0,
    ensures
        withdraw_error(
            deposited_vault(vault, 0, amount),
            deposited_user(vault, user, 0, amount, deposited_at),
            0,
            by_leader,
            amount,
            now,
        ).is_none(),
        withdrawn_vault(deposited_vault(vault, 0, amount), 0, by_leader, amount) == vault,
        withdrawn_user(
            deposited_vault(vault, 0, amount),
            deposited_user(vault, user, 0, amount, deposited_at),
            0,
            by_leader,
            amount,
        ) == (User { deposit_time: deposited_at, ..user }),
{
    lemma_deposit_accounts(vault, user, 0, amount, deposited_at);
    let funded = deposited_vault(vault, 0, amount);
    let value = accruing_value_of(vault.deposit_value as int, vault.tvl as int);
    let price = issue_price(vault);
    let whole = (amount as int) / price;
    assert(share_scale(0) == 1);
    assert(minted(vault, 0, amount) == whole) by {
        assert(bond_quantity(amount as int, price, 0) == whole * share_scale(0));
    }
    assert(accruing_value_of(funded.deposit_value as int, funded.tvl as int) == value + amount);
    if vault.bond_supply == 0 {
        assert(value == 0);
        if whole >= 1 {
            lemma_first_purchase_keeps_quantity(amount as int, price);
        }
    } else {
        lemma_purchase_keeps_quantity(value, vault.bond_supply as int, amount as int);
    }
    assert(funded.bond_price > 0);
    assert(bond_quantity(amount as int, funded.bond_price as int, 0) == ((amount as int)
        / (funded.bond_price as int)) * share_scale(0));
    lemma_deposit_then_withdraw_round_trip(vault, user, 0, by_leader, amount, deposited_at, now);
}

/// With a share token of no decimal places, an accepted deposit into a
/// vault in use whose shares have a price does not lower the bond price.
pub proof fn lemma_deposit_keeps_price_up(vault: Vault, user: User, amount: u64)
    requires
        vault.well_formed(),
        vault.bond_supply > 0,
        vault.bond_price > 0,
        deposit_error(vault, user, 0, amount).is_none(),
    ensures
        deposited_vault(vault, 0, amount).bond_price >= vault.bond_price,
{
    lemma_deposit_accounts(vault, user, 0, amount, 0);
    let value = accruing_value_of(vault.deposit_value as int, vault.tvl as int);
    assert(share_scale(0) == 1);
    assert(accruing_value_of(vault.deposit_value + amount, vault.tvl + amount) == value + amount);
    lemma_purchase_keeps_quantity(value, vault.bond_supply as int, amount as int);
}

/// On a vault in use whose shares have a price and whose totals cover the
/// position, a withdrawal that retires no more shares than the position
/// holds is refused for two reasons only: while the position is locked, for
/// the lock; after that, if it asks for more than the position's principal,
/// for want of funds. Every other such withdrawal is accepted.
///
/// Elsewhere a withdrawal that passes both tests is still refused where the
/// vault's value is below its principal, where the bond price is zero, where
/// it would retire more shares than the position or the vault has, and where
/// the vault owes less principal than is asked for.
pub proof fn lemma_withdraw_is_accepted(
    vault: Vault,
    user: User,
    decimals: u8,
    by_leader: bool,
    amount: u64,
    now: i64,
)
    requires
        !vault.is_terminated(),
        vault.covers_principal(),
        vault.bond_price > 0,
        user.deposit_value <= vault.deposit_value,
        user.bond_amount <= vault.bond_supply,
        retired(vault, decimals, by_leader, amount) <= user.bond_amount,
    ensures
        withdraw_error(vault, user, decimals, by_leader, amount, now) == (if is_locked(
            user.deposit_time,
            now,
        ) {
            Some(VaultError::LockPeriodNotOver)
        } else if amount > user.deposit_value {
            Some(VaultError::InsufficientFunds)
        } else {
            None::<VaultError>
        }),
{
}

/// On a vault in use whose shares have a price, a deposit of more than
/// nothing is accepted whenever the new totals can be recorded.
pub proof fn lemma_deposit_is_accepted(vault: Vault, user: User, decimals: u8, amount: u64)
    requires
        !vault.is_terminated(),
        vault.covers_principal(),
        issue_price(vault) > 0,
        amount > 0,
        vault.tvl + amount <= u64::MAX,
        vault.bond_supply + minted(vault, decimals, amount) <= u64::MAX,
        user.deposit_value + amount <= u64::MAX,
        user.bond_amount + minted(vault, decimals, amount) <= u64::MAX,
    ensures
        deposit_error(vault, user, decimals, amount).is_none(),
{
}

/// A terminated vault stays terminated: it takes no deposit, pays no
/// withdrawal and closes no position, and pausing, resuming or terminating
/// it again leaves it terminated.
pub proof fn lemma_terminated_is_final(
    vault: Vault,
    user: User,
    decimals: u8,
    by_leader: bool,
    of_leader: bool,
    amount: u64,
    now: i64,
)
    requires
        vault.is_terminated(),
    ensures
        deposit_error(vault, user, decimals, amount) == Some(VaultError::VaultTerminated),
        withdraw_error(vault, user, decimals, by_leader, amount, now) == Some(
            VaultError::VaultTerminated,
        ),
        init_deposit_error(vault, by_leader, decimals, amount).is_some(),
        close_position_error(vault, user, by_leader, of_leader).is_some(),
        paused(vault).is_terminated(),
        resumed(vault).is_terminated(),
        terminated(vault).is_terminated(),
{
}

/// The phases follow one another as the life of a vault has it: pausing
/// takes an active vault to paused and resuming takes it back, termination
/// ends either, and deposits and withdrawals leave the phase alone.
pub proof fn lemma_phases_in_turn(
    vault: Vault,
    user: User,
    decimals: u8,
    by_leader: bool,
    amount: u64,
    now: i64,
)
    requires
        !vault.is_terminated(),
    ensures
        paused(vault).phase_of() == Phase::Paused,
        resumed(vault).phase_of() == Phase::Active,
        terminated(vault).phase_of() == Phase::Terminated,
        deposit_error(vault, user, decimals, amount).is_none() ==> deposited_vault(
            vault,
            decimals,
            amount,
        ).phase_of() == vault.phase_of(),
        withdraw_error(vault, user, decimals, by_leader, amount, now).is_none()
            ==> withdrawn_vault(vault, decimals, by_leader, amount).phase_of() == vault.phase_of(),
{
    if deposit_error(vault, user, decimals, amount).is_none() {
        lemma_deposit_accounts(vault, user, decimals, amount, now);
    }
    if withdraw_error(vault, user, decimals, by_leader, amount, now).is_none() {
        lemma_withdraw_accounts(vault, user, decimals, by_leader, amount, now);
    }
}

/// Termination leaves every total and the price at zero, whatever the vault
/// held, and changes nothing else.
pub proof fn lemma_termination_clears(vault: Vault)
    ensures
        terminated(vault).tvl == 0,
        terminated(vault).deposit_value == 0,
        terminated(vault).bond_supply == 0,
        terminated(vault).bond_price == 0,
        terminated(vault).is_terminated(),
        terminated(vault).leader == vault.leader,
        terminated(vault).strategy_id == vault.strategy_id,
        terminated(vault).is_trading_paused == vault.is_trading_paused,
        terminated(terminated(vault)) == terminated(vault),
{
}

} // verus!
