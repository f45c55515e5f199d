use trading_vault::{
    close_position, deposit, init_deposit, initialize_vault, lock_holds, terminate_vault, withdraw,
    Authority, ClosePosition, CustodyCall, Deposit, DepositParams, Holder, Identity, InitDeposit,
    InitDepositParams, InitializeVault, PauseTrading, TerminateVault, User, Vault, VaultError,
    Withdraw, WithdrawParams, LOCK_SECONDS,
};

fn leader() -> Identity {
    Identity { bytes: [7; 32] }
}

fn alice() -> Identity {
    Identity { bytes: [100; 32] }
}

fn opened_vault(amount: u64, now: i64) -> (Vault, User) {
    let vault = initialize_vault(&InitializeVault {
        leader: leader(),
        backend_wallet: Identity { bytes: [2; 32] },
        vault_authority: Identity { bytes: [3; 32] },
        vault_authority_bump: 250,
    });
    let mut ctx = InitDeposit { vault, user: User::new(), leader: leader(), mint_decimals: 0 };
    let params = InitDepositParams { strategy_id: String::from("alpha"), initial_deposit: amount };
    init_deposit(&mut ctx, params, now).unwrap();
    (ctx.vault, ctx.user)
}

fn vault_with(tvl: u64, deposit_value: u64, bond_supply: u64, bond_price: u64) -> Vault {
    let (mut vault, _) = opened_vault(10_000_000, 0);
    vault.tvl = tvl;
    vault.deposit_value = deposit_value;
    vault.bond_supply = bond_supply;
    vault.bond_price = bond_price;
    vault
}

fn payout(amount: u64) -> CustodyCall {
    CustodyCall::Transfer {
        from: Holder::Vault,
        to: Holder::Depositor,
        authority: Authority::VaultAuthority { bump: 250 },
        amount,
    }
}

#[test]
fn deposit_adds_to_vault_and_position() {
    let (vault, _) = opened_vault(10_000_000, 0);
    let mut ctx = Deposit { vault, user: User::new(), depositor: alice(), mint_decimals: 0 };
    let calls = deposit(&mut ctx, DepositParams { amount: 2_500_000 }, 500).unwrap();
    assert_eq!(ctx.vault.tvl, 12_500_000);
    assert_eq!(ctx.vault.deposit_value, 12_500_000);
    // 10 shares, and floor(2_500_000 / 1_000_000) more
    assert_eq!(ctx.vault.bond_supply, 12);
    // 12_500_000 / 12
    assert_eq!(ctx.vault.bond_price, 1_041_666);
    assert_eq!(ctx.user, User { bond_amount: 2, deposit_value: 2_500_000, deposit_time: 500 });
    assert_eq!(ctx.depositor, alice());
    assert_eq!(
        calls,
        vec![
            CustodyCall::Transfer {
                from: Holder::Depositor,
                to: Holder::Vault,
                authority: Authority::Owner,
                amount: 2_500_000,
            },
            CustodyCall::Mint { to: Holder::Depositor, amount: 2 },
        ]
    );
}

#[test]
fn deposit_is_priced_before_it_is_added() {
    // price 18 = (100 + 100 * 80 / 100) / 10
    let vault = vault_with(200, 100, 10, 18);
    let user = User { bond_amount: 4, deposit_value: 30, deposit_time: 1 };
    let mut ctx = Deposit { vault, user, depositor: alice(), mint_decimals: 0 };
    let calls = deposit(&mut ctx, DepositParams { amount: 100 }, 900).unwrap();
    // floor(100 / 18) = 5 shares
    assert_eq!(calls[1], CustodyCall::Mint { to: Holder::Depositor, amount: 5 });
    assert_eq!(ctx.vault.tvl, 300);
    assert_eq!(ctx.vault.deposit_value, 200);
    assert_eq!(ctx.vault.bond_supply, 15);
    // (200 + 100 * 80 / 100) / 15 = 280 / 15
    assert_eq!(ctx.vault.bond_price, 18);
    assert_eq!(ctx.user, User { bond_amount: 9, deposit_value: 130, deposit_time: 900 });
}

#[test]
fn deposit_scales_the_shares_by_the_mint_decimals() {
    let vault = vault_with(40_000, 40_000, 20, 2_000);
    let mut ctx = Deposit { vault, user: User::new(), depositor: alice(), mint_decimals: 1 };
    deposit(&mut ctx, DepositParams { amount: 5_000 }, 1).unwrap();
    // floor(5000 / 2000) * 10
    assert_eq!(ctx.user.bond_amount, 20);
    assert_eq!(ctx.vault.bond_supply, 40);
    assert_eq!(ctx.vault.bond_price, 45_000 / 40);
}

#[test]
fn first_deposit_into_a_vault_without_shares_uses_the_genesis_price() {
    let mut vault = vault_with(0, 0, 0, 55);
    vault.bond_price = 55;
    let mut ctx = Deposit { vault, user: User::new(), depositor: alice(), mint_decimals: 0 };
    deposit(&mut ctx, DepositParams { amount: 3_500_000 }, 1).unwrap();
    // floor(3_500_000 / 1_000_000), not floor(3_500_000 / 55)
    assert_eq!(ctx.user.bond_amount, 3);
    assert_eq!(ctx.vault.bond_supply, 3);
    // 3_500_000 / 3
    assert_eq!(ctx.vault.bond_price, 1_166_666);
}

#[test]
fn deposit_below_the_price_of_a_share_buys_none() {
    let vault = vault_with(0, 0, 0, 1_000_000);
    let mut ctx = Deposit { vault, user: User::new(), depositor: alice(), mint_decimals: 0 };
    let calls = deposit(&mut ctx, DepositParams { amount: 999_999 }, 1).unwrap();
    assert_eq!(calls[1], CustodyCall::Mint { to: Holder::Depositor, amount: 0 });
    assert_eq!(ctx.user, User { bond_amount: 0, deposit_value: 999_999, deposit_time: 1 });
    assert_eq!(ctx.vault.bond_supply, 0);
    assert_eq!(ctx.vault.tvl, 999_999);
    assert_eq!(ctx.vault.bond_price, 1_000_000);
}

#[test]
fn deposit_of_nothing_is_refused() {
    let (vault, _) = opened_vault(10_000_000, 0);
    let mut ctx = Deposit { vault, user: User::new(), depositor: alice(), mint_decimals: 0 };
    let before = ctx.clone();
    assert_eq!(deposit(&mut ctx, DepositParams { amount: 0 }, 5), Err(VaultError::InsufficientDeposit));
    assert_eq!(ctx, before);
}

#[test]
fn deposit_into_a_terminated_vault_is_refused() {
    let (vault, _) = opened_vault(10_000_000, 0);
    let mut end = TerminateVault { vault, leader: leader(), custody_balance: 10_000_000 };
    terminate_vault(&mut end).unwrap();
    let mut ctx = Deposit { vault: end.vault, user: User::new(), depositor: alice(), mint_decimals: 0 };
    let before = ctx.clone();
    assert_eq!(deposit(&mut ctx, DepositParams { amount: 10 }, 5), Err(VaultError::VaultTerminated));
    assert_eq!(ctx, before);
}

#[test]
fn deposit_into_a_vault_below_its_principal_is_refused() {
    let vault = vault_with(99, 100, 10, 10);
    let mut ctx = Deposit { vault, user: User::new(), depositor: alice(), mint_decimals: 0 };
    let before = ctx.clone();
    assert_eq!(deposit(&mut ctx, DepositParams { amount: 10 }, 5), Err(VaultError::InvariantViolated));
    assert_eq!(ctx, before);
}

#[test]
fn deposit_beyond_the_largest_total_is_refused() {
    let vault = vault_with(u64::MAX - 5, 100, 10, 10);
    let mut ctx = Deposit { vault, user: User::new(), depositor: alice(), mint_decimals: 0 };
    let before = ctx.clone();
    assert_eq!(deposit(&mut ctx, DepositParams { amount: 6 }, 5), Err(VaultError::ArithmeticError));
    assert_eq!(ctx, before);
    assert!(deposit(&mut ctx, DepositParams { amount: 5 }, 5).is_ok());
    assert_eq!(ctx.vault.tvl, u64::MAX);
}

#[test]
fn deposit_may_leave_the_shares_without_a_price() {
    let vault = vault_with(10, 10, 10, 1);
    let mut ctx = Deposit { vault, user: User::new(), depositor: alice(), mint_decimals: 6 };
    deposit(&mut ctx, DepositParams { amount: 5 }, 5).unwrap();
    assert_eq!(ctx.user.bond_amount, 5_000_000);
    assert_eq!(ctx.vault.bond_supply, 5_000_010);
    assert_eq!(ctx.vault.deposit_value, 15);
    // 15 / 5_000_010
    assert_eq!(ctx.vault.bond_price, 0);
    assert_eq!(ctx.vault.phase(), trading_vault::Phase::Active);

    let before = ctx.clone();
    assert_eq!(deposit(&mut ctx, DepositParams { amount: 5 }, 6), Err(VaultError::ArithmeticError));
    assert_eq!(ctx, before);
    let mut out = Withdraw { vault: ctx.vault, user: ctx.user, depositor: alice(), mint_decimals: 6 };
    let before = out.clone();
    assert_eq!(
        withdraw(&mut out, WithdrawParams { amount: 5 }, 5 + LOCK_SECONDS),
        Err(VaultError::ArithmeticError)
    );
    assert_eq!(out, before);
}

#[test]
fn deposit_is_allowed_while_trading_is_paused() {
    let (vault, _) = opened_vault(10_000_000, 0);
    let mut paused = PauseTrading { vault, leader: leader() };
    trading_vault::pause_trading(&mut paused).unwrap();
    let mut ctx = Deposit { vault: paused.vault, user: User::new(), depositor: alice(), mint_decimals: 0 };
    assert!(deposit(&mut ctx, DepositParams { amount: 1_000 }, 5).is_ok());
    assert!(ctx.vault.is_trading_paused);
    let mut out = Withdraw { vault: ctx.vault, user: ctx.user, depositor: alice(), mint_decimals: 0 };
    assert!(withdraw(&mut out, WithdrawParams { amount: 1_000 }, 5 + LOCK_SECONDS).is_ok());
}

#[test]
fn lock_ends_exactly_after_the_lock_period() {
    assert!(lock_holds(1_000, 1_000));
    assert!(lock_holds(1_000, 1_000 + LOCK_SECONDS - 1));
    assert!(!lock_holds(1_000, 1_000 + LOCK_SECONDS));
    assert!(!lock_holds(1_000, i64::MAX));
    assert!(lock_holds(1_000, i64::MIN));
    assert!(lock_holds(i64::MAX, i64::MAX));
    assert!(lock_holds(i64::MAX - LOCK_SECONDS + 1, i64::MAX));
    assert!(!lock_holds(i64::MAX - LOCK_SECONDS, i64::MAX));
    assert!(!lock_holds(i64::MIN, i64::MIN + LOCK_SECONDS));
}

#[test]
fn deposit_then_withdraw_before_and_after_lock_expiry() {
    let (vault, _) = opened_vault(10_000_000, 0);
    let start = User { bond_amount: 3, deposit_value: 3_000_000, deposit_time: 10 };
    let vault_before = vault.clone();

    let mut ctx = Deposit { vault, user: start, depositor: alice(), mint_decimals: 0 };
    deposit(&mut ctx, DepositParams { amount: 4_000_000 }, 1_000).unwrap();

    let mut out = Withdraw { vault: ctx.vault, user: ctx.user, depositor: alice(), mint_decimals: 0 };
    let held = out.clone();
    assert_eq!(
        withdraw(&mut out, WithdrawParams { amount: 4_000_000 }, 1_000),
        Err(VaultError::LockPeriodNotOver)
    );
    assert_eq!(
        withdraw(&mut out, WithdrawParams { amount: 4_000_000 }, 1_000 + LOCK_SECONDS - 1),
        Err(VaultError::LockPeriodNotOver)
    );
    assert_eq!(out, held);

    let calls = withdraw(&mut out, WithdrawParams { amount: 4_000_000 }, 1_000 + LOCK_SECONDS).unwrap();
    assert_eq!(out.user.deposit_value, start.deposit_value);
    assert_eq!(out.user.bond_amount, start.bond_amount);
    assert_eq!(out.user.deposit_time, 1_000);
    assert_eq!(out.vault, vault_before);
    assert_eq!(
        calls,
        vec![payout(4_000_000), CustodyCall::Burn { from: Holder::Depositor, amount: 4 }]
    );
}

#[test]
fn withdraw_of_more_than_the_principal_is_refused() {
    let (vault, _) = opened_vault(10_000_000, 0);
    let user = User { bond_amount: 500, deposit_value: 100, deposit_time: 0 };
    let mut ctx = Withdraw { vault, user, depositor: alice(), mint_decimals: 0 };
    let before = ctx.clone();
    assert_eq!(
        withdraw(&mut ctx, WithdrawParams { amount: 101 }, LOCK_SECONDS),
        Err(VaultError::InsufficientFunds)
    );
    assert_eq!(ctx, before);
    assert!(withdraw(&mut ctx, WithdrawParams { amount: 100 }, LOCK_SECONDS).is_ok());
    assert_eq!(ctx.user.deposit_value, 0);
}

#[test]
fn lock_comes_before_the_amount() {
    let (vault, _) = opened_vault(10_000_000, 0);
    let user = User { bond_amount: 500, deposit_value: 100, deposit_time: 0 };
    let mut ctx = Withdraw { vault, user, depositor: alice(), mint_decimals: 0 };
    assert_eq!(
        withdraw(&mut ctx, WithdrawParams { amount: 101 }, LOCK_SECONDS - 1),
        Err(VaultError::LockPeriodNotOver)
    );
}

#[test]
fn withdraw_from_a_terminated_vault_is_refused() {
    let (vault, user) = opened_vault(10_000_000, 0);
    let mut end = TerminateVault { vault, leader: leader(), custody_balance: 10_000_000 };
    terminate_vault(&mut end).unwrap();
    let mut ctx = Withdraw { vault: end.vault, user, depositor: leader(), mint_decimals: 0 };
    let before = ctx.clone();
    assert_eq!(
        withdraw(&mut ctx, WithdrawParams { amount: 10 }, LOCK_SECONDS),
        Err(VaultError::VaultTerminated)
    );
    assert_eq!(ctx, before);
}

#[test]
fn withdraw_from_a_vault_below_its_principal_is_refused() {
    let vault = vault_with(99, 100, 10, 10);
    let user = User { bond_amount: 10, deposit_value: 100, deposit_time: 0 };
    let mut ctx = Withdraw { vault, user, depositor: alice(), mint_decimals: 0 };
    let before = ctx.clone();
    assert_eq!(
        withdraw(&mut ctx, WithdrawParams { amount: 10 }, LOCK_SECONDS),
        Err(VaultError::InvariantViolated)
    );
    assert_eq!(ctx, before);
}

#[test]
fn withdraw_of_more_shares_than_held_is_refused() {
    let vault = vault_with(1_000, 1_000, 1_000, 1);
    let user = User { bond_amount: 49, deposit_value: 50, deposit_time: 0 };
    let mut ctx = Withdraw { vault, user, depositor: alice(), mint_decimals: 0 };
    let before = ctx.clone();
    assert_eq!(
        withdraw(&mut ctx, WithdrawParams { amount: 50 }, LOCK_SECONDS),
        Err(VaultError::ArithmeticError)
    );
    assert_eq!(ctx, before);
    assert!(withdraw(&mut ctx, WithdrawParams { amount: 49 }, LOCK_SECONDS).is_ok());
    assert_eq!(ctx.user, User { bond_amount: 0, deposit_value: 1, deposit_time: 0 });
}

#[test]
fn leader_withdrawal_pays_the_performance_fee() {
    // profit 1000, price (5000 + 800) / 1000 = 5
    let vault = vault_with(6_000, 5_000, 1_000, 5);
    let user = User { bond_amount: 600, deposit_value: 3_000, deposit_time: 0 };
    let mut ctx = Withdraw { vault, user, depositor: leader(), mint_decimals: 0 };
    let calls = withdraw(&mut ctx, WithdrawParams { amount: 2_000 }, LOCK_SECONDS).unwrap();
    // fee (6000 - 5000) / 10 = 100; shares 2000 / 5 + 100 / 5 = 420
    assert_eq!(
        calls,
        vec![payout(2_000), payout(100), CustodyCall::Burn { from: Holder::Depositor, amount: 420 }]
    );
    assert_eq!(ctx.vault.tvl, 6_000 - 2_000 - 100);
    assert_eq!(ctx.vault.deposit_value, 3_000);
    assert_eq!(ctx.vault.bond_supply, 580);
    // (3000 + 900 * 80 / 100) / 580 = 3720 / 580
    assert_eq!(ctx.vault.bond_price, 6);
    assert_eq!(ctx.user, User { bond_amount: 180, deposit_value: 1_000, deposit_time: 0 });
}

#[test]
fn other_depositors_pay_no_fee() {
    let vault = vault_with(6_000, 5_000, 1_000, 5);
    let user = User { bond_amount: 600, deposit_value: 3_000, deposit_time: 0 };
    let mut ctx = Withdraw { vault, user, depositor: alice(), mint_decimals: 0 };
    let calls = withdraw(&mut ctx, WithdrawParams { amount: 2_000 }, LOCK_SECONDS).unwrap();
    assert_eq!(calls, vec![payout(2_000), CustodyCall::Burn { from: Holder::Depositor, amount: 400 }]);
    assert_eq!(ctx.vault.tvl, 4_000);
    assert_eq!(ctx.vault.deposit_value, 3_000);
    assert_eq!(ctx.vault.bond_supply, 600);
    // (3000 + 1000 * 80 / 100) / 600
    assert_eq!(ctx.vault.bond_price, 6);
    assert_eq!(ctx.user, User { bond_amount: 200, deposit_value: 1_000, deposit_time: 0 });
}

#[test]
fn leader_withdrawal_without_profit_pays_a_fee_of_nothing() {
    let (vault, user) = opened_vault(10_000_000, 0);
    let mut ctx = Withdraw { vault, user, depositor: leader(), mint_decimals: 0 };
    let calls = withdraw(&mut ctx, WithdrawParams { amount: 10_000_000 }, LOCK_SECONDS).unwrap();
    assert_eq!(
        calls,
        vec![
            payout(10_000_000),
            payout(0),
            CustodyCall::Burn { from: Holder::Depositor, amount: 10 },
        ]
    );
    assert_eq!(ctx.vault.tvl, 0);
    assert_eq!(ctx.vault.deposit_value, 0);
    assert_eq!(ctx.vault.bond_supply, 0);
    assert_eq!(ctx.vault.bond_price, 1_000_000);
    assert_eq!(ctx.vault.phase(), trading_vault::Phase::Active);
    assert_eq!(ctx.user, User { bond_amount: 0, deposit_value: 0, deposit_time: 0 });
}

#[test]
fn bond_supply_is_the_sum_of_all_positions() {
    let (vault, leader_user) = opened_vault(10_000_000, 0);
    let mut vault = vault;
    let mut users = vec![leader_user, User::new(), User::new(), User::new()];
    let amounts: [u64; 9] = [
        5_000_000,
        1_000_000,
        77_000_000,
        123_456_789,
        1_500_000,
        999_999,
        40_000_000,
        3_000_000,
        8_000_000,
    ];
    for (step, amount) in amounts.iter().enumerate() {
        let who = 1 + step % 3;
        let mut ctx = Deposit {
            vault: vault.clone(),
            user: users[who],
            depositor: Identity { bytes: [who as u8 + 100; 32] },
            mint_decimals: 0,
        };
        deposit(&mut ctx, DepositParams { amount: *amount }, step as i64).unwrap();
        vault = ctx.vault;
        users[who] = ctx.user;
        let held: u64 = users.iter().map(|u| u.bond_amount).sum();
        assert_eq!(vault.bond_supply, held);
    }
    // 10 + 5 + 1 + 77 + 123 + 1 + 0 + 39 + 2 + 7
    assert_eq!(vault.bond_supply, 265);
    assert_eq!(vault.tvl, 10_000_000 + amounts.iter().sum::<u64>());
    assert_eq!(vault.bond_price, 1_018_704);
}

#[test]
fn value_covers_principal_after_every_operation() {
    let mut vault = vault_with(1_300_000, 1_000_000, 1_000_000, 1);
    let mut users = vec![User { bond_amount: 1_000_000, deposit_value: 1_000_000, deposit_time: 0 }; 4];
    users[1] = User::new();
    users[2] = User::new();
    users[3] = User::new();
    let ids = [leader(), alice(), Identity { bytes: [101; 32] }, Identity { bytes: [102; 32] }];
    let mut seed: u64 = 0x2545_F491_4F6C_DD1D;
    let mut accepted = 0;
    for step in 0..400 {
        seed ^= seed << 13;
        seed ^= seed >> 7;
        seed ^= seed << 17;
        let who = (seed % 4) as usize;
        let amount = (seed >> 8) % 50_000;
        let now = step as i64 * (LOCK_SECONDS / 3);
        let ok = if (seed >> 40) % 2 == 0 {
            let mut ctx =
                Deposit { vault: vault.clone(), user: users[who], depositor: ids[who], mint_decimals: 0 };
            let ok = deposit(&mut ctx, DepositParams { amount }, now).is_ok();
            vault = ctx.vault;
            users[who] = ctx.user;
            ok
        } else {
            let mut ctx =
                Withdraw { vault: vault.clone(), user: users[who], depositor: ids[who], mint_decimals: 0 };
            let ok = withdraw(&mut ctx, WithdrawParams { amount }, now).is_ok();
            vault = ctx.vault;
            users[who] = ctx.user;
            ok
        };
        if ok {
            accepted += 1;
        }
        assert!(vault.tvl >= vault.deposit_value);
        let held: u64 = users.iter().map(|u| u.bond_amount).sum();
        assert_eq!(vault.bond_supply, held);
    }
    assert!(accepted > 100);
}

#[test]
fn closing_a_position_pays_it_out_in_full() {
    let vault = vault_with(6_000, 5_000, 1_000, 5);
    let user = User { bond_amount: 600, deposit_value: 3_000, deposit_time: 77 };
    let mut ctx = ClosePosition { vault, user, leader: leader(), depositor: alice() };
    let calls = close_position(&mut ctx).unwrap();
    assert_eq!(calls, vec![payout(3_000), CustodyCall::Burn { from: Holder::Depositor, amount: 600 }]);
    assert_eq!(ctx.user, User { bond_amount: 0, deposit_value: 0, deposit_time: 77 });
    assert_eq!(ctx.vault.tvl, 3_000);
    assert_eq!(ctx.vault.deposit_value, 2_000);
    assert_eq!(ctx.vault.bond_supply, 400);
    // (2000 + 1000 * 80 / 100) / 400
    assert_eq!(ctx.vault.bond_price, 7);
}

#[test]
fn closing_the_leaders_own_position_pays_the_fee() {
    let vault = vault_with(6_000, 5_000, 1_000, 5);
    let user = User { bond_amount: 600, deposit_value: 3_000, deposit_time: 77 };
    let mut ctx = ClosePosition { vault, user, leader: leader(), depositor: leader() };
    let calls = close_position(&mut ctx).unwrap();
    assert_eq!(
        calls,
        vec![payout(3_000), payout(100), CustodyCall::Burn { from: Holder::Depositor, amount: 600 }]
    );
    assert_eq!(ctx.vault.tvl, 2_900);
    assert_eq!(ctx.vault.deposit_value, 2_000);
    assert_eq!(ctx.vault.bond_supply, 400);
    // (2000 + 900 * 80 / 100) / 400
    assert_eq!(ctx.vault.bond_price, 6);
}

#[test]
fn closing_a_position_needs_the_leader_and_an_active_vault() {
    let vault = vault_with(6_000, 5_000, 1_000, 5);
    let user = User { bond_amount: 600, deposit_value: 3_000, deposit_time: 77 };

    let mut by_stranger = ClosePosition { vault: vault.clone(), user, leader: alice(), depositor: alice() };
    let before = by_stranger.clone();
    assert_eq!(close_position(&mut by_stranger), Err(VaultError::Unauthorized));
    assert_eq!(by_stranger, before);

    let mut paused = PauseTrading { vault: vault.clone(), leader: leader() };
    trading_vault::pause_trading(&mut paused).unwrap();
    let mut while_paused = ClosePosition { vault: paused.vault, user, leader: leader(), depositor: alice() };
    let before = while_paused.clone();
    assert_eq!(close_position(&mut while_paused), Err(VaultError::TradingPaused));
    assert_eq!(while_paused, before);

    let mut end = TerminateVault { vault, leader: leader(), custody_balance: 0 };
    terminate_vault(&mut end).unwrap();
    let mut after_end = ClosePosition { vault: end.vault, user, leader: leader(), depositor: alice() };
    assert_eq!(close_position(&mut after_end), Err(VaultError::VaultTerminated));
}

#[test]
fn closing_a_position_the_vault_cannot_cover_is_refused() {
    let vault = vault_with(6_000, 5_000, 1_000, 5);
    let user = User { bond_amount: 600, deposit_value: 5_001, deposit_time: 77 };
    let mut ctx = ClosePosition { vault: vault.clone(), user, leader: leader(), depositor: alice() };
    let before = ctx.clone();
    assert_eq!(close_position(&mut ctx), Err(VaultError::ArithmeticError));
    assert_eq!(ctx, before);

    let mut short = vault;
    short.tvl = 4_999;
    let user = User { bond_amount: 600, deposit_value: 3_000, deposit_time: 77 };
    let mut ctx = ClosePosition { vault: short, user, leader: leader(), depositor: alice() };
    assert_eq!(close_position(&mut ctx), Err(VaultError::InvariantViolated));
}

#[test]
fn round_trip_leaves_shares_behind_when_value_had_no_shares() {
    let vault = vault_with(100_000_000, 0, 0, 1_000_000);
    let mut ctx = Deposit { vault, user: User::new(), depositor: alice(), mint_decimals: 0 };
    deposit(&mut ctx, DepositParams { amount: 10_000_000 }, 0).unwrap();
    assert_eq!(ctx.user.bond_amount, 10);
    // (10_000_000 + 100_000_000 * 80 / 100) / 10
    assert_eq!(ctx.vault.bond_price, 9_000_000);
    let mut out = Withdraw { vault: ctx.vault, user: ctx.user, depositor: alice(), mint_decimals: 0 };
    withdraw(&mut out, WithdrawParams { amount: 10_000_000 }, LOCK_SECONDS).unwrap();
    assert_eq!(out.user, User { bond_amount: 9, deposit_value: 0, deposit_time: 0 });
    assert_eq!(out.vault.bond_supply, 9);
}

#[test]
fn round_trip_needs_more_shares_than_issued_when_shares_are_scaled() {
    let vault = vault_with(40_000, 40_000, 20, 2_000);
    let mut ctx = Deposit { vault, user: User::new(), depositor: alice(), mint_decimals: 1 };
    deposit(&mut ctx, DepositParams { amount: 5_000 }, 0).unwrap();
    assert_eq!(ctx.user.bond_amount, 20);
    assert_eq!(ctx.vault.bond_price, 1_125);
    let mut out = Withdraw { vault: ctx.vault, user: ctx.user, depositor: alice(), mint_decimals: 1 };
    let before = out.clone();
    // floor(5000 / 1125) * 10 = 40 shares would have to go
    assert_eq!(
        withdraw(&mut out, WithdrawParams { amount: 5_000 }, LOCK_SECONDS),
        Err(VaultError::ArithmeticError)
    );
    assert_eq!(out, before);
}

#[test]
fn round_trip_at_a_price_above_par() {
    // price (3000 + 0) / 1000 = 3
    let vault = vault_with(3_000, 3_000, 1_000, 3);
    let before = vault.clone();
    let start = User { bond_amount: 7, deposit_value: 21, deposit_time: 4 };
    let mut ctx = Deposit { vault, user: start, depositor: alice(), mint_decimals: 0 };
    deposit(&mut ctx, DepositParams { amount: 1_000 }, 50).unwrap();
    assert_eq!(ctx.user.bond_amount, 7 + 333);
    assert_eq!(ctx.vault.bond_price, 3);
    let mut out = Withdraw { vault: ctx.vault, user: ctx.user, depositor: alice(), mint_decimals: 0 };
    withdraw(&mut out, WithdrawParams { amount: 1_000 }, 50 + LOCK_SECONDS).unwrap();
    assert_eq!(out.vault, before);
    assert_eq!(out.user, User { bond_amount: 7, deposit_value: 21, deposit_time: 50 });
}

#[test]
fn closing_positions_keeps_the_supply_equal_to_the_shares_held() {
    let (vault, leader_user) = opened_vault(10_000_000, 0);
    let mut ctx = Deposit { vault, user: User::new(), depositor: alice(), mint_decimals: 0 };
    deposit(&mut ctx, DepositParams { amount: 2_000_000 }, 9).unwrap();
    let mut close = ClosePosition { vault: ctx.vault, user: ctx.user, leader: leader(), depositor: alice() };
    close_position(&mut close).unwrap();
    assert_eq!(close.user.bond_amount + leader_user.bond_amount, close.vault.bond_supply);
    assert_eq!(close.vault.tvl, 10_000_000);
    assert_eq!(close.vault.deposit_value, 10_000_000);
    assert_eq!(close.vault.bond_supply, 10);
    assert_eq!(close.vault.bond_price, 1_000_000);
}

#[test]
fn withdrawal_that_the_position_covers_is_accepted() {
    // price (5000 + 0) / 1000 = 5
    let vault = vault_with(5_000, 5_000, 1_000, 5);
    let user = User { bond_amount: 600, deposit_value: 3_000, deposit_time: 50 };
    let mut ctx = Withdraw { vault, user, depositor: alice(), mint_decimals: 0 };
    assert_eq!(
        withdraw(&mut ctx, WithdrawParams { amount: 3_000 }, 50 + LOCK_SECONDS - 1),
        Err(VaultError::LockPeriodNotOver)
    );
    assert_eq!(
        withdraw(&mut ctx, WithdrawParams { amount: 3_001 }, 50 + LOCK_SECONDS),
        Err(VaultError::InsufficientFunds)
    );
    assert!(withdraw(&mut ctx, WithdrawParams { amount: 3_000 }, 50 + LOCK_SECONDS).is_ok());
    assert_eq!(ctx.user, User { bond_amount: 0, deposit_value: 0, deposit_time: 50 });
    assert_eq!(ctx.vault.bond_supply, 400);
    assert_eq!(ctx.vault.bond_price, 5);
}
