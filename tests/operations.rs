use collateral_vault::error::ErrorCode;
use collateral_vault::instructions::{
    deposit, initialize_vault, lock_collateral, transfer_collateral, unlock_collateral, withdraw,
    Deposit, InitializeVault, LockCollateral, TransferCollateral, UnlockCollateral, Withdraw,
};
use collateral_vault::pubkey::Pubkey;
use collateral_vault::state::CollateralVault;

const NOW: i64 = 1_700_000_000;

fn key(b: u8) -> Pubkey {
    Pubkey::new_from_array([b; 32])
}

fn open_vault(owner: Pubkey) -> CollateralVault {
    let mut ctx = InitializeVault {
        user: owner,
        vault: CollateralVault::uninitialized(),
        vault_token_account: key(200),
        usdt_mint: key(100),
        vault_bump: 254,
    };
    initialize_vault(&mut ctx, NOW).unwrap();
    ctx.vault
}

fn with_deposit(v: CollateralVault, amount: u64) -> CollateralVault {
    let mut ctx = Deposit { user: v.owner, vault: v };
    deposit(&mut ctx, amount, NOW).unwrap();
    ctx.vault
}

fn with_lock(v: CollateralVault, amount: u64) -> CollateralVault {
    let mut ctx = LockCollateral { vault: v };
    lock_collateral(&mut ctx, amount, NOW).unwrap();
    ctx.vault
}

fn holds(v: &CollateralVault) -> bool {
    v.total_balance == v.locked_balance + v.available_balance
}

fn same(a: &CollateralVault, b: &CollateralVault) -> bool {
    a.owner == b.owner
        && a.usdt_mint == b.usdt_mint
        && a.token_account == b.token_account
        && a.total_balance == b.total_balance
        && a.locked_balance == b.locked_balance
        && a.available_balance == b.available_balance
        && a.total_deposited == b.total_deposited
        && a.total_withdrawn == b.total_withdrawn
        && a.created_at == b.created_at
        && a.bump == b.bump
}

#[test]
fn initialize_sets_zeroed_record() {
    let v = open_vault(key(1));
    assert!(v.owner == key(1));
    assert!(v.usdt_mint == key(100));
    assert!(v.token_account == key(200));
    assert_eq!(v.total_balance, 0);
    assert_eq!(v.locked_balance, 0);
    assert_eq!(v.available_balance, 0);
    assert_eq!(v.total_deposited, 0);
    assert_eq!(v.total_withdrawn, 0);
    assert_eq!(v.created_at, NOW);
    assert_eq!(v.bump, 254);
}

#[test]
fn initialize_twice_is_already_exists() {
    let v = open_vault(key(1));
    let mut ctx = InitializeVault {
        user: key(1),
        vault: v,
        vault_token_account: key(201),
        usdt_mint: key(101),
        vault_bump: 1,
    };
    assert!(matches!(initialize_vault(&mut ctx, NOW + 5), Err(ErrorCode::AlreadyExists)));
    assert!(same(&ctx.vault, &v));
}

#[test]
fn initialize_event_names_owner_and_accounts() {
    let mut ctx = InitializeVault {
        user: key(3),
        vault: CollateralVault::uninitialized(),
        vault_token_account: key(4),
        usdt_mint: key(5),
        vault_bump: 7,
    };
    let e = initialize_vault(&mut ctx, 42).unwrap();
    assert!(e.owner == key(3));
    assert!(e.token_mint == key(5));
    assert!(e.vault_token_account == key(4));
    assert_eq!(e.timestamp, 42);
}

#[test]
fn scenario_deposit_into_new_vault() {
    let v = with_deposit(open_vault(key(1)), 100);
    assert_eq!(v.total_balance, 100);
    assert_eq!(v.available_balance, 100);
    assert_eq!(v.locked_balance, 0);
    assert_eq!(v.total_deposited, 100);
    assert!(holds(&v));
}

#[test]
fn deposit_event_carries_new_balance() {
    let v = with_deposit(open_vault(key(1)), 100);
    let mut ctx = Deposit { user: key(1), vault: v };
    let e = deposit(&mut ctx, 25, NOW + 1).unwrap();
    assert_eq!(e.amount, 25);
    assert_eq!(e.new_balance, 125);
    assert_eq!(e.timestamp, NOW + 1);
    assert_eq!(ctx.vault.total_deposited, 125);
}

#[test]
fn scenario_lock_after_deposit() {
    let v = with_lock(with_deposit(open_vault(key(1)), 100), 40);
    assert_eq!(v.available_balance, 60);
    assert_eq!(v.locked_balance, 40);
    assert_eq!(v.total_balance, 100);
    assert!(holds(&v));
}

#[test]
fn scenario_withdraw_more_than_available_fails() {
    let v = with_lock(with_deposit(open_vault(key(1)), 100), 40);
    let mut ctx = Withdraw { user: key(1), vault: v };
    assert!(matches!(withdraw(&mut ctx, 70, NOW), Err(ErrorCode::InsufficientBalance)));
    assert!(same(&ctx.vault, &v));
}

#[test]
fn scenario_withdraw_all_available() {
    let v = with_lock(with_deposit(open_vault(key(1)), 100), 40);
    let mut ctx = Withdraw { user: key(1), vault: v };
    let e = withdraw(&mut ctx, 60, NOW).unwrap();
    assert_eq!(e.amount, 60);
    assert!(e.user == key(1));
    assert_eq!(ctx.vault.available_balance, 0);
    assert_eq!(ctx.vault.total_balance, 40);
    assert_eq!(ctx.vault.locked_balance, 40);
    assert_eq!(ctx.vault.total_withdrawn, 60);
    assert_eq!(ctx.vault.total_deposited, 100);
    assert!(holds(&ctx.vault));
}

#[test]
fn scenario_transfer_to_new_owner() {
    let x = with_deposit(open_vault(key(1)), 100);
    let mut ctx = TransferCollateral {
        from_owner: key(1),
        to_owner: key(2),
        from_vault: x,
        to_vault: CollateralVault::uninitialized(),
        to_vault_bump: 9,
    };
    let e = transfer_collateral(&mut ctx, 30, NOW + 10).unwrap();
    assert_eq!(e.amount, 30);
    assert_eq!(ctx.from_vault.total_balance, 70);
    assert_eq!(ctx.from_vault.available_balance, 70);
    assert_eq!(ctx.from_vault.total_deposited, 100);
    assert_eq!(ctx.from_vault.total_withdrawn, 0);
    let y = ctx.to_vault;
    assert!(y.owner == key(2));
    assert!(y.usdt_mint == key(100));
    assert!(y.token_account == Pubkey::default());
    assert_eq!(y.total_balance, 30);
    assert_eq!(y.available_balance, 30);
    assert_eq!(y.locked_balance, 0);
    assert_eq!(y.total_deposited, 0);
    assert_eq!(y.total_withdrawn, 0);
    assert_eq!(y.created_at, NOW + 10);
    assert_eq!(y.bump, 9);
}

#[test]
fn scenario_zero_deposit_and_zero_lock() {
    let v = with_deposit(open_vault(key(1)), 100);
    let mut d = Deposit { user: key(1), vault: v };
    assert!(matches!(deposit(&mut d, 0, NOW), Err(ErrorCode::InvalidAmount)));
    assert!(same(&d.vault, &v));
    let mut l = LockCollateral { vault: v };
    assert!(lock_collateral(&mut l, 0, NOW).is_ok());
    assert!(same(&l.vault, &v));
}

#[test]
fn deposit_overflow_is_refused() {
    let v = with_deposit(open_vault(key(1)), u64::MAX);
    let mut ctx = Deposit { user: key(1), vault: v };
    assert!(matches!(deposit(&mut ctx, 1, NOW), Err(ErrorCode::Overflow)));
    assert!(same(&ctx.vault, &v));
}

#[test]
fn withdraw_zero_is_invalid_amount() {
    let v = with_deposit(open_vault(key(1)), 10);
    let mut ctx = Withdraw { user: key(1), vault: v };
    assert!(matches!(withdraw(&mut ctx, 0, NOW), Err(ErrorCode::InvalidAmount)));
    assert!(same(&ctx.vault, &v));
}

#[test]
fn withdraw_by_stranger_is_unauthorized() {
    let v = with_deposit(open_vault(key(1)), 10);
    let mut ctx = Withdraw { user: key(2), vault: v };
    assert!(matches!(withdraw(&mut ctx, 5, NOW), Err(ErrorCode::Unauthorized)));
    assert!(same(&ctx.vault, &v));
}

#[test]
fn deposit_then_withdraw_restores_balance_not_counters() {
    let v = with_deposit(open_vault(key(1)), 10);
    let d = with_deposit(v, 35);
    let mut ctx = Withdraw { user: key(1), vault: d };
    withdraw(&mut ctx, 35, NOW).unwrap();
    assert_eq!(ctx.vault.total_balance, v.total_balance);
    assert_eq!(ctx.vault.available_balance, v.available_balance);
    assert_eq!(ctx.vault.total_deposited, 45);
    assert_eq!(ctx.vault.total_withdrawn, 35);
}

#[test]
fn unlock_undoes_lock() {
    let v = with_deposit(open_vault(key(1)), 80);
    let locked = with_lock(v, 80);
    assert_eq!(locked.available_balance, 0);
    let mut ctx = UnlockCollateral { vault: locked };
    let e = unlock_collateral(&mut ctx, 80, NOW).unwrap();
    assert_eq!(e.amount, 80);
    assert!(same(&ctx.vault, &v));
}

#[test]
fn lock_beyond_available_fails() {
    let v = with_lock(with_deposit(open_vault(key(1)), 50), 20);
    let mut ctx = LockCollateral { vault: v };
    assert!(matches!(lock_collateral(&mut ctx, 31, NOW), Err(ErrorCode::InsufficientBalance)));
    assert!(same(&ctx.vault, &v));
}

#[test]
fn unlock_beyond_locked_fails() {
    let v = with_lock(with_deposit(open_vault(key(1)), 50), 20);
    let mut ctx = UnlockCollateral { vault: v };
    assert!(matches!(unlock_collateral(&mut ctx, 21, NOW), Err(ErrorCode::InsufficientBalance)));
    assert!(same(&ctx.vault, &v));
}

#[test]
fn transfer_to_existing_vault_conserves_total() {
    let x = with_deposit(open_vault(key(1)), 100);
    let y = with_deposit(open_vault(key(2)), 5);
    let mut ctx = TransferCollateral {
        from_owner: key(1),
        to_owner: key(2),
        from_vault: x,
        to_vault: y,
        to_vault_bump: 0,
    };
    transfer_collateral(&mut ctx, 45, NOW).unwrap();
    assert_eq!(ctx.from_vault.total_balance + ctx.to_vault.total_balance, 105);
    assert_eq!(ctx.to_vault.total_balance, 50);
    assert_eq!(ctx.to_vault.total_deposited, 5);
    assert_eq!(ctx.from_vault.total_deposited, 100);
    assert_eq!(ctx.to_vault.created_at, y.created_at);
    assert!(holds(&ctx.from_vault) && holds(&ctx.to_vault));
}

#[test]
fn transfer_errors() {
    let x = with_lock(with_deposit(open_vault(key(1)), 100), 30);
    let fresh = TransferCollateral {
        from_owner: key(1),
        to_owner: key(2),
        from_vault: x,
        to_vault: CollateralVault::uninitialized(),
        to_vault_bump: 0,
    };
    let mut c = fresh;
    assert!(matches!(transfer_collateral(&mut c, 0, NOW), Err(ErrorCode::InvalidAmount)));
    let mut c = fresh;
    assert!(matches!(transfer_collateral(&mut c, 71, NOW), Err(ErrorCode::InsufficientBalance)));
    assert!(same(&c.from_vault, &x) && c.to_vault.owner.is_default());
    let mut c = TransferCollateral { from_owner: key(9), ..fresh };
    assert!(matches!(transfer_collateral(&mut c, 5, NOW), Err(ErrorCode::Unauthorized)));
    let mut c = TransferCollateral { to_owner: key(1), ..fresh };
    assert!(matches!(transfer_collateral(&mut c, 5, NOW), Err(ErrorCode::InvalidRecipientVault)));
    let mut c = TransferCollateral { to_owner: Pubkey::default(), ..fresh };
    assert!(matches!(transfer_collateral(&mut c, 5, NOW), Err(ErrorCode::InvalidRecipientVault)));
    let other = open_vault(key(3));
    let mut c = TransferCollateral { to_vault: other, ..fresh };
    assert!(matches!(transfer_collateral(&mut c, 5, NOW), Err(ErrorCode::InvalidRecipientVault)));
    let mut foreign = open_vault(key(2));
    foreign.usdt_mint = key(77);
    let mut c = TransferCollateral { to_vault: foreign, ..fresh };
    assert!(matches!(transfer_collateral(&mut c, 5, NOW), Err(ErrorCode::AssetMismatch)));
    let full = with_deposit(open_vault(key(2)), u64::MAX);
    let mut c = TransferCollateral { to_vault: full, ..fresh };
    assert!(matches!(transfer_collateral(&mut c, 5, NOW), Err(ErrorCode::Overflow)));
    assert!(same(&c.from_vault, &x) && same(&c.to_vault, &full));
}
