use vstd::prelude::*;

use crate::pubkey::Pubkey;

verus! {

/// Published when a vault is opened.
#[derive(Clone, Copy, Debug)]
pub struct InitializeVaultEvent {
    pub vault: Pubkey,
    pub owner: Pubkey,
    pub token_mint: Pubkey,
    pub vault_token_account: Pubkey,
    pub timestamp: i64,
}

/// Published after a deposit, with the vault's new total.
#[derive(Clone, Copy, Debug)]
pub struct DepositEvent {
    pub user: Pubkey,
    pub amount: u64,
    pub new_balance: u64,
    pub timestamp: i64,
}

/// Published after a withdrawal.
#[derive(Clone, Copy, Debug)]
pub struct WithdrawEvent {
    pub user: Pubkey,
    pub amount: u64,
    pub timestamp: i64,
}

/// Published after collateral is locked.
#[derive(Clone, Copy, Debug)]
pub struct LockEvent {
    pub vault: Pubkey,
    pub amount: u64,
    pub timestamp: i64,
}

/// Published after collateral is unlocked.
#[derive(Clone, Copy, Debug)]
pub struct UnlockEvent {
    pub vault: Pubkey,
    pub amount: u64,
    pub timestamp: i64,
}

/// Published after balance moved from one vault to another.
#[derive(Clone, Copy, Debug)]
pub struct TransferEvent {
    pub from: Pubkey,
    pub to: Pubkey,
    pub amount: u64,
    pub timestamp: i64,
}

} // verus!
