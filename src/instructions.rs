use vstd::prelude::*;

use crate::error::ErrorCode;
use crate::events::{
    DepositEvent, InitializeVaultEvent, LockEvent, TransferEvent, UnlockEvent, WithdrawEvent,
};
use crate::pubkey::Pubkey;
use crate::state::CollateralVault;

verus! {

/// Withdrawing: the signer and the vault it takes from.
#[derive(Clone, Copy, Debug)]
pub struct Withdraw {
    pub user: Pubkey,
    pub vault: CollateralVault,
}

/// Takes `amount` out of the vault's available balance. Only the owner may
/// withdraw. The caller moves the asset out of the custody account, signed by
/// the vault's derived authority, when this returns `Ok`.
pub fn withdraw(ctx: &mut Withdraw, amount: u64, now: i64) -> (r: Result<WithdrawEvent, ErrorCode>)
    requires
        old(ctx).vault.wf(),
    ensures
        final(ctx).vault.wf(),
        final(ctx).user == old(ctx).user,
        old(ctx).user.bytes@ != old(ctx).vault.owner.bytes@ ==> r == Err::<WithdrawEvent, ErrorCode>(ErrorCode::Unauthorized),
        old(ctx).user.bytes@ == old(ctx).vault.owner.bytes@ && amount == 0 ==> r == Err::<WithdrawEvent, ErrorCode>(ErrorCode::InvalidAmount),
        old(ctx).user.bytes@ == old(ctx).vault.owner.bytes@ && amount > 0 && amount > old(ctx).vault.available_balance
            ==> r == Err::<WithdrawEvent, ErrorCode>(ErrorCode::InsufficientBalance),
        old(ctx).user.bytes@ == old(ctx).vault.owner.bytes@ && 0 < amount <= old(ctx).vault.available_balance
            && !old(ctx).vault.withdraw_fits(amount) ==> r == Err::<WithdrawEvent, ErrorCode>(ErrorCode::Overflow),
        old(ctx).user.bytes@ == old(ctx).vault.owner.bytes@ && 0 < amount <= old(ctx).vault.available_balance
            && old(ctx).vault.withdraw_fits(amount) ==> r == Ok::<WithdrawEvent, ErrorCode>(
            WithdrawEvent { user: old(ctx).vault.owner, amount, timestamp: now },
        ) && final(ctx).vault == old(ctx).vault.withdrawn(amount),
        r.is_err() ==> *final(ctx) == *old(ctx),
{
    if !ctx.user.same_as(&ctx.vault.owner) {
        return Err(ErrorCode::Unauthorized);
    }
    if amount == 0 {
        return Err(ErrorCode::InvalidAmount);
    }
    if ctx.vault.available_balance < amount {
        return Err(ErrorCode::InsufficientBalance);
    }
    let withdrawn = match ctx.vault.total_withdrawn.checked_add(amount) {
        Some(w) => w,
        None => return Err(ErrorCode::Overflow),
    };
    ctx.vault.total_balance = ctx.vault.total_balance - amount;
    ctx.vault.available_balance = ctx.vault.available_balance - amount;
    ctx.vault.total_withdrawn = withdrawn;
    Ok(WithdrawEvent { user: ctx.vault.owner, amount, timestamp: now })
}

} // verus!

verus! {

/// Moving balance between vaults: the signer, its vault, the identity that
/// receives, and that identity's record, which may not exist yet.
#[derive(Clone, Copy, Debug)]
pub struct TransferCollateral {
    pub from_owner: Pubkey,
    pub to_owner: Pubkey,
    pub from_vault: CollateralVault,
    /// All zero while the receiving vault does not exist yet.
    pub to_vault: CollateralVault,
    /// The derivation tag a receiving vault created by the transfer gets.
    pub to_vault_bump: u8,
}

/// The error a transfer of `amount` meets, checked in this order, or `None`
/// when it goes through. The receiver is neither the sender nor the all-zero
/// identity. A destination record that exists must belong to the
/// named identity and hold the same asset; one that does not exist is
/// created.
pub open spec fn transfer_error(c: TransferCollateral, amount: u64) -> Option<ErrorCode> {
    if c.from_owner.bytes@ != c.from_vault.owner.bytes@ {
        Some(ErrorCode::Unauthorized)
    } else if amount == 0 {
        Some(ErrorCode::InvalidAmount)
    } else if c.from_owner.bytes@ == c.to_owner.bytes@ || c.to_owner.is_zero() {
        Some(ErrorCode::InvalidRecipientVault)
    } else if c.to_vault.is_active() && c.to_vault.owner.bytes@ != c.to_owner.bytes@ {
        Some(ErrorCode::InvalidRecipientVault)
    } else if c.to_vault.is_active() && c.to_vault.usdt_mint.bytes@ != c.from_vault.usdt_mint.bytes@ {
        Some(ErrorCode::AssetMismatch)
    } else if amount > c.from_vault.available_balance {
        Some(ErrorCode::InsufficientBalance)
    } else if c.to_vault.is_active() && !c.to_vault.receive_fits(amount) {
        Some(ErrorCode::Overflow)
    } else {
        None
    }
}

/// The receiving record before the balance arrives: the existing one, or a
/// fresh one for the named identity, holding the source's asset, created at
/// `now`, with `custody` as its (unbound) custody account.
pub open spec fn destination(c: TransferCollateral, now: i64, custody: Pubkey) -> CollateralVault {
    if c.to_vault.is_active() {
        c.to_vault
    } else {
        CollateralVault::fresh(c.to_owner, c.from_vault.usdt_mint, custody, now, c.to_vault_bump)
    }
}

/// Moves `amount` of available balance from the signer's vault to the vault of
/// `to_owner`, creating that vault first where it does not exist. Only the
/// source owner signs; the receiver is not asked. No asset moves between
/// custody accounts, so neither vault's deposit or withdrawal counter changes.
/// A vault created here has no custody account bound yet (all zero).
pub fn transfer_collateral(ctx: &mut TransferCollateral, amount: u64, now: i64) -> (r: Result<
    TransferEvent,
    ErrorCode,
>)
    requires
        old(ctx).from_vault.wf(),
        old(ctx).to_vault.is_active() ==> old(ctx).to_vault.wf(),
    ensures
        final(ctx).from_vault.wf(),
        final(ctx).to_vault.is_active() ==> final(ctx).to_vault.wf(),
        match transfer_error(*old(ctx), amount) {
            Some(e) => r == Err::<TransferEvent, ErrorCode>(e) && *final(ctx) == *old(ctx),
            None => {
                &&& r == Ok::<TransferEvent, ErrorCode>(
                    TransferEvent {
                        from: old(ctx).from_owner,
                        to: old(ctx).to_owner,
                        amount,
                        timestamp: now,
                    },
                )
                &&& final(ctx).from_vault == old(ctx).from_vault.sent(amount)
                &&& final(ctx).to_vault == destination(
                    *old(ctx),
                    now,
                    final(ctx).to_vault.token_account,
                ).received(amount)
                &&& !old(ctx).to_vault.is_active() ==> final(ctx).to_vault.token_account.is_zero()
                &&& final(ctx).to_vault.is_active()
                &&& final(ctx).from_owner == old(ctx).from_owner
                &&& final(ctx).to_owner == old(ctx).to_owner
                &&& final(ctx).to_vault_bump == old(ctx).to_vault_bump
                &&& final(ctx).from_vault.total_balance + final(ctx).to_vault.total_balance
                    == old(ctx).from_vault.total_balance + destination(
                    *old(ctx),
                    now,
                    final(ctx).to_vault.token_account,
                ).total_balance
                &&& final(ctx).from_vault.total_deposited == old(ctx).from_vault.total_deposited
                &&& final(ctx).from_vault.total_withdrawn == old(ctx).from_vault.total_withdrawn
                &&& final(ctx).to_vault.total_deposited == destination(
                    *old(ctx),
                    now,
                    final(ctx).to_vault.token_account,
                ).total_deposited
                &&& final(ctx).to_vault.total_withdrawn == destination(
                    *old(ctx),
                    now,
                    final(ctx).to_vault.token_account,
                ).total_withdrawn
            },
        },
{
    if !ctx.from_owner.same_as(&ctx.from_vault.owner) {
        return Err(ErrorCode::Unauthorized);
    }
    if amount == 0 {
        return Err(ErrorCode::InvalidAmount);
    }
    if ctx.from_owner.same_as(&ctx.to_owner) || ctx.to_owner.is_default() {
        return Err(ErrorCode::InvalidRecipientVault);
    }
    let to_active = !ctx.to_vault.owner.is_default();
    if to_active {
        if !ctx.to_vault.owner.same_as(&ctx.to_owner) {
            return Err(ErrorCode::InvalidRecipientVault);
        }
        if !ctx.to_vault.usdt_mint.same_as(&ctx.from_vault.usdt_mint) {
            return Err(ErrorCode::AssetMismatch);
        }
    }
    if amount > ctx.from_vault.available_balance {
        return Err(ErrorCode::InsufficientBalance);
    }
    let mut to = if to_active {
        ctx.to_vault
    } else {
        CollateralVault {
            owner: ctx.to_owner,
            usdt_mint: ctx.from_vault.usdt_mint,
            token_account: Pubkey::default(),
            total_balance: 0,
            locked_balance: 0,
            available_balance: 0,
            total_deposited: 0,
            total_withdrawn: 0,
            created_at: now,
            bump: ctx.to_vault_bump,
        }
    };
    let to_total = match to.total_balance.checked_add(amount) {
        Some(t) => t,
        None => return Err(ErrorCode::Overflow),
    };
    let to_available = match to.available_balance.checked_add(amount) {
        Some(a) => a,
        None => return Err(ErrorCode::Overflow),
    };
    to.total_balance = to_total;
    to.available_balance = to_available;
    ctx.from_vault.available_balance = ctx.from_vault.available_balance - amount;
    ctx.from_vault.total_balance = ctx.from_vault.total_balance - amount;
    ctx.to_vault = to;
    Ok(TransferEvent { from: ctx.from_owner, to: ctx.to_owner, amount, timestamp: now })
}

} // verus!

verus! {

/// Opening a vault: the signer who will own it, the record to fill, and the
/// asset and custody account it is bound to.
#[derive(Clone, Copy, Debug)]
pub struct InitializeVault {
    pub user: Pubkey,
    pub vault: CollateralVault,
    pub vault_token_account: Pubkey,
    pub usdt_mint: Pubkey,
    pub vault_bump: u8,
}

/// Opens the signer's vault at `now`, every balance and counter zero. Fails
/// with `AlreadyExists` where the record is already in use, and with
/// `Unauthorized` for the all-zero identity, which owns nothing.
pub fn initialize_vault(ctx: &mut InitializeVault, now: i64) -> (r: Result<
    InitializeVaultEvent,
    ErrorCode,
>)
    ensures
        old(ctx).vault.is_active() ==> r == Err::<InitializeVaultEvent, ErrorCode>(ErrorCode::AlreadyExists),
        !old(ctx).vault.is_active() && old(ctx).user.is_zero() ==> r == Err::<InitializeVaultEvent, ErrorCode>(ErrorCode::Unauthorized),
        !old(ctx).vault.is_active() && !old(ctx).user.is_zero() ==> {
            &&& r == Ok::<InitializeVaultEvent, ErrorCode>(
                InitializeVaultEvent {
                    vault: old(ctx).user,
                    owner: old(ctx).user,
                    token_mint: old(ctx).usdt_mint,
                    vault_token_account: old(ctx).vault_token_account,
                    timestamp: now,
                },
            )
            &&& *final(ctx) == (InitializeVault {
                vault: CollateralVault::fresh(
                    old(ctx).user,
                    old(ctx).usdt_mint,
                    old(ctx).vault_token_account,
                    now,
                    old(ctx).vault_bump,
                ),
                ..*old(ctx)
            })
            &&& final(ctx).vault.wf() && final(ctx).vault.is_active()
        },
        r.is_err() ==> *final(ctx) == *old(ctx),
{
    if !ctx.vault.owner.is_default() {
        return Err(ErrorCode::AlreadyExists);
    }
    if ctx.user.is_default() {
        return Err(ErrorCode::Unauthorized);
    }
    ctx.vault = CollateralVault {
        owner: ctx.user,
        usdt_mint: ctx.usdt_mint,
        token_account: ctx.vault_token_account,
        total_balance: 0,
        locked_balance: 0,
        available_balance: 0,
        total_deposited: 0,
        total_withdrawn: 0,
        created_at: now,
        bump: ctx.vault_bump,
    };
    Ok(
        InitializeVaultEvent {
            vault: ctx.user,
            owner: ctx.user,
            token_mint: ctx.usdt_mint,
            vault_token_account: ctx.vault_token_account,
            timestamp: now,
        },
    )
}

/// Depositing: the signer and the vault that receives.
#[derive(Clone, Copy, Debug)]
pub struct Deposit {
    pub user: Pubkey,
    pub vault: CollateralVault,
}

/// Adds `amount` to the vault's total and available balance and to its
/// deposit counter. The caller moves the asset into the custody account and
/// commits this only where both succeed.
pub fn deposit(ctx: &mut Deposit, amount: u64, now: i64) -> (r: Result<DepositEvent, ErrorCode>)
    requires
        old(ctx).vault.wf(),
    ensures
        final(ctx).vault.wf(),
        final(ctx).user == old(ctx).user,
        amount == 0 ==> r == Err::<DepositEvent, ErrorCode>(ErrorCode::InvalidAmount),
        amount > 0 && !old(ctx).vault.deposit_fits(amount) ==> r == Err::<DepositEvent, ErrorCode>(ErrorCode::Overflow),
        amount > 0 && old(ctx).vault.deposit_fits(amount) ==> {
            &&& r == Ok::<DepositEvent, ErrorCode>(
                DepositEvent {
                    user: old(ctx).user,
                    amount,
                    new_balance: final(ctx).vault.total_balance,
                    timestamp: now,
                },
            )
            &&& final(ctx).vault == old(ctx).vault.deposited(amount)
        },
        r.is_err() ==> *final(ctx) == *old(ctx),
{
    if amount == 0 {
        return Err(ErrorCode::InvalidAmount);
    }
    let total = match ctx.vault.total_balance.checked_add(amount) {
        Some(t) => t,
        None => return Err(ErrorCode::Overflow),
    };
    let available = match ctx.vault.available_balance.checked_add(amount) {
        Some(a) => a,
        None => return Err(ErrorCode::Overflow),
    };
    let deposited = match ctx.vault.total_deposited.checked_add(amount) {
        Some(d) => d,
        None => return Err(ErrorCode::Overflow),
    };
    ctx.vault.total_balance = total;
    ctx.vault.available_balance = available;
    ctx.vault.total_deposited = deposited;
    Ok(DepositEvent { user: ctx.user, amount, new_balance: total, timestamp: now })
}

/// Locking: the vault whose collateral is reserved. No signer is asked for:
/// like the unlock, this move is open to any caller that can name the vault,
/// and access to it is a matter for the surrounding system.
#[derive(Clone, Copy, Debug)]
pub struct LockCollateral {
    pub vault: CollateralVault,
}

/// Moves `amount` from the available into the locked balance. A zero amount
/// is accepted and changes nothing.
pub fn lock_collateral(ctx: &mut LockCollateral, amount: u64, now: i64) -> (r: Result<
    LockEvent,
    ErrorCode,
>)
    requires
        old(ctx).vault.wf(),
    ensures
        final(ctx).vault.wf(),
        amount > old(ctx).vault.available_balance ==> r == Err::<LockEvent, ErrorCode>(ErrorCode::InsufficientBalance)
            && *final(ctx) == *old(ctx),
        amount <= old(ctx).vault.available_balance ==> r == Ok::<LockEvent, ErrorCode>(
            LockEvent { vault: old(ctx).vault.owner, amount, timestamp: now },
        ) && final(ctx).vault == old(ctx).vault.locked(amount),
{
    if ctx.vault.available_balance < amount {
        return Err(ErrorCode::InsufficientBalance);
    }
    ctx.vault.available_balance = ctx.vault.available_balance - amount;
    ctx.vault.locked_balance = ctx.vault.locked_balance + amount;
    Ok(LockEvent { vault: ctx.vault.owner, amount, timestamp: now })
}

/// Unlocking: the vault whose collateral is released. No signer is asked for,
/// as with locking.
#[derive(Clone, Copy, Debug)]
pub struct UnlockCollateral {
    pub vault: CollateralVault,
}

/// Moves `amount` from the locked into the available balance. A zero amount
/// is accepted and changes nothing.
pub fn unlock_collateral(ctx: &mut UnlockCollateral, amount: u64, now: i64) -> (r: Result<
    UnlockEvent,
    ErrorCode,
>)
    requires
        old(ctx).vault.wf(),
    ensures
        final(ctx).vault.wf(),
        amount > old(ctx).vault.locked_balance ==> r == Err::<UnlockEvent, ErrorCode>(ErrorCode::InsufficientBalance)
            && *final(ctx) == *old(ctx),
        amount <= old(ctx).vault.locked_balance ==> r == Ok::<UnlockEvent, ErrorCode>(
            UnlockEvent { vault: old(ctx).vault.owner, amount, timestamp: now },
        ) && final(ctx).vault == old(ctx).vault.unlocked(amount),
{
    if ctx.vault.locked_balance < amount {
        return Err(ErrorCode::InsufficientBalance);
    }
    ctx.vault.locked_balance = ctx.vault.locked_balance - amount;
    ctx.vault.available_balance = ctx.vault.available_balance + amount;
    Ok(UnlockEvent { vault: ctx.vault.owner, amount, timestamp: now })
}

} // verus!
