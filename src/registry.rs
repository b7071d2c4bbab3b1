use vstd::prelude::*;

use crate::error::ErrorCode;
use crate::events::TransferEvent;
use crate::instructions::{destination, transfer_collateral, transfer_error, TransferCollateral};
use crate::pubkey::Pubkey;
use crate::state::CollateralVault;

verus! {

/// The store of vault records, at most one per owner, kept in order of
/// creation. Records are added, never removed.
pub struct VaultRegistry {
    vaults: Vec<CollateralVault>,
}

impl View for VaultRegistry {
    type V = Seq<CollateralVault>;

    closed spec fn view(&self) -> Seq<CollateralVault> {
        self.vaults@
    }
}

impl VaultRegistry {
    /// Every record is active and keeps the ledger invariant, and no two
    /// records share an owner.
    pub open spec fn wf(&self) -> bool {
        &&& forall|i: int| 0 <= i < self@.len() ==> #[trigger] self@[i].wf() && self@[i].is_active()
        &&& forall|i: int, j: int|
            0 <= i < j < self@.len() ==> #[trigger] self@[i].owner.bytes@ != #[trigger] self@[j].owner.bytes@
    }

    /// The record at `i` belongs to `owner`.
    pub open spec fn owns(&self, i: int, owner: Pubkey) -> bool {
        0 <= i < self@.len() && self@[i].owner.bytes@ == owner.bytes@
    }

    /// Some record belongs to `owner`.
    pub open spec fn has(&self, owner: Pubkey) -> bool {
        exists|i: int| self.owns(i, owner)
    }

    pub fn new() -> (r: VaultRegistry)
        ensures
            r.wf(),
            r@ == Seq::<CollateralVault>::empty(),
    {
        VaultRegistry { vaults: Vec::new() }
    }

    pub fn len(&self) -> (r: usize)
        ensures
            r == self@.len(),
    {
        self.vaults.len()
    }

    /// Where the record of `owner` stands, if there is one.
    pub fn find(&self, owner: &Pubkey) -> (r: Option<usize>)
        ensures
            match r {
                Some(i) => self.owns(i as int, *owner),
                None => !self.has(*owner),
            },
    {
        let mut i: usize = 0;
        while i < self.vaults.len()
            invariant
                0 <= i <= self@.len(),
                self@ == self.vaults@,
                forall|j: int| 0 <= j < i ==> !#[trigger] self.owns(j, *owner),
            decreases self@.len() - i,
        {
            if self.vaults[i].owner.same_as(owner) {
                return Some(i);
            }
            i = i + 1;
        }
        None
    }

    /// The record of `owner`; `NotFound` where there is none.
    pub fn get(&self, owner: &Pubkey) -> (r: Result<CollateralVault, ErrorCode>)
        requires
            self.wf(),
        ensures
            match r {
                Ok(v) => exists|i: int| self.owns(i, *owner) && self@[i] == v,
                Err(e) => e == ErrorCode::NotFound && !self.has(*owner),
            },
            self.has(*owner) ==> r.is_ok(),
    {
        match self.find(owner) {
            Some(i) => Ok(self.vaults[i]),
            None => Err(ErrorCode::NotFound),
        }
    }

    /// Opens a vault for `owner` at `now`, every balance and counter zero.
    /// Fails with `AlreadyExists` where `owner` has one, and with
    /// `Unauthorized` for the all-zero identity.
    pub fn create(
        &mut self,
        owner: Pubkey,
        mint: Pubkey,
        token_account: Pubkey,
        now: i64,
        bump: u8,
    ) -> (r: Result<(), ErrorCode>)
        requires
            old(self).wf(),
        ensures
            final(self).wf(),
            old(self).has(owner) ==> r == Err::<(), ErrorCode>(ErrorCode::AlreadyExists),
            !old(self).has(owner) && owner.is_zero() ==> r == Err::<(), ErrorCode>(ErrorCode::Unauthorized),
            !old(self).has(owner) && !owner.is_zero() ==> r == Ok::<(), ErrorCode>(())
                && final(self)@ == old(self)@.push(CollateralVault::fresh(owner, mint, token_account, now, bump)),
            r.is_err() ==> final(self)@ == old(self)@,
    {
        if self.find(&owner).is_some() {
            return Err(ErrorCode::AlreadyExists);
        }
        if owner.is_default() {
            return Err(ErrorCode::Unauthorized);
        }
        let v = CollateralVault {
            owner,
            usdt_mint: mint,
            token_account,
            total_balance: 0,
            locked_balance: 0,
            available_balance: 0,
            total_deposited: 0,
            total_withdrawn: 0,
            created_at: now,
            bump,
        };
        self.push_new(v);
        Ok(())
    }

    /// Stores `v` in place of the record of its owner, after an operation on
    /// it. Fails with `NotFound` where the owner has no record; the registry
    /// opens records only through `create` and `get_or_create`.
    pub fn put(&mut self, v: CollateralVault) -> (r: Result<(), ErrorCode>)
        requires
            old(self).wf(),
            v.wf(),
        ensures
            final(self).wf(),
            old(self).has(v.owner) ==> r == Ok::<(), ErrorCode>(())
                && final(self)@ == old(self)@.update(old(self).index_of(v.owner), v),
            !old(self).has(v.owner) ==> r == Err::<(), ErrorCode>(ErrorCode::NotFound)
                && final(self)@ == old(self)@,
    {
        match self.find(&v.owner) {
            Some(i) => {
                proof {
                    self.lemma_owner_unique(i as int, v.owner);
                    assert(old(self)@[i as int].wf());
                    assert(v.owner.is_zero() == old(self)@[i as int].owner.is_zero());
                }
                self.replace_at(i, v);
                Ok(())
            },
            None => Err(ErrorCode::NotFound),
        }
    }

    /// Stores `v` at `i`, in place of a record of the same owner.
    fn replace_at(&mut self, i: usize, v: CollateralVault)
        requires
            old(self).wf(),
            i < old(self)@.len(),
            v.wf(),
            v.is_active(),
            v.owner.bytes@ == old(self)@[i as int].owner.bytes@,
        ensures
            final(self).wf(),
            final(self)@ == old(self)@.update(i as int, v),
    {
        self.vaults.set(i, v);
        assert forall|k: int| 0 <= k < self@.len() implies #[trigger] self@[k].wf()
            && self@[k].is_active() by {
            if k != i {
                assert(old(self)@[k].wf());
                assert(self@[k] == old(self)@[k]);
            }
        }
        assert forall|a: int, b: int| 0 <= a < b < self@.len() implies #[trigger] self@[a].owner.bytes@
            != #[trigger] self@[b].owner.bytes@ by {
            assert(self@[a].owner.bytes@ == old(self)@[a].owner.bytes@);
            assert(self@[b].owner.bytes@ == old(self)@[b].owner.bytes@);
        }
    }

    /// Adds a record whose owner has none yet.
    fn push_new(&mut self, v: CollateralVault)
        requires
            old(self).wf(),
            v.wf(),
            v.is_active(),
            !old(self).has(v.owner),
        ensures
            final(self).wf(),
            final(self)@ == old(self)@.push(v),
    {
        self.vaults.push(v);
        assert forall|i: int, j: int| 0 <= i < j < self@.len() implies #[trigger] self@[i].owner.bytes@
            != #[trigger] self@[j].owner.bytes@ by {
            if j == self@.len() - 1 {
                assert(!old(self).owns(i, v.owner));
            } else {
                assert(old(self)@[i] == self@[i] && old(self)@[j] == self@[j]);
            }
        }
    }

    /// Where the record of `owner` stands, after opening a zeroed one with no
    /// custody account bound (all zero) where there was none. Fails with
    /// `InvalidRecipientVault` for the all-zero identity.
    pub fn get_or_create(&mut self, owner: Pubkey, mint: Pubkey, now: i64, bump: u8) -> (r: Result<
        usize,
        ErrorCode,
    >)
        requires
            old(self).wf(),
        ensures
            final(self).wf(),
            old(self).has(owner) ==> final(self)@ == old(self)@ && r.is_ok(),
            !old(self).has(owner) && owner.is_zero() ==> r == Err::<usize, ErrorCode>(ErrorCode::InvalidRecipientVault)
                && final(self)@ == old(self)@,
            !old(self).has(owner) && !owner.is_zero() ==> {
                &&& r == Ok::<usize, ErrorCode>(old(self)@.len() as usize)
                &&& final(self)@ == old(self)@.push(
                    CollateralVault::fresh(owner, mint, final(self)@.last().token_account, now, bump),
                )
                &&& final(self)@.last().token_account.is_zero()
            },
            match r {
                Ok(i) => final(self).owns(i as int, owner),
                Err(_) => true,
            },
    {
        match self.find(&owner) {
            Some(i) => Ok(i),
            None => {
                if owner.is_default() {
                    return Err(ErrorCode::InvalidRecipientVault);
                }
                let at = self.vaults.len();
                let v = CollateralVault {
                    owner,
                    usdt_mint: mint,
                    token_account: Pubkey::default(),
                    total_balance: 0,
                    locked_balance: 0,
                    available_balance: 0,
                    total_deposited: 0,
                    total_withdrawn: 0,
                    created_at: now,
                    bump,
                };
                self.push_new(v);
                Ok(at)
            },
        }
    }

    /// The position of the record of `owner`, where there is one.
    pub open spec fn index_of(&self, owner: Pubkey) -> int {
        choose|i: int| self.owns(i, owner)
    }

    /// At most one record belongs to an owner.
    pub proof fn lemma_owner_unique(&self, i: int, owner: Pubkey)
        requires
            self.wf(),
            self.owns(i, owner),
        ensures
            self.has(owner),
            self.index_of(owner) == i,
    {
        let k = self.index_of(owner);
        assert(self.owns(k, owner));
        if k < i {
            assert(self@[k].owner.bytes@ != self@[i].owner.bytes@);
        } else if i < k {
            assert(self@[i].owner.bytes@ != self@[k].owner.bytes@);
        }
    }

    /// The error a transfer of `amount` from the vault of `from_owner` to that
    /// of `to_owner` meets, checked in this order, or `None` when it goes
    /// through.
    pub open spec fn transfer_refusal(&self, from_owner: Pubkey, to_owner: Pubkey, amount: u64) -> Option<
        ErrorCode,
    > {
        let from = self@[self.index_of(from_owner)];
        let to = self@[self.index_of(to_owner)];
        if !self.has(from_owner) {
            Some(ErrorCode::NotFound)
        } else if amount == 0 {
            Some(ErrorCode::InvalidAmount)
        } else if from_owner.bytes@ == to_owner.bytes@ || to_owner.is_zero() {
            Some(ErrorCode::InvalidRecipientVault)
        } else if self.has(to_owner) && to.usdt_mint.bytes@ != from.usdt_mint.bytes@ {
            Some(ErrorCode::AssetMismatch)
        } else if amount > from.available_balance {
            Some(ErrorCode::InsufficientBalance)
        } else if self.has(to_owner) && !to.receive_fits(amount) {
            Some(ErrorCode::Overflow)
        } else {
            None
        }
    }

    /// Moves `amount` of available balance from the vault of `from_owner` to
    /// that of `to_owner`, which is opened first where it does not exist (with
    /// the source's asset and no custody account bound). Either both records
    /// change or neither does, and no vault is opened by a refused transfer.
    pub fn transfer(
        &mut self,
        from_owner: Pubkey,
        to_owner: Pubkey,
        amount: u64,
        now: i64,
        bump: u8,
    ) -> (r: Result<TransferEvent, ErrorCode>)
        requires
            old(self).wf(),
        ensures
            final(self).wf(),
            match old(self).transfer_refusal(from_owner, to_owner, amount) {
                Some(e) => r == Err::<TransferEvent, ErrorCode>(e) && final(self)@ == old(self)@,
                None => {
                    let fi = old(self).index_of(from_owner);
                    let ti = old(self).index_of(to_owner);
                    let from = old(self)@[fi];
                    let sent = old(self)@.update(fi, from.sent(amount));
                    &&& r == Ok::<TransferEvent, ErrorCode>(
                        TransferEvent { from: from_owner, to: to_owner, amount, timestamp: now },
                    )
                    &&& old(self).has(to_owner) ==> final(self)@ == sent.update(
                        ti,
                        old(self)@[ti].received(amount),
                    )
                    &&& !old(self).has(to_owner) ==> {
                        &&& final(self)@ == sent.push(
                            CollateralVault::fresh(
                                to_owner,
                                from.usdt_mint,
                                final(self)@.last().token_account,
                                now,
                                bump,
                            ).received(amount),
                        )
                        &&& final(self)@.last().token_account.is_zero()
                    }
                },
            },
    {
        let fi = match self.find(&from_owner) {
            Some(i) => i,
            None => return Err(ErrorCode::NotFound),
        };
        proof {
            self.lemma_owner_unique(fi as int, from_owner);
        }
        let to_at = self.find(&to_owner);
        let to_vault = match to_at {
            Some(ti) => {
                proof {
                    self.lemma_owner_unique(ti as int, to_owner);
                }
                self.vaults[ti]
            },
            None => CollateralVault::uninitialized(),
        };
        let mut ctx = TransferCollateral {
            from_owner,
            to_owner,
            from_vault: self.vaults[fi],
            to_vault,
            to_vault_bump: bump,
        };
        let ghost c0 = ctx;
        let event = match transfer_collateral(&mut ctx, amount, now) {
            Ok(e) => e,
            Err(e) => return Err(e),
        };
        assert(transfer_error(c0, amount).is_none());
        assert(ctx.from_vault.owner == c0.from_vault.owner);
        assert(ctx.to_vault.owner.bytes@ == to_owner.bytes@);
        let ghost sent = self@.update(fi as int, ctx.from_vault);
        self.vaults.set(fi, ctx.from_vault);
        assert(self@ == sent);
        assert forall|i: int| 0 <= i < self@.len() implies #[trigger] self@[i].wf()
            && self@[i].is_active() by {
            assert(old(self)@[i].wf());
            if i != fi {
                assert(self@[i] == old(self)@[i]);
            }
        }
        match to_at {
            Some(ti) => {
                assert(ti != fi);
                self.vaults.set(ti, ctx.to_vault);
                assert forall|i: int| 0 <= i < self@.len() implies #[trigger] self@[i].wf()
                    && self@[i].is_active() by {
                    if i != fi && i != ti {
                        assert(self@[i] == old(self)@[i]);
                    }
                }
                assert forall|i: int, j: int| 0 <= i < j < self@.len() implies #[trigger] self@[i].owner.bytes@
                    != #[trigger] self@[j].owner.bytes@ by {
                    assert(self@[i].owner == old(self)@[i].owner);
                    assert(self@[j].owner == old(self)@[j].owner);
                }
            },
            None => {
                assert forall|i: int, j: int| 0 <= i < j < self@.len() implies #[trigger] self@[i].owner.bytes@
                    != #[trigger] self@[j].owner.bytes@ by {
                    assert(self@[i].owner == old(self)@[i].owner);
                    assert(self@[j].owner == old(self)@[j].owner);
                }
                assert forall|i: int| !self.owns(i, ctx.to_vault.owner) by {
                    if 0 <= i < self@.len() {
                        assert(self@[i].owner == old(self)@[i].owner);
                        assert(!old(self).owns(i, to_owner));
                    }
                }
                self.push_new(ctx.to_vault);
            },
        }
        Ok(event)
    }
}

} // verus!
