use vstd::prelude::*;

use crate::pubkey::Pubkey;

verus! {

/// The ledger record of one owner's vault.
#[derive(Clone, Copy, Debug)]
pub struct CollateralVault {
    pub owner: Pubkey,
    /// The asset this vault holds, fixed when the vault is created.
    pub usdt_mint: Pubkey,
    /// The account that holds the asset for this vault; all zero while none is
    /// bound (a vault first created as the destination of a transfer).
    pub token_account: Pubkey,
    pub total_balance: u64,
    pub locked_balance: u64,
    pub available_balance: u64,
    pub total_deposited: u64,
    pub total_withdrawn: u64,
    pub created_at: i64,
    /// The tag that, with the owner, derives the vault's own authority.
    pub bump: u8,
}

impl CollateralVault {
    /// Bytes of the stored record: three identities, five balances and
    /// counters, a timestamp and the derivation tag.
    pub const LEN: usize = 32 + 32 + 32 + 8 * 5 + 8 + 1;

    /// The ledger invariant: the two partitions make up the total.
    pub open spec fn wf(self) -> bool {
        self.total_balance as int == self.locked_balance as int + self.available_balance as int
    }

    /// The record exists: its owner is set.
    pub open spec fn is_active(self) -> bool {
        !self.owner.is_zero()
    }

    /// A fresh record for `owner`: every balance and counter zero.
    pub open spec fn fresh(
        owner: Pubkey,
        mint: Pubkey,
        token_account: Pubkey,
        created_at: i64,
        bump: u8,
    ) -> CollateralVault {
        CollateralVault {
            owner,
            usdt_mint: mint,
            token_account,
            total_balance: 0,
            locked_balance: 0,
            available_balance: 0,
            total_deposited: 0,
            total_withdrawn: 0,
            created_at,
            bump,
        }
    }

    /// A deposit of `a` fits in every field it raises.
    pub open spec fn deposit_fits(self, a: u64) -> bool {
        self.total_balance + a <= u64::MAX && self.available_balance + a <= u64::MAX
            && self.total_deposited + a <= u64::MAX
    }

    /// The record after a deposit of `a`.
    pub open spec fn deposited(self, a: u64) -> CollateralVault {
        CollateralVault {
            total_balance: (self.total_balance + a) as u64,
            available_balance: (self.available_balance + a) as u64,
            total_deposited: (self.total_deposited + a) as u64,
            ..self
        }
    }

    /// A withdrawal of `a` fits in the outflow counter.
    pub open spec fn withdraw_fits(self, a: u64) -> bool {
        self.total_withdrawn + a <= u64::MAX
    }

    /// The record after a withdrawal of `a`.
    pub open spec fn withdrawn(self, a: u64) -> CollateralVault {
        CollateralVault {
            total_balance: (self.total_balance - a) as u64,
            available_balance: (self.available_balance - a) as u64,
            total_withdrawn: (self.total_withdrawn + a) as u64,
            ..self
        }
    }

    /// The record after `a` moved from the available into the locked part.
    pub open spec fn locked(self, a: u64) -> CollateralVault {
        CollateralVault {
            available_balance: (self.available_balance - a) as u64,
            locked_balance: (self.locked_balance + a) as u64,
            ..self
        }
    }

    /// The record after `a` moved from the locked into the available part.
    pub open spec fn unlocked(self, a: u64) -> CollateralVault {
        CollateralVault {
            locked_balance: (self.locked_balance - a) as u64,
            available_balance: (self.available_balance + a) as u64,
            ..self
        }
    }

    /// The record after `a` left it for another vault: the counters stay.
    pub open spec fn sent(self, a: u64) -> CollateralVault {
        CollateralVault {
            total_balance: (self.total_balance - a) as u64,
            available_balance: (self.available_balance - a) as u64,
            ..self
        }
    }

    /// Receiving `a` from another vault fits in the balances it raises.
    pub open spec fn receive_fits(self, a: u64) -> bool {
        self.total_balance + a <= u64::MAX && self.available_balance + a <= u64::MAX
    }

    /// The record after `a` came in from another vault: the counters stay.
    pub open spec fn received(self, a: u64) -> CollateralVault {
        CollateralVault {
            total_balance: (self.total_balance + a) as u64,
            available_balance: (self.available_balance + a) as u64,
            ..self
        }
    }

    /// A record that was never initialized: every field zero.
    pub fn uninitialized() -> (r: CollateralVault)
        ensures
            r.wf(),
            !r.is_active(),
            r == CollateralVault::fresh(r.owner, r.owner, r.owner, 0, 0),
    {
        let zero = Pubkey::default();
        CollateralVault {
            owner: zero,
            usdt_mint: zero,
            token_account: zero,
            total_balance: 0,
            locked_balance: 0,
            available_balance: 0,
            total_deposited: 0,
            total_withdrawn: 0,
            created_at: 0,
            bump: 0,
        }
    }
}

/// The authority a vault signs outbound custody transfers with: derived from a
/// fixed domain tag, the owner and the vault's derivation tag alone, so it is
/// never held as a secret.
#[derive(Clone, Copy, Debug)]
pub struct VaultAuthority {
    pub owner: Pubkey,
    pub bump: u8,
}

/// The domain tag that every vault address and authority is derived under,
/// as bytes: `vault_v1`.
pub open spec fn vault_seed_spec() -> Seq<u8> {
    seq![118u8, 97u8, 117u8, 108u8, 116u8, 95u8, 118u8, 49u8]
}

/// The domain tag `vault_v1` as bytes.
pub fn vault_seed() -> (r: Vec<u8>)
    ensures
        r@ == vault_seed_spec(),
{
    let r: Vec<u8> = vec![118u8, 97u8, 117u8, 108u8, 116u8, 95u8, 118u8, 49u8];
    assert(r@ =~= vault_seed_spec());
    r
}

/// The authority of `vault`, a pure function of its owner and tag.
pub fn derive_authority(vault: &CollateralVault) -> (r: VaultAuthority)
    ensures
        r.owner == vault.owner,
        r.bump == vault.bump,
{
    VaultAuthority { owner: vault.owner, bump: vault.bump }
}

impl VaultAuthority {
    /// The signer seeds in order: the domain tag, the owner's bytes and the
    /// derivation tag.
    pub fn seeds(&self) -> (r: Vec<Vec<u8>>)
        ensures
            r@.len() == 3,
            r@[0]@ == vault_seed_spec(),
            r@[1]@ == self.owner.bytes@,
            r@[2]@ == seq![self.bump],
    {
        let mut owner_bytes: Vec<u8> = Vec::new();
        let mut i: usize = 0;
        while i < 32
            invariant
                0 <= i <= 32,
                owner_bytes@ == self.owner.bytes@.subrange(0, i as int),
            decreases 32 - i,
        {
            owner_bytes.push(self.owner.bytes[i]);
            i = i + 1;
            assert(owner_bytes@ =~= self.owner.bytes@.subrange(0, i as int));
        }
        assert(owner_bytes@ =~= self.owner.bytes@);
        let tag: Vec<u8> = vec![self.bump];
        assert(tag@ =~= seq![self.bump]);
        let r: Vec<Vec<u8>> = vec![vault_seed(), owner_bytes, tag];
        r
    }
}

} // verus!
