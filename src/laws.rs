use vstd::prelude::*;

use crate::state::CollateralVault;

verus! {

/// Every state change that an operation may make keeps the ledger invariant
/// `total == locked + available`, on exactly the amounts the operation accepts.
pub proof fn lemma_transitions_keep_invariant(v: CollateralVault, a: u64)
    requires
        v.wf(),
    ensures
        v.deposit_fits(a) ==> v.deposited(a).wf(),
        a <= v.available_balance ==> v.withdrawn(a).wf(),
        a <= v.available_balance ==> v.locked(a).wf(),
        a <= v.locked_balance ==> v.unlocked(a).wf(),
        a <= v.available_balance ==> v.sent(a).wf(),
        v.receive_fits(a) ==> v.received(a).wf(),
{
}

/// A withdrawal of what was just deposited brings the total and available
/// balance back, while the deposit and withdrawal counters each grow by the
/// amount: the two counters are kept apart.
pub proof fn lemma_withdraw_undoes_deposit(v: CollateralVault, a: u64)
    requires
        v.wf(),
        v.deposit_fits(a),
        v.withdraw_fits(a),
    ensures
        a <= v.deposited(a).available_balance,
        v.deposited(a).withdrawn(a).total_balance == v.total_balance,
        v.deposited(a).withdrawn(a).available_balance == v.available_balance,
        v.deposited(a).withdrawn(a).locked_balance == v.locked_balance,
        v.deposited(a).withdrawn(a).total_deposited == v.total_deposited + a,
        v.deposited(a).withdrawn(a).total_withdrawn == v.total_withdrawn + a,
{
}

/// Unlocking what was just locked gives back the very same record.
pub proof fn lemma_unlock_undoes_lock(v: CollateralVault, a: u64)
    requires
        v.wf(),
        a <= v.available_balance,
    ensures
        a <= v.locked(a).locked_balance,
        v.locked(a).unlocked(a) == v,
{
}

/// A transfer between two vaults neither creates nor destroys balance, and
/// leaves all four deposit and withdrawal counters as they were.
pub proof fn lemma_transfer_conserves(from: CollateralVault, to: CollateralVault, a: u64)
    requires
        from.wf(),
        to.wf(),
        a <= from.available_balance,
        to.receive_fits(a),
    ensures
        from.sent(a).total_balance + to.received(a).total_balance == from.total_balance
            + to.total_balance,
        from.sent(a).total_deposited == from.total_deposited,
        from.sent(a).total_withdrawn == from.total_withdrawn,
        to.received(a).total_deposited == to.total_deposited,
        to.received(a).total_withdrawn == to.total_withdrawn,
{
}

} // verus!
