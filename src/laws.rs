use vstd::prelude::*;

use crate::identity::Identity;
use crate::ledger::{
    index_of,
    lemma_deposited,
    lemma_index_of,
    lemma_index_of_unique,
    lemma_withdrawn,
    users_unique,
    EscrowView,
    UserDeposit,
};

verus! {

/// The total equals the sum of the claims in a fresh escrow, and deposits and
/// permitted withdrawals keep it so. Opening a game adds the stakes to the
/// total without a claim, so it is not among these transitions.
pub proof fn lemma_ledger_stays_balanced(v: EscrowView, who: Identity, amount: u64)
    requires
        v.wf(),
        v.balanced(),
    ensures
        (EscrowView { owner: v.owner, total: 0, deposits: Seq::empty() }).balanced(),
        v.total + amount <= u64::MAX ==> v.deposited(who, amount).balanced(),
        v.can_withdraw(who, amount) ==> v.withdrawn(who, amount).balanced(),
{
    if v.total + amount <= u64::MAX {
        lemma_deposited(v, who, amount);
    }
    if v.can_withdraw(who, amount) {
        lemma_withdrawn(v, who, amount);
    }
}

/// A deposit by an identity that already holds a claim, followed at once by
/// a withdrawal of the same amount by the same identity, is permitted by the
/// ledger and restores the escrow exactly.
pub proof fn lemma_deposit_withdraw_round_trip(v: EscrowView, who: Identity, amount: u64)
    requires
        v.wf(),
        v.has_entry(who),
        v.total + amount <= u64::MAX,
    ensures
        v.deposited(who, amount).can_withdraw(who, amount),
        v.deposited(who, amount).withdrawn(who, amount) == v,
{
    lemma_deposited(v, who, amount);
    lemma_index_of(v.deposits, who);
    let d = v.deposited(who, amount);
    let i = index_of(v.deposits, who);
    lemma_withdrawn(d, who, amount);
    lemma_index_of_unique(d.deposits, who, i);
    assert(d.withdrawn(who, amount).deposits =~= v.deposits);
}

/// Two deposits by one identity leave exactly one claim for it: the claims
/// stay unique, at most one entry is added, and the claim holds both amounts.
pub proof fn lemma_deposit_upsert(v: EscrowView, who: Identity, first: u64, second: u64)
    requires
        v.wf(),
        v.total + first + second <= u64::MAX,
    ensures
        users_unique(v.deposited(who, first).deposited(who, second).deposits),
        v.has_entry(who) ==> v.deposited(who, first).deposited(who, second).deposits.len()
            == v.deposits.len(),
        !v.has_entry(who) ==> v.deposited(who, first).deposited(who, second).deposits.len()
            == v.deposits.len() + 1,
        v.deposited(who, first).deposited(who, second).claim(who) == v.claim(who) + first + second,
{
    let once = v.deposited(who, first);
    lemma_deposited(v, who, first);
    lemma_deposited(once, who, second);
    lemma_index_of(v.deposits, who);
    lemma_index_of(once.deposits, who);
}

/// Withdrawing exactly an identity's tracked claim is permitted and leaves
/// its entry in place with a claim of zero.
pub proof fn lemma_exact_withdraw(v: EscrowView, who: Identity)
    requires
        v.wf(),
        v.has_entry(who),
    ensures
        v.can_withdraw(who, v.claim(who) as u64),
        v.withdrawn(who, v.claim(who) as u64).has_entry(who),
        v.withdrawn(who, v.claim(who) as u64).claim(who) == 0,
        v.withdrawn(who, v.claim(who) as u64).deposits.len() == v.deposits.len(),
{
    lemma_index_of(v.deposits, who);
    lemma_withdrawn(v, who, v.claim(who) as u64);
}

/// Withdrawing one more than an identity's tracked claim is never permitted.
pub proof fn lemma_over_withdraw(v: EscrowView, who: Identity)
    requires
        v.claim(who) < u64::MAX,
    ensures
        !v.can_withdraw(who, (v.claim(who) + 1) as u64),
{
}

} // verus!
