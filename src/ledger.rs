use vstd::prelude::*;

use crate::error::ErrorCode;
use crate::identity::Identity;

verus! {

/// One depositor's tracked claim against the pool.
#[derive(Clone, Copy, Debug)]
pub struct UserDeposit {
    pub user: Identity,
    pub amount: u64,
}

/// The pooled escrow: its owner, the running total and one claim per
/// depositor, in the order in which depositors first appeared.
#[derive(Clone, Debug)]
pub struct DepositAccount {
    pub total_deposits: u64,
    pub user_deposits: Vec<UserDeposit>,
    pub owner: Identity,
}

/// The mathematical value of a `DepositAccount`.
pub struct EscrowView {
    pub owner: Identity,
    pub total: nat,
    pub deposits: Seq<UserDeposit>,
}

/// The sum of the tracked claims.
pub open spec fn sum_amounts(s: Seq<UserDeposit>) -> nat
    decreases s.len(),
{
    if s.len() == 0 {
        0
    } else {
        sum_amounts(s.drop_last()) + s.last().amount as nat
    }
}

/// No identity holds two claims.
pub open spec fn users_unique(s: Seq<UserDeposit>) -> bool {
    forall|i: int, j: int|
        0 <= i < s.len() && 0 <= j < s.len() && i != j ==> #[trigger] s[i].user != #[trigger] s[j].user
}

/// The position of `who`'s claim, or -1 where there is none.
pub open spec fn index_of(s: Seq<UserDeposit>, who: Identity) -> int
    decreases s.len(),
{
    if s.len() == 0 {
        -1
    } else if s.last().user == who {
        s.len() - 1
    } else {
        index_of(s.drop_last(), who)
    }
}

impl EscrowView {
    /// Claims are unique per identity and never exceed the total.
    pub open spec fn wf(self) -> bool {
        users_unique(self.deposits) && sum_amounts(self.deposits) <= self.total
    }

    /// The total is exactly the sum of the claims.
    pub open spec fn balanced(self) -> bool {
        self.total == sum_amounts(self.deposits)
    }

    /// `who`'s tracked claim; zero where there is no entry.
    pub open spec fn claim(self, who: Identity) -> nat {
        let i = index_of(self.deposits, who);
        if i >= 0 {
            self.deposits[i].amount as nat
        } else {
            0
        }
    }

    pub open spec fn has_entry(self, who: Identity) -> bool {
        index_of(self.deposits, who) >= 0
    }

    /// The escrow after `who` deposits `amount`: the total grows by `amount`;
    /// an existing claim grows in place, else a new claim is appended.
    pub open spec fn deposited(self, who: Identity, amount: u64) -> EscrowView {
        let i = index_of(self.deposits, who);
        EscrowView {
            owner: self.owner,
            total: self.total + amount as nat,
            deposits: if i >= 0 {
                self.deposits.update(
                    i,
                    UserDeposit { user: who, amount: (self.deposits[i].amount + amount) as u64 },
                )
            } else {
                self.deposits.push(UserDeposit { user: who, amount })
            },
        }
    }

    /// Whether the ledger lets `who` withdraw `amount`: there is an entry for
    /// `who` and it covers `amount`.
    pub open spec fn can_withdraw(self, who: Identity, amount: u64) -> bool {
        self.has_entry(who) && amount <= self.claim(who)
    }

    /// The escrow after `who` withdraws `amount`: the claim and the total
    /// shrink by `amount`; the entry stays, even at zero.
    pub open spec fn withdrawn(self, who: Identity, amount: u64) -> EscrowView {
        let i = index_of(self.deposits, who);
        EscrowView {
            owner: self.owner,
            total: (self.total - amount) as nat,
            deposits: self.deposits.update(
                i,
                UserDeposit { user: who, amount: (self.deposits[i].amount - amount) as u64 },
            ),
        }
    }
}

impl View for DepositAccount {
    type V = EscrowView;

    open spec fn view(&self) -> EscrowView {
        EscrowView {
            owner: self.owner,
            total: self.total_deposits as nat,
            deposits: self.user_deposits@,
        }
    }
}

/// `index_of` finds an entry of `who` or reports that there is none.
pub proof fn lemma_index_of(s: Seq<UserDeposit>, who: Identity)
    ensures
        -1 <= index_of(s, who) < s.len(),
        index_of(s, who) >= 0 ==> s[index_of(s, who)].user == who,
        index_of(s, who) < 0 ==> forall|j: int| 0 <= j < s.len() ==> s[j].user != who,
    decreases s.len(),
{
    if s.len() > 0 {
        lemma_index_of(s.drop_last(), who);
        assert forall|j: int| 0 <= j < s.len() - 1 implies s.drop_last()[j] == s[j] by {}
    }
}

/// With unique claims, any entry of `who` is the one that `index_of` finds.
pub proof fn lemma_index_of_unique(s: Seq<UserDeposit>, who: Identity, j: int)
    requires
        users_unique(s),
        0 <= j < s.len(),
        s[j].user == who,
    ensures
        j == index_of(s, who),
{
    lemma_index_of(s, who);
    let k = index_of(s, who);
    if k != j {
        assert(s[k].user != s[j].user);
    }
}

/// Appending a claim adds its amount to the sum.
pub proof fn lemma_sum_push(s: Seq<UserDeposit>, x: UserDeposit)
    ensures
        sum_amounts(s.push(x)) == sum_amounts(s) + x.amount,
{
    assert(s.push(x).drop_last() =~= s);
}

/// Replacing a claim changes the sum by the difference of the amounts, and
/// no single claim exceeds the sum.
pub proof fn lemma_sum_update(s: Seq<UserDeposit>, i: int, x: UserDeposit)
    requires
        0 <= i < s.len(),
    ensures
        sum_amounts(s.update(i, x)) + s[i].amount == sum_amounts(s) + x.amount,
        s[i].amount <= sum_amounts(s),
    decreases s.len(),
{
    if i == s.len() - 1 {
        assert(s.update(i, x).drop_last() =~= s.drop_last());
    } else {
        lemma_sum_update(s.drop_last(), i, x);
        assert(s.update(i, x).drop_last() =~= s.drop_last().update(i, x));
    }
}

/// Replacing a claim by one of the same identity keeps identities unique.
pub proof fn lemma_unique_update(s: Seq<UserDeposit>, i: int, x: UserDeposit)
    requires
        0 <= i < s.len(),
        users_unique(s),
        x.user == s[i].user,
    ensures
        users_unique(s.update(i, x)),
{
    assert forall|a: int, b: int|
        0 <= a < s.len() && 0 <= b < s.len() && a != b implies #[trigger] s.update(i, x)[a].user
        != #[trigger] s.update(i, x)[b].user by {
        assert(s[a].user != s[b].user);
    }
}

/// Appending a claim of a new identity keeps identities unique.
pub proof fn lemma_unique_push(s: Seq<UserDeposit>, x: UserDeposit)
    requires
        users_unique(s),
        forall|j: int| 0 <= j < s.len() ==> s[j].user != x.user,
    ensures
        users_unique(s.push(x)),
{
    assert forall|a: int, b: int|
        0 <= a < s.push(x).len() && 0 <= b < s.push(x).len() && a != b implies #[trigger] s.push(
        x,
    )[a].user != #[trigger] s.push(x)[b].user by {
        if a < s.len() && b < s.len() {
            assert(s[a].user != s[b].user);
        }
    }
}

/// Facts about a deposit on a well-formed escrow: it stays well formed, keeps
/// the gap between the total and the claims, and leaves one entry for `who`.
pub proof fn lemma_deposited(v: EscrowView, who: Identity, amount: u64)
    requires
        v.wf(),
        v.total + amount <= u64::MAX,
    ensures
        v.deposited(who, amount).wf(),
        v.deposited(who, amount).total - sum_amounts(v.deposited(who, amount).deposits)
            == v.total - sum_amounts(v.deposits),
        v.deposited(who, amount).has_entry(who),
        v.deposited(who, amount).claim(who) == v.claim(who) + amount,
        v.claim(who) <= v.total,
{
    let s = v.deposits;
    let i = index_of(s, who);
    lemma_index_of(s, who);
    let n = v.deposited(who, amount).deposits;
    if i >= 0 {
        let x = UserDeposit { user: who, amount: (s[i].amount + amount) as u64 };
        lemma_sum_update(s, i, x);
        lemma_unique_update(s, i, x);
        lemma_index_of_unique(n, who, i);
    } else {
        let x = UserDeposit { user: who, amount };
        lemma_sum_push(s, x);
        lemma_unique_push(s, x);
        lemma_index_of_unique(n, who, s.len() as int);
    }
}

/// Facts about a permitted withdrawal on a well-formed escrow.
pub proof fn lemma_withdrawn(v: EscrowView, who: Identity, amount: u64)
    requires
        v.wf(),
        v.can_withdraw(who, amount),
    ensures
        amount <= v.total,
        v.withdrawn(who, amount).wf(),
        v.withdrawn(who, amount).total - sum_amounts(v.withdrawn(who, amount).deposits)
            == v.total - sum_amounts(v.deposits),
        v.withdrawn(who, amount).has_entry(who),
        v.withdrawn(who, amount).claim(who) == v.claim(who) - amount,
{
    let s = v.deposits;
    let i = index_of(s, who);
    lemma_index_of(s, who);
    let x = UserDeposit { user: who, amount: (s[i].amount - amount) as u64 };
    lemma_sum_update(s, i, x);
    lemma_unique_update(s, i, x);
    lemma_index_of_unique(v.withdrawn(who, amount).deposits, who, i);
}

/// Finds `who`'s claim by a scan over the claims.
fn find_deposit(deposits: &Vec<UserDeposit>, who: &Identity) -> (r: Option<usize>)
    requires
        users_unique(deposits@),
    ensures
        match r {
            Some(i) => i < deposits@.len() && i as int == index_of(deposits@, *who),
            None => index_of(deposits@, *who) < 0,
        },
{
    proof {
        lemma_index_of(deposits@, *who);
    }
    let mut i: usize = 0;
    while i < deposits.len()
        invariant
            0 <= i <= deposits@.len(),
            users_unique(deposits@),
            forall|j: int| 0 <= j < i ==> deposits@[j].user != *who,
        decreases deposits@.len() - i,
    {
        if deposits[i].user == *who {
            proof {
                lemma_index_of_unique(deposits@, *who, i as int);
            }
            return Some(i);
        }
        i = i + 1;
    }
    None
}

/// Creates an empty escrow owned by `owner`.
pub fn initialize(owner: Identity) -> (r: DepositAccount)
    ensures
        r@.owner == owner,
        r@.total == 0,
        r@.deposits == Seq::<UserDeposit>::empty(),
        r@.wf(),
        r@.balanced(),
{
    DepositAccount { total_deposits: 0, user_deposits: Vec::new(), owner }
}

/// Records a deposit of `amount` by `depositor`, once the host has reported
/// the outcome of moving that value into the pool. A failed transfer is
/// passed on as it came, and the escrow is left unchanged.
pub fn deposit(
    escrow: &mut DepositAccount,
    depositor: Identity,
    amount: u64,
    transfer: Result<(), ErrorCode>,
) -> (r: Result<(), ErrorCode>)
    requires
        old(escrow)@.wf(),
        old(escrow)@.total + amount <= u64::MAX,
    ensures
        final(escrow)@.wf(),
        transfer is Err ==> r == transfer && final(escrow)@ == old(escrow)@,
        transfer is Ok ==> r is Ok && final(escrow)@ == old(escrow)@.deposited(depositor, amount),
        final(escrow)@.balanced() == old(escrow)@.balanced(),
{
    if let Err(e) = transfer {
        return Err(e);
    }
    proof {
        lemma_deposited(escrow@, depositor, amount);
    }
    let ghost v = escrow@;
    escrow.total_deposits = escrow.total_deposits + amount;
    match find_deposit(&escrow.user_deposits, &depositor) {
        Some(i) => {
            let grown = escrow.user_deposits[i].amount + amount;
            escrow.user_deposits.set(i, UserDeposit { user: depositor, amount: grown });
        },
        None => {
            escrow.user_deposits.push(UserDeposit { user: depositor, amount });
        },
    }
    proof {
        assert(escrow@.deposits =~= v.deposited(depositor, amount).deposits);
    }
    Ok(())
}

/// Withdraws `amount` from `withdrawer`'s claim. `custody` is the pool's
/// native balance as the host reports it. Fails with `InsufficientFunds`,
/// and changes nothing, where there is no claim, where the claim does not
/// cover `amount`, or where the pool does not hold `amount`.
pub fn withdraw(escrow: &mut DepositAccount, withdrawer: Identity, amount: u64, custody: u64) -> (r:
    Result<(), ErrorCode>)
    requires
        old(escrow)@.wf(),
    ensures
        final(escrow)@.wf(),
        r is Ok <==> old(escrow)@.can_withdraw(withdrawer, amount) && amount <= custody,
        r is Err ==> r == Err::<(), ErrorCode>(ErrorCode::InsufficientFunds) && final(escrow)@ == old(
            escrow,
        )@,
        r is Ok ==> final(escrow)@ == old(escrow)@.withdrawn(withdrawer, amount),
        final(escrow)@.balanced() == old(escrow)@.balanced(),
{
    let ghost v = escrow@;
    let i = match find_deposit(&escrow.user_deposits, &withdrawer) {
        Some(i) => i,
        None => {
            return Err(ErrorCode::InsufficientFunds);
        },
    };
    if escrow.user_deposits[i].amount < amount {
        return Err(ErrorCode::InsufficientFunds);
    }
    if custody < amount {
        return Err(ErrorCode::InsufficientFunds);
    }
    proof {
        lemma_withdrawn(v, withdrawer, amount);
    }
    let left = escrow.user_deposits[i].amount - amount;
    escrow.user_deposits.set(i, UserDeposit { user: withdrawer, amount: left });
    escrow.total_deposits = escrow.total_deposits - amount;
    proof {
        assert(escrow@.deposits =~= v.withdrawn(withdrawer, amount).deposits);
    }
    Ok(())
}

/// The escrow's running total; the host reports it.
pub fn get_total_deposits(escrow: &DepositAccount) -> (r: u64)
    ensures
        r == escrow@.total,
{
    escrow.total_deposits
}

} // verus!
