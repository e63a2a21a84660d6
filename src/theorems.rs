//! What holds across several transfers: the total of all balances, and a
//! transfer made twice.
use vstd::prelude::*;

use crate::accounts::{after_transfer, transfer_outcome, transfer_step, Ledger, LedgerError};

verus! {

/// The sum of the balances of `keys` in `b`.
pub open spec fn sum_over(b: Map<Seq<char>, i64>, keys: Set<Seq<char>>) -> int
    decreases keys.len(),
    when keys.finite()
{
    if keys.len() == 0 {
        0
    } else {
        let k = keys.choose();
        b[k] + sum_over(b, keys.remove(k))
    }
}

/// The sum of all balances.
pub open spec fn total(b: Map<Seq<char>, i64>) -> int {
    sum_over(b, b.dom())
}

/// Any one key can be taken out of the sum first.
pub proof fn lemma_sum_remove(b: Map<Seq<char>, i64>, keys: Set<Seq<char>>, k: Seq<char>)
    requires
        keys.finite(),
        keys.contains(k),
    ensures
        sum_over(b, keys) == b[k] + sum_over(b, keys.remove(k)),
    decreases keys.len(),
{
    let c = keys.choose();
    if c != k {
        lemma_sum_remove(b, keys.remove(c), k);
        lemma_sum_remove(b, keys.remove(k), c);
        assert(keys.remove(c).remove(k) == keys.remove(k).remove(c));
    }
}

/// The sum depends only on the balances of the keys summed.
pub proof fn lemma_sum_agree(b1: Map<Seq<char>, i64>, b2: Map<Seq<char>, i64>, keys: Set<Seq<char>>)
    requires
        keys.finite(),
        forall|k: Seq<char>| keys.contains(k) ==> b1[k] == b2[k],
    ensures
        sum_over(b1, keys) == sum_over(b2, keys),
    decreases keys.len(),
{
    if keys.len() > 0 {
        let c = keys.choose();
        lemma_sum_agree(b1, b2, keys.remove(c));
    }
}

/// A successful transfer leaves the total of all balances unchanged.
pub proof fn lemma_transfer_conserves_total(
    b: Map<Seq<char>, i64>,
    from: Seq<char>,
    to: Seq<char>,
    amount: i64,
)
    requires
        b.dom().finite(),
        transfer_outcome(b, from, to, amount) is Ok,
        from != to ==> b[to] + amount <= i64::MAX,
    ensures
        total(after_transfer(b, from, to, amount)) == total(b),
{
    let a = after_transfer(b, from, to, amount);
    let d = b.dom();
    assert(a.dom() == d);
    if from == to {
        assert(a == b);
    } else {
        lemma_sum_remove(b, d, from);
        lemma_sum_remove(a, d, from);
        lemma_sum_remove(b, d.remove(from), to);
        lemma_sum_remove(a, d.remove(from), to);
        lemma_sum_agree(a, b, d.remove(from).remove(to));
    }
}

/// A call of `transfer_money` that succeeds leaves the total of all balances
/// of the ledger unchanged.
pub proof fn lemma_successful_transfer_keeps_total(
    l0: Ledger,
    l1: Ledger,
    from: Seq<char>,
    to: Seq<char>,
    amount: i64,
    desc: Seq<char>,
)
    requires
        l0.wf(),
        transfer_step(l0, l1, from, to, amount, desc, Ok(())),
        from != to ==> l0.balances()[to] + amount <= i64::MAX,
    ensures
        total(l1.balances()) == total(l0.balances()),
{
    lemma_transfer_conserves_total(l0.balances(), from, to, amount);
}

/// The balances after each transfer of `ts` in turn.
pub open spec fn run_transfers(
    b: Map<Seq<char>, i64>,
    ts: Seq<(Seq<char>, Seq<char>, i64)>,
) -> Map<Seq<char>, i64>
    decreases ts.len(),
{
    if ts.len() == 0 {
        b
    } else {
        let (from, to, amount) = ts.last();
        after_transfer(run_transfers(b, ts.drop_last()), from, to, amount)
    }
}

/// Each transfer of `ts`, made in turn from `b`, succeeds and fits in `i64`.
pub open spec fn all_succeed(b: Map<Seq<char>, i64>, ts: Seq<(Seq<char>, Seq<char>, i64)>) -> bool
    decreases ts.len(),
{
    ts.len() > 0 ==> {
        let (from, to, amount) = ts.last();
        let before = run_transfers(b, ts.drop_last());
        &&& all_succeed(b, ts.drop_last())
        &&& transfer_outcome(before, from, to, amount) is Ok
        &&& (from != to ==> before[to] + amount <= i64::MAX)
    }
}

/// Conservation: a sequence of transfers that all succeed leaves the total of
/// all balances as it was.
pub proof fn lemma_transfers_conserve_total(b: Map<Seq<char>, i64>, ts: Seq<(Seq<char>, Seq<char>, i64)>)
    requires
        b.dom().finite(),
        all_succeed(b, ts),
    ensures
        run_transfers(b, ts).dom() == b.dom(),
        total(run_transfers(b, ts)) == total(b),
    decreases ts.len(),
{
    if ts.len() > 0 {
        let (from, to, amount) = ts.last();
        let before = run_transfers(b, ts.drop_last());
        lemma_transfers_conserve_total(b, ts.drop_last());
        lemma_transfer_conserves_total(before, from, to, amount);
    }
}

/// The same transfer made twice, with funds for both, is carried out twice:
/// two successful records are appended, at consecutive positions, and the
/// balances move by twice the amount.
pub proof fn lemma_transfer_twice(
    l0: Ledger,
    l1: Ledger,
    l2: Ledger,
    from: Seq<char>,
    to: Seq<char>,
    amount: i64,
    desc: Seq<char>,
    r1: Result<(), LedgerError>,
    r2: Result<(), LedgerError>,
)
    requires
        transfer_step(l0, l1, from, to, amount, desc, r1),
        transfer_step(l1, l2, from, to, amount, desc, r2),
        l0.balances().contains_key(from),
        l0.balances().contains_key(to),
        from != to,
        amount >= 0,
        l0.balances()[from] >= 2 * amount,
        l0.balances()[to] + 2 * amount <= i64::MAX,
    ensures
        r1 is Ok,
        r2 is Ok,
        l2.log().len() == l0.log().len() + 2,
        l2.log().take(l0.log().len() as int) == l0.log(),
        l2.log()[l0.log().len() as int].status,
        l2.log()[l0.log().len() + 1int].status,
        l2.log()[l0.log().len() as int].step == l0.log().len() as i64,
        l2.log()[l0.log().len() + 1int].step == (l0.log().len() + 1) as i64,
        l2.balances()[from] == l0.balances()[from] - 2 * amount,
        l2.balances()[to] == l0.balances()[to] + 2 * amount,
{
    let n = l0.log().len();
    assert(l2.log()[n as int] == l1.log()[n as int]);
    assert(l2.log().take(n as int) =~= l0.log());
}

} // verus!
