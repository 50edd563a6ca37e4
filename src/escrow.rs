use vstd::prelude::*;
use crate::commitment::same_bytes32;
use crate::types::{AccountId, Settlement};

verus! {

/// The sum of the values held for the players of `s`.
pub open spec fn sum_values(s: Seq<(AccountId, u128)>) -> int
    decreases s.len(),
{
    if s.len() == 0 {
        0
    } else {
        sum_values(s.drop_last()) + s.last().1
    }
}

/// Whether `p` has an entry in `s`.
pub open spec fn has_player<V>(s: Seq<(AccountId, V)>, p: AccountId) -> bool {
    exists|i: int| 0 <= i < s.len() && s[i].0 == p
}

/// Whether no player has two entries in `s`.
pub open spec fn players_unique<V>(s: Seq<(AccountId, V)>) -> bool {
    forall|i: int, j: int| 0 <= i < j < s.len() ==> s[i].0 != s[j].0
}

/// What the `i`-th of `n` players who revealed receives from a pool of
/// `total`: an equal share, and the first of them also the remainder.
pub open spec fn payout_of(total: u128, n: int, i: int) -> int {
    total as int / n + if i == 0 { total as int % n } else { 0 }
}

/// A settlement that splits `total` among the players of `revealers`.
pub open spec fn settles<V>(s: Settlement, revealers: Seq<(AccountId, V)>, total: u128) -> bool {
    &&& s.payouts@.len() == revealers.len()
    &&& forall|i: int| 0 <= i < revealers.len() ==> #[trigger] s.payouts@[i].0 == revealers[i].0
        && s.payouts@[i].1 == payout_of(total, revealers.len() as int, i)
    &&& s.retained == if revealers.len() == 0 { total } else { 0 }
}

/// Appending an entry adds its value to the sum.
pub proof fn lemma_sum_push(s: Seq<(AccountId, u128)>, x: (AccountId, u128))
    ensures
        sum_values(s.push(x)) == sum_values(s) + x.1,
{
    assert(s.push(x).drop_last() =~= s);
}

/// Where the entry of `p` stands in `s`, if it has one.
pub fn position_of<V>(s: &Vec<(AccountId, V)>, p: &AccountId) -> (r: Option<usize>)
    ensures
        match r {
            Some(i) => i < s@.len() && s@[i as int].0 == *p,
            None => !has_player(s@, *p),
        },
{
    let mut i: usize = 0;
    while i < s.len()
        invariant
            i <= s@.len(),
            forall|j: int| 0 <= j < i ==> s@[j].0 != *p,
        decreases s@.len() - i,
    {
        if same_bytes32(&s[i].0, p) {
            return Some(i);
        }
        i = i + 1;
    }
    None
}

/// Splits a pool of `total` among the players who revealed: each receives an
/// equal share and the first one also the remainder. Where nobody revealed,
/// the whole pool is retained. No value is created or lost.
pub fn settle<V>(revealers: &Vec<(AccountId, V)>, total: u128) -> (s: Settlement)
    ensures
        settles(s, revealers@, total),
        sum_values(s.payouts@) + s.retained == total,
{
    let n = revealers.len();
    let mut payouts: Vec<(AccountId, u128)> = Vec::new();
    if n == 0 {
        return Settlement { payouts, retained: total };
    }
    let share = total / (n as u128);
    let rest = total % (n as u128);
    proof {
        vstd::arithmetic::div_mod::lemma_fundamental_div_mod(total as int, n as int);
        assert(share as int <= n as int * share as int) by (nonlinear_arith)
            requires n >= 1;
    }
    let mut i: usize = 0;
    while i < n
        invariant
            n == revealers@.len(),
            n >= 1,
            share == total as int / n as int,
            rest == total as int % n as int,
            total == n as int * share as int + rest as int,
            share as int <= n as int * share as int,
            i <= n,
            payouts@.len() == i,
            forall|j: int| 0 <= j < i ==> #[trigger] payouts@[j].0 == revealers@[j].0
                && payouts@[j].1 == payout_of(total, n as int, j),
            sum_values(payouts@) == i as int * share as int + if i == 0 { 0 } else { rest as int },
        decreases n - i,
    {
        let amount: u128 = if i == 0 { share + rest } else { share };
        proof {
            lemma_sum_push(payouts@, (revealers@[i as int].0, amount));
            assert((i + 1) as int * share as int == i as int * share as int + share as int)
                by (nonlinear_arith);
        }
        payouts.push((revealers[i].0, amount));
        i = i + 1;
    }
    Settlement { payouts, retained: 0 }
}

} // verus!
