//! Fund lists compared as multisets: the same denominations with the same
//! amounts mean the same payment, whatever the order of the list.

use vstd::prelude::*;
use crate::state::{Coin, CoinV};

verus! {

broadcast use vstd::seq_lib::group_to_multiset_ensures, vstd::multiset::group_multiset_axioms;

/// Two fund lists stand for the same payment when they agree as multisets:
/// order is irrelevant, amounts per denomination are not.
pub open spec fn same_funds(a: Seq<CoinV>, b: Seq<CoinV>) -> bool {
    a.to_multiset() == b.to_multiset()
}

/// Whether two coins agree in amount and denomination.
fn coin_eq(a: &Coin, b: &Coin) -> (r: bool)
    ensures
        r == (a.deep_view() == b.deep_view()),
{
    a.amount == b.amount && a.denom == b.denom
}

/// How many coins of `v` equal `c`.
#[verifier::loop_isolation(false)]
fn count_coins(v: &Vec<Coin>, c: &Coin) -> (n: usize)
    ensures
        n as nat == v.deep_view().to_multiset().count(c.deep_view()),
{
    let mut n: usize = 0;
    let mut i: usize = 0;
    while i < v.len()
        invariant
            i <= v.len(),
            n <= i,
            n as nat == v.deep_view().take(i as int).to_multiset().count(c.deep_view()),
        decreases v.len() - i,
    {
        proof {
            assert(v.deep_view().take(i + 1) =~= v.deep_view().take(i as int).push(
                v.deep_view()[i as int],
            ));
        }
        if coin_eq(&v[i], c) {
            n = n + 1;
        }
        i = i + 1;
    }
    proof {
        assert(v.deep_view().take(v.len() as int) =~= v.deep_view());
    }
    n
}

/// Whether `a` and `b` hold the same funds, compared as multisets.
#[verifier::loop_isolation(false)]
pub fn coins_equal(a: &Vec<Coin>, b: &Vec<Coin>) -> (r: bool)
    ensures
        r == same_funds(a.deep_view(), b.deep_view()),
{
    let ghost ma = a.deep_view().to_multiset();
    let ghost mb = b.deep_view().to_multiset();
    let mut i: usize = 0;
    while i < a.len()
        invariant
            i <= a.len(),
            forall|k: int|
                0 <= k < i ==> ma.count(#[trigger] a.deep_view()[k]) == mb.count(
                    a.deep_view()[k],
                ),
        decreases a.len() - i,
    {
        if count_coins(a, &a[i]) != count_coins(b, &a[i]) {
            proof {
                assert(ma.count(a.deep_view()[i as int]) != mb.count(a.deep_view()[i as int]));
            }
            return false;
        }
        i = i + 1;
    }
    let mut j: usize = 0;
    while j < b.len()
        invariant
            j <= b.len(),
            forall|k: int|
                0 <= k < a.deep_view().len() ==> ma.count(#[trigger] a.deep_view()[k]) == mb.count(
                    a.deep_view()[k],
                ),
            forall|k: int|
                0 <= k < j ==> ma.count(#[trigger] b.deep_view()[k]) == mb.count(
                    b.deep_view()[k],
                ),
        decreases b.len() - j,
    {
        if count_coins(a, &b[j]) != count_coins(b, &b[j]) {
            proof {
                assert(ma.count(b.deep_view()[j as int]) != mb.count(b.deep_view()[j as int]));
            }
            return false;
        }
        j = j + 1;
    }
    proof {
        assert forall|x: CoinV| ma.count(x) == mb.count(x) by {
            if ma.count(x) > 0 {
                assert(a.deep_view().contains(x));
                let k = choose|k: int| 0 <= k < a.deep_view().len() && a.deep_view()[k] == x;
                assert(ma.count(a.deep_view()[k]) == mb.count(a.deep_view()[k]));
            } else if mb.count(x) > 0 {
                assert(b.deep_view().contains(x));
                let k = choose|k: int| 0 <= k < b.deep_view().len() && b.deep_view()[k] == x;
                assert(ma.count(b.deep_view()[k]) == mb.count(b.deep_view()[k]));
            }
        }
        assert(ma =~= mb);
    }
    true
}

/// An element-for-element copy of a fund list.
#[verifier::loop_isolation(false)]
pub fn clone_coins(v: &Vec<Coin>) -> (r: Vec<Coin>)
    ensures
        r.deep_view() == v.deep_view(),
{
    let mut r: Vec<Coin> = Vec::new();
    let mut i: usize = 0;
    while i < v.len()
        invariant
            i <= v.len(),
            r@.len() == i,
            forall|k: int| 0 <= k < i ==> (#[trigger] r@[k]).deep_view() == v@[k].deep_view(),
        decreases v.len() - i,
    {
        r.push(Coin { amount: v[i].amount, denom: v[i].denom.clone() });
        i = i + 1;
    }
    proof {
        assert forall|k: int| 0 <= k < v@.len() implies r.deep_view()[k] == v.deep_view()[k] by {
            assert(r@[k].deep_view() == v@[k].deep_view());
        }
        assert(r.deep_view() =~= v.deep_view());
    }
    r
}

} // verus!
