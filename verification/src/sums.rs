//! Sums of balances over lists of holders: the sum does not depend on which
//! list is taken, so long as the list names every holder of a balance once.

use vstd::prelude::*;
use crate::fungible::{balance_sum, FungibleLedger};
use crate::identity::Identity;

verus! {

/// Two balance functions that agree on the listed holders have the same sum.
proof fn lemma_sum_agrees(
    f: spec_fn(Identity) -> int,
    g: spec_fn(Identity) -> int,
    hs: Seq<Identity>,
)
    requires
        forall|i: int| 0 <= i < hs.len() ==> f(#[trigger] hs[i]) == g(hs[i]),
    ensures
        balance_sum(f, hs) == balance_sum(g, hs),
    decreases hs.len(),
{
    if hs.len() > 0 {
        let front = hs.drop_last();
        assert forall|i: int| 0 <= i < front.len() implies f(#[trigger] front[i]) == g(
            front[i],
        ) by {
            assert(front[i] == hs[i]);
        }
        lemma_sum_agrees(f, g, front);
        assert(hs.last() == hs[hs.len() - 1]);
    }
}

/// Holders without a balance add nothing.
proof fn lemma_sum_zero(f: spec_fn(Identity) -> int, hs: Seq<Identity>)
    requires
        forall|i: int| 0 <= i < hs.len() ==> f(#[trigger] hs[i]) == 0,
    ensures
        balance_sum(f, hs) == 0,
    decreases hs.len(),
{
    if hs.len() > 0 {
        let front = hs.drop_last();
        assert forall|i: int| 0 <= i < front.len() implies f(#[trigger] front[i]) == 0 by {
            assert(front[i] == hs[i]);
        }
        lemma_sum_zero(f, front);
        assert(hs.last() == hs[hs.len() - 1]);
    }
}

/// Taking one holder out of the list takes that holder's balance out of the sum.
proof fn lemma_sum_remove(f: spec_fn(Identity) -> int, hs: Seq<Identity>, k: int)
    requires
        0 <= k < hs.len(),
    ensures
        balance_sum(f, hs) == balance_sum(f, hs.remove(k)) + f(hs[k]),
    decreases hs.len(),
{
    if k == hs.len() - 1 {
        assert(hs.remove(k) =~= hs.drop_last());
    } else {
        let rest = hs.remove(k);
        assert(rest.drop_last() =~= hs.drop_last().remove(k));
        assert(rest.last() == hs.last());
        lemma_sum_remove(f, hs.drop_last(), k);
    }
}

/// Two lists that each name every holder of a balance once give the same sum.
proof fn lemma_sum_same_support(
    f: spec_fn(Identity) -> int,
    a: Seq<Identity>,
    b: Seq<Identity>,
)
    requires
        a.no_duplicates(),
        b.no_duplicates(),
        forall|h: Identity| #[trigger] f(h) != 0 ==> a.contains(h) && b.contains(h),
    ensures
        balance_sum(f, a) == balance_sum(f, b),
    decreases a.len(),
{
    if a.len() == 0 {
        assert forall|i: int| 0 <= i < b.len() implies f(#[trigger] b[i]) == 0 by {
            if f(b[i]) != 0 {
                assert(a.contains(b[i]));
            }
        }
        lemma_sum_zero(f, b);
    } else {
        let x = a.last();
        let a1 = a.drop_last();
        let g = |h: Identity|
            if h == x {
                0int
            } else {
                f(h)
            };
        assert forall|i: int| 0 <= i < a1.len() implies f(#[trigger] a1[i]) == g(a1[i]) by {
            assert(a1[i] == a[i]);
            assert(a[i] != a[a.len() - 1]);
        }
        lemma_sum_agrees(f, g, a1);
        assert(a1.no_duplicates()) by {
            assert forall|i: int, j: int|
                0 <= i < a1.len() && 0 <= j < a1.len() && i != j implies a1[i] != a1[j] by {
                assert(a[i] != a[j]);
            }
        }
        assert forall|h: Identity| #[trigger] g(h) != 0 implies a1.contains(h) by {
            assert(f(h) != 0);
            let i = choose|i: int| 0 <= i < a.len() && a[i] == h;
            assert(a1[i] == h);
        }
        if b.contains(x) {
            let k = choose|k: int| 0 <= k < b.len() && b[k] == x;
            let b1 = b.remove(k);
            lemma_sum_remove(f, b, k);
            assert(b1.no_duplicates()) by {
                assert forall|i: int, j: int|
                    0 <= i < b1.len() && 0 <= j < b1.len() && i != j implies b1[i] != b1[j] by {
                    let p = if i < k {
                        i
                    } else {
                        i + 1
                    };
                    let q = if j < k {
                        j
                    } else {
                        j + 1
                    };
                    assert(b1[i] == b[p] && b1[j] == b[q]);
                    assert(b[p] != b[q]);
                }
            }
            assert forall|i: int| 0 <= i < b1.len() implies f(#[trigger] b1[i]) == g(b1[i]) by {
                let p = if i < k {
                    i
                } else {
                    i + 1
                };
                assert(b1[i] == b[p]);
                assert(b[p] != b[k]);
            }
            lemma_sum_agrees(f, g, b1);
            assert forall|h: Identity| #[trigger] g(h) != 0 implies b1.contains(h) by {
                assert(f(h) != 0);
                let j = choose|j: int| 0 <= j < b.len() && b[j] == h;
                if j < k {
                    assert(b1[j] == h);
                } else {
                    assert(b1[j - 1] == h);
                }
            }
            lemma_sum_same_support(g, a1, b1);
        } else {
            assert(f(x) == 0);
            assert forall|i: int| 0 <= i < b.len() implies f(#[trigger] b[i]) == g(b[i]) by {
                if b[i] == x {
                    assert(b.contains(x));
                }
            }
            lemma_sum_agrees(f, g, b);
            assert forall|h: Identity| #[trigger] g(h) != 0 implies b.contains(h) by {
                assert(f(h) != 0);
            }
            lemma_sum_same_support(g, a1, b);
        }
    }
}

/// Conservation over any list: whichever list names every holder of a
/// balance exactly once, the balances of its holders add up to the supply.
pub proof fn conservation_over<L: FungibleLedger>(ledger: &L, hs: Seq<Identity>)
    requires
        ledger.wf(),
        hs.no_duplicates(),
        forall|h: Identity| #[trigger] ledger.balance(h) != 0 ==> hs.contains(h),
    ensures
        balance_sum(|h: Identity| ledger.balance(h), hs) == ledger.supply(),
{
    ledger.conservation();
    let f = |h: Identity| ledger.balance(h);
    assert forall|h: Identity| #[trigger] f(h) != 0 implies ledger.holders().contains(h)
        && hs.contains(h) by {
        assert(ledger.balance(h) != 0);
    }
    lemma_sum_same_support(f, ledger.holders(), hs);
}

} // verus!
