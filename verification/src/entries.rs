//! Balance entries as plain data: what a list of entries means, the
//! arithmetic of minting and transferring on single balances, and the facts
//! about sums that the ledger's operations rest on.

use vstd::prelude::*;
use crate::error::TokenError;
use crate::identity::Identity;

verus! {

/// One holder's balance as the ledger stores it.
#[derive(Clone, Copy, Debug)]
pub struct Entry {
    pub holder: Identity,
    pub amount: i128,
}

/// The sum of all stored amounts.
pub open spec fn sum_amounts(s: Seq<Entry>) -> int
    decreases s.len(),
{
    if s.len() == 0 {
        0
    } else {
        sum_amounts(s.drop_last()) + s.last().amount
    }
}

/// Whether `h` has an entry.
pub open spec fn holds(s: Seq<Entry>, h: Identity) -> bool {
    exists|i: int| 0 <= i < s.len() && (#[trigger] s[i]).holder == h
}

/// The amount stored for `h`; zero where `h` has no entry.
pub open spec fn amount_of(s: Seq<Entry>, h: Identity) -> int {
    if holds(s, h) {
        s[choose|i: int| 0 <= i < s.len() && (#[trigger] s[i]).holder == h].amount as int
    } else {
        0
    }
}

/// No amount is negative and no holder has two entries.
pub open spec fn entries_wf(s: Seq<Entry>) -> bool {
    &&& forall|i: int| 0 <= i < s.len() ==> 0 <= (#[trigger] s[i]).amount
    &&& forall|i: int, j: int|
        0 <= i < j < s.len() ==> (#[trigger] s[i]).holder != (#[trigger] s[j]).holder
}

/// The holders in the order of their entries.
pub open spec fn holders_of(s: Seq<Entry>) -> Seq<Identity> {
    Seq::new(s.len(), |i: int| s[i].holder)
}

/// The sum of the amounts stored for the holders listed in `hs`.
pub open spec fn sum_balances(s: Seq<Entry>, hs: Seq<Identity>) -> int
    decreases hs.len(),
{
    if hs.len() == 0 {
        0
    } else {
        sum_balances(s, hs.drop_last()) + amount_of(s, hs.last())
    }
}

/// Why minting `amount` onto a balance under a supply is refused, if it is.
pub open spec fn mint_refusal(balance: int, supply: int, amount: int) -> Option<TokenError> {
    if amount <= 0 {
        Some(TokenError::InvalidAmount)
    } else if balance + amount > i128::MAX || supply + amount > i128::MAX {
        Some(TokenError::Overflow)
    } else {
        None
    }
}

/// Why moving `amount` from one balance to another is refused, if it is.
/// `same` says that sender and recipient are one holder.
pub open spec fn transfer_refusal(from_balance: int, to_balance: int, same: bool, amount: int)
    -> Option<TokenError> {
    if amount <= 0 {
        Some(TokenError::InvalidAmount)
    } else if from_balance < amount {
        Some(TokenError::InsufficientBalance)
    } else if !same && to_balance + amount > i128::MAX {
        Some(TokenError::Overflow)
    } else {
        None
    }
}

/// The recipient's balance and the supply after minting `amount`, or the refusal.
pub fn checked_mint(balance: i128, supply: i128, amount: i128) -> (r: Result<
    (i128, i128),
    TokenError,
>)
    ensures
        match r {
            Ok((b, s)) => mint_refusal(balance as int, supply as int, amount as int) is None
                && b == balance + amount && s == supply + amount,
            Err(e) => mint_refusal(balance as int, supply as int, amount as int) == Some(e),
        },
{
    if amount <= 0 {
        return Err(TokenError::InvalidAmount);
    }
    match (balance.checked_add(amount), supply.checked_add(amount)) {
        (Some(b), Some(s)) => Ok((b, s)),
        _ => Err(TokenError::Overflow),
    }
}

/// The sender's and the recipient's balance after moving `amount`, or the refusal.
/// With `same` set both results are the one untouched balance.
pub fn checked_transfer(from_balance: i128, to_balance: i128, same: bool, amount: i128) -> (r:
    Result<(i128, i128), TokenError>)
    ensures
        match r {
            Ok((f, t)) => transfer_refusal(
                from_balance as int,
                to_balance as int,
                same,
                amount as int,
            ) is None && (same ==> f == from_balance && t == from_balance) && (!same ==> f
                == from_balance - amount && t == to_balance + amount),
            Err(e) => transfer_refusal(from_balance as int, to_balance as int, same, amount as int)
                == Some(e),
        },
{
    if amount <= 0 {
        return Err(TokenError::InvalidAmount);
    }
    if from_balance < amount {
        return Err(TokenError::InsufficientBalance);
    }
    if same {
        return Ok((from_balance, from_balance));
    }
    match to_balance.checked_add(amount) {
        Some(t) => Ok((from_balance - amount, t)),
        None => Err(TokenError::Overflow),
    }
}

/// A holder's stored amount is the holder's balance.
pub(crate) proof fn lemma_amount_at(s: Seq<Entry>, i: int)
    requires
        entries_wf(s),
        0 <= i < s.len(),
    ensures
        holds(s, s[i].holder),
        amount_of(s, s[i].holder) == s[i].amount,
{
    let h = s[i].holder;
    assert(holds(s, h));
    let j = choose|j: int| 0 <= j < s.len() && (#[trigger] s[j]).holder == h;
    assert(j == i) by {
        if j < i {
            assert(s[j].holder != s[i].holder);
        } else if i < j {
            assert(s[i].holder != s[j].holder);
        }
    }
}

/// Replacing one amount changes the sum by the difference.
pub(crate) proof fn lemma_sum_update(s: Seq<Entry>, i: int, e: Entry)
    requires
        0 <= i < s.len(),
    ensures
        sum_amounts(s.update(i, e)) == sum_amounts(s) - s[i].amount + e.amount,
    decreases s.len(),
{
    let t = s.update(i, e);
    if i == s.len() - 1 {
        assert(t.drop_last() =~= s.drop_last());
    } else {
        assert(t.drop_last() =~= s.drop_last().update(i, e));
        lemma_sum_update(s.drop_last(), i, e);
    }
}

/// No single amount exceeds the sum, and the sum is not negative.
pub(crate) proof fn lemma_amount_le_sum(s: Seq<Entry>, i: int)
    requires
        entries_wf(s),
        0 <= i < s.len(),
    ensures
        s[i].amount <= sum_amounts(s),
        0 <= sum_amounts(s),
    decreases s.len(),
{
    lemma_sum_non_negative(s.drop_last());
    if i < s.len() - 1 {
        lemma_amount_le_sum(s.drop_last(), i);
    }
}

/// The sum of non-negative amounts is not negative.
pub(crate) proof fn lemma_sum_non_negative(s: Seq<Entry>)
    requires
        forall|i: int| 0 <= i < s.len() ==> 0 <= (#[trigger] s[i]).amount,
    ensures
        0 <= sum_amounts(s),
    decreases s.len(),
{
    if s.len() > 0 {
        lemma_sum_non_negative(s.drop_last());
    }
}

/// Two different holders' amounts together do not exceed the sum.
pub(crate) proof fn lemma_pair_le_sum(s: Seq<Entry>, i: int, j: int)
    requires
        entries_wf(s),
        0 <= i < s.len(),
        0 <= j < s.len(),
        i != j,
    ensures
        s[i].amount + s[j].amount <= sum_amounts(s),
    decreases s.len(),
{
    let last = s.len() - 1;
    if i == last {
        lemma_amount_le_sum(s.drop_last(), j);
    } else if j == last {
        lemma_amount_le_sum(s.drop_last(), i);
    } else {
        lemma_pair_le_sum(s.drop_last(), i, j);
    }
}

/// What replacing the amount of entry `i` does to the balances and their sum.
pub(crate) proof fn lemma_update(s: Seq<Entry>, i: int, e: Entry)
    requires
        entries_wf(s),
        0 <= i < s.len(),
        e.holder == s[i].holder,
        0 <= e.amount,
    ensures
        entries_wf(s.update(i, e)),
        sum_amounts(s.update(i, e)) == sum_amounts(s) - s[i].amount + e.amount,
        amount_of(s.update(i, e), e.holder) == e.amount,
        forall|h: Identity| h != e.holder ==> amount_of(s.update(i, e), h) == amount_of(s, h),
{
    let t = s.update(i, e);
    lemma_sum_update(s, i, e);
    assert(entries_wf(t)) by {
        assert forall|a: int, b: int| 0 <= a < b < t.len() implies (#[trigger] t[a]).holder != (
        #[trigger] t[b]).holder by {
            assert(s[a].holder != s[b].holder);
        }
    }
    lemma_amount_at(t, i);
    assert forall|h: Identity| h != e.holder implies amount_of(t, h) == amount_of(s, h) by {
        if holds(s, h) {
            let j = choose|j: int| 0 <= j < s.len() && (#[trigger] s[j]).holder == h;
            assert(t[j] == s[j]);
            lemma_amount_at(s, j);
            lemma_amount_at(t, j);
        } else if holds(t, h) {
            let k = choose|k: int| 0 <= k < t.len() && (#[trigger] t[k]).holder == h;
            assert(s[k].holder == h);
        }
    }
}

/// What a new holder's entry does to the balances and their sum.
pub(crate) proof fn lemma_push(s: Seq<Entry>, e: Entry)
    requires
        entries_wf(s),
        !holds(s, e.holder),
        0 <= e.amount,
    ensures
        entries_wf(s.push(e)),
        sum_amounts(s.push(e)) == sum_amounts(s) + e.amount,
        amount_of(s.push(e), e.holder) == e.amount,
        forall|h: Identity| h != e.holder ==> amount_of(s.push(e), h) == amount_of(s, h),
{
    let t = s.push(e);
    assert(t.drop_last() =~= s);
    assert(entries_wf(t)) by {
        assert forall|a: int, b: int| 0 <= a < b < t.len() implies (#[trigger] t[a]).holder != (
        #[trigger] t[b]).holder by {
            if b < s.len() {
                assert(s[a].holder != s[b].holder);
            } else {
                assert(s[a].holder != e.holder);
            }
        }
    }
    lemma_amount_at(t, s.len() as int);
    assert forall|h: Identity| h != e.holder implies amount_of(t, h) == amount_of(s, h) by {
        if holds(s, h) {
            let j = choose|j: int| 0 <= j < s.len() && (#[trigger] s[j]).holder == h;
            assert(t[j] == s[j]);
            lemma_amount_at(s, j);
            lemma_amount_at(t, j);
        } else if holds(t, h) {
            let k = choose|k: int| 0 <= k < t.len() && (#[trigger] t[k]).holder == h;
            assert(s[k].holder == h);
        }
    }
}

/// The listed holders are those who have an entry.
pub(crate) proof fn lemma_listed_iff_holds(s: Seq<Entry>, h: Identity)
    ensures
        holders_of(s).contains(h) <==> holds(s, h),
{
    let hs = holders_of(s);
    if hs.contains(h) {
        let i = choose|i: int| 0 <= i < hs.len() && hs[i] == h;
        assert(s[i].holder == h);
    }
    if holds(s, h) {
        let i = choose|i: int| 0 <= i < s.len() && (#[trigger] s[i]).holder == h;
        assert(hs[i] == h);
    }
}

/// Summing the balances of the first `n` holders gives the sum of their entries.
pub(crate) proof fn lemma_sum_balances_prefix(s: Seq<Entry>, n: int)
    requires
        entries_wf(s),
        0 <= n <= s.len(),
    ensures
        sum_balances(s, holders_of(s).take(n)) == sum_amounts(s.take(n)),
    decreases n,
{
    if n > 0 {
        let hs = holders_of(s).take(n);
        assert(hs.drop_last() =~= holders_of(s).take(n - 1));
        assert(s.take(n).drop_last() =~= s.take(n - 1));
        lemma_sum_balances_prefix(s, n - 1);
        lemma_amount_at(s, n - 1);
    }
}

} // verus!
