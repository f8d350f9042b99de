//! Sums over finite maps of amounts, and the amount of one token that is in
//! circulation.

use crate::types::{AccountId, BalanceKey, TokenBalance, TokenId};
use vstd::prelude::*;

verus! {

/// The sum of all values of a finite map.
pub open spec fn sum_values<K>(m: Map<K, TokenBalance>) -> nat
    decreases m.dom().len(),
    when m.dom().finite()
{
    if m.dom().len() == 0 {
        0
    } else {
        let k = m.dom().choose();
        m[k] as nat + sum_values(m.remove(k))
    }
}

/// The value under `k`, or zero where the map has no such key.
pub open spec fn value_or_zero<K>(m: Map<K, TokenBalance>, k: K) -> TokenBalance {
    if m.contains_key(k) {
        m[k]
    } else {
        0
    }
}

/// The balance entries of one token.
pub open spec fn holdings(balances: Map<BalanceKey, TokenBalance>, token: TokenId) -> Map<
    BalanceKey,
    TokenBalance,
> {
    balances.restrict(Set::new(|k: BalanceKey| k.0 == token))
}

/// The amount of `token` in circulation: the sum of all its balance entries.
pub open spec fn circulating(balances: Map<BalanceKey, TokenBalance>, token: TokenId) -> nat {
    sum_values(holdings(balances, token))
}

/// A map without keys sums to zero.
pub proof fn lemma_sum_empty<K>()
    ensures
        sum_values(Map::<K, TokenBalance>::empty()) == 0,
{
    assert(Map::<K, TokenBalance>::empty().dom() =~= Set::<K>::empty());
}

/// Any key can be split off a sum: the sum is the value under `k` plus the
/// sum of the rest.
pub proof fn lemma_sum_split<K>(m: Map<K, TokenBalance>, k: K)
    requires
        m.dom().finite(),
        m.contains_key(k),
    ensures
        sum_values(m) == m[k] + sum_values(m.remove(k)),
    decreases m.dom().len(),
{
    let c = m.dom().choose();
    if c != k {
        let rest = m.remove(c);
        lemma_sum_split(rest, k);
        lemma_sum_split(m.remove(k), c);
        assert(m.remove(c).remove(k) =~= m.remove(k).remove(c));
    }
}

/// Writing `v` under `k` replaces the old value under `k`, if there was one,
/// in the sum.
pub proof fn lemma_sum_insert<K>(m: Map<K, TokenBalance>, k: K, v: TokenBalance)
    requires
        m.dom().finite(),
    ensures
        sum_values(m.insert(k, v)) + value_or_zero(m, k) == sum_values(m) + v,
{
    let after = m.insert(k, v);
    lemma_sum_split(after, k);
    assert(after.remove(k) =~= m.remove(k));
    if m.contains_key(k) {
        lemma_sum_split(m, k);
    } else {
        assert(m.remove(k) =~= m);
    }
}

/// No single value exceeds the sum.
pub proof fn lemma_value_le_sum<K>(m: Map<K, TokenBalance>, k: K)
    requires
        m.dom().finite(),
    ensures
        value_or_zero(m, k) <= sum_values(m),
{
    if m.contains_key(k) {
        lemma_sum_split(m, k);
    }
}

/// Two distinct values together do not exceed the sum.
pub proof fn lemma_pair_le_sum<K>(m: Map<K, TokenBalance>, j: K, k: K)
    requires
        m.dom().finite(),
        j != k,
    ensures
        value_or_zero(m, j) + value_or_zero(m, k) <= sum_values(m),
{
    if m.contains_key(j) {
        lemma_sum_split(m, j);
        lemma_value_le_sum(m.remove(j), k);
    } else {
        lemma_value_le_sum(m, k);
    }
}

/// The entries of one token are finitely many where all entries are.
pub proof fn lemma_holdings_finite(balances: Map<BalanceKey, TokenBalance>, token: TokenId)
    requires
        balances.dom().finite(),
    ensures
        holdings(balances, token).dom().finite(),
{
    assert(holdings(balances, token).dom() =~= balances.dom().intersect(
        Set::new(|k: BalanceKey| k.0 == token),
    ));
}

/// Writing a balance changes the circulation of its token by the difference
/// between the new and the old balance, and of no other token.
pub proof fn lemma_circulating_insert(
    balances: Map<BalanceKey, TokenBalance>,
    token: TokenId,
    account: AccountId,
    v: TokenBalance,
    other: TokenId,
)
    requires
        balances.dom().finite(),
    ensures
        other == token ==> circulating(balances.insert((token, account), v), other)
            + value_or_zero(balances, (token, account)) == circulating(balances, other) + v,
        other != token ==> circulating(balances.insert((token, account), v), other)
            == circulating(balances, other),
{
    let key = (token, account);
    let after = balances.insert(key, v);
    lemma_holdings_finite(balances, other);
    if other == token {
        assert(holdings(after, token) =~= holdings(balances, token).insert(key, v));
        lemma_sum_insert(holdings(balances, token), key, v);
    } else {
        assert(holdings(after, other) =~= holdings(balances, other));
    }
}

/// A token without balance entries has nothing in circulation.
pub proof fn lemma_circulating_none(balances: Map<BalanceKey, TokenBalance>, token: TokenId)
    requires
        forall|a: AccountId| !balances.contains_key((token, a)),
    ensures
        circulating(balances, token) == 0,
{
    assert(holdings(balances, token) =~= Map::<BalanceKey, TokenBalance>::empty()) by {
        assert forall|k: BalanceKey| !holdings(balances, token).contains_key(k) by {
            if k.0 == token {
                assert(!balances.contains_key((token, k.1)));
            }
        }
    }
    lemma_sum_empty::<BalanceKey>();
}

/// What one account holds of a token does not exceed what is in circulation.
pub proof fn lemma_balance_le_circulating(
    balances: Map<BalanceKey, TokenBalance>,
    token: TokenId,
    account: AccountId,
)
    requires
        balances.dom().finite(),
    ensures
        value_or_zero(balances, (token, account)) <= circulating(balances, token),
{
    lemma_holdings_finite(balances, token);
    lemma_value_le_sum(holdings(balances, token), (token, account));
}

/// What two accounts hold of a token together does not exceed what is in
/// circulation.
pub proof fn lemma_pair_le_circulating(
    balances: Map<BalanceKey, TokenBalance>,
    token: TokenId,
    first: AccountId,
    second: AccountId,
)
    requires
        balances.dom().finite(),
        first != second,
    ensures
        value_or_zero(balances, (token, first)) + value_or_zero(balances, (token, second))
            <= circulating(balances, token),
{
    lemma_holdings_finite(balances, token);
    lemma_pair_le_sum(holdings(balances, token), (token, first), (token, second));
}

} // verus!
