//! The sum of all balances of a ledger, and how it moves when one entry
//! is written.

use vstd::prelude::*;

verus! {

/// A balance of tokens.
pub type Balance = u128;

/// The balances of a ledger, by account name.
pub type Balances = Map<Seq<char>, Balance>;

/// The sum of all balances of `m`.
pub open spec fn total(m: Balances) -> nat
    decreases m.dom().len(),
    when m.dom().finite()
{
    if m.dom().len() == 0 {
        0
    } else {
        let k = m.dom().choose();
        m[k] as nat + total(m.remove(k))
    }
}

/// The balance of `k`, zero for an account without an entry.
pub open spec fn balance_or_zero(m: Balances, k: Seq<char>) -> Balance {
    if m.contains_key(k) {
        m[k]
    } else {
        0
    }
}

/// The empty ledger sums to zero.
pub proof fn lemma_total_empty()
    ensures
        total(Map::<Seq<char>, Balance>::empty()) == 0,
{
}

/// The sum is the balance of any one account plus the sum of the rest.
pub proof fn lemma_total_remove(m: Balances, k: Seq<char>)
    requires
        m.dom().finite(),
        m.contains_key(k),
    ensures
        total(m) == m[k] + total(m.remove(k)),
    decreases m.dom().len(),
{
    let c = m.dom().choose();
    if c != k {
        lemma_total_remove(m.remove(c), k);
        lemma_total_remove(m.remove(k), c);
        assert(m.remove(c).remove(k) =~= m.remove(k).remove(c));
    }
}

/// Removing an account that has no entry changes nothing.
pub proof fn lemma_remove_absent(m: Balances, k: Seq<char>)
    requires
        !m.contains_key(k),
    ensures
        m.remove(k) == m,
{
}

/// Writing the balance of one account moves the sum by the difference
/// between the new balance and the old one (zero where there was none).
pub proof fn lemma_total_insert(m: Balances, k: Seq<char>, v: Balance)
    requires
        m.dom().finite(),
    ensures
        m.insert(k, v).dom().finite(),
        total(m.insert(k, v)) == total(m) - balance_or_zero(m, k) + v,
{
    assert(m.insert(k, v).remove(k) =~= m.remove(k));
    lemma_total_remove(m.insert(k, v), k);
    if m.contains_key(k) {
        lemma_total_remove(m, k);
    } else {
        lemma_remove_absent(m, k);
    }
}

/// Deleting the entry of one account lowers the sum by its balance.
pub proof fn lemma_total_delete(m: Balances, k: Seq<char>)
    requires
        m.dom().finite(),
    ensures
        m.remove(k).dom().finite(),
        total(m.remove(k)) == total(m) - balance_or_zero(m, k),
{
    if m.contains_key(k) {
        lemma_total_remove(m, k);
    } else {
        lemma_remove_absent(m, k);
    }
}

/// No balance exceeds the sum.
pub proof fn lemma_balance_le_total(m: Balances, k: Seq<char>)
    requires
        m.dom().finite(),
    ensures
        balance_or_zero(m, k) <= total(m),
{
    if m.contains_key(k) {
        lemma_total_remove(m, k);
    }
}

/// Two different accounts together hold no more than the sum.
pub proof fn lemma_two_balances_le_total(m: Balances, a: Seq<char>, b: Seq<char>)
    requires
        m.dom().finite(),
        a != b,
    ensures
        balance_or_zero(m, a) + balance_or_zero(m, b) <= total(m),
{
    if m.contains_key(a) {
        lemma_total_remove(m, a);
        lemma_balance_le_total(m.remove(a), b);
    } else {
        lemma_balance_le_total(m, b);
    }
}

} // verus!
