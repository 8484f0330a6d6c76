use vstd::prelude::*;
use vstd::seq_lib::group_to_multiset_ensures;
use crate::category::{kind_of, CategoryKind, Currency};
use crate::error::TradeError;
use crate::ledger::{Ledger, Transaction};
use crate::measure::{contribution, fold, lemma_fold_is_total, outcome_matches, total, Measure};
use crate::money::Money;

verus! {

/// The capital an account holds in one currency, folded from its ledger.
pub struct AccountCapitalBalance;

pub open spec fn account_measure(account_id: u128, currency: Currency) -> Measure {
    Measure::AccountCapital { account_id, currency }
}

impl AccountCapitalBalance {
    /// Folds the account's live entries in `currency`, in ledger order, from
    /// zero: deposits and the three close categories add; withdrawals (plain,
    /// tax, earnings), fees and `OpenTrade` subtract; the rest is skipped. The
    /// first step that overflows fails the whole calculation.
    pub fn calculate(account_id: u128, currency: &Currency, ledger: &Ledger) -> (r: Result<
        Money,
        TradeError,
    >)
        ensures
            outcome_matches(r, fold(ledger@, account_measure(account_id, *currency))),
            r matches Ok(v) ==> v@ == capital(ledger@, account_id, *currency),
    {
        let m = Measure::AccountCapital { account_id, currency: *currency };
        let r = m.fold(ledger.entries());
        proof {
            lemma_fold_is_total(ledger@, m);
            lemma_conservation(ledger@, account_id, *currency);
        }
        r
    }
}

/// The sum of the amounts of the account's live entries of kind `k`.
pub open spec fn kind_sum(s: Seq<Transaction>, account_id: u128, currency: Currency, k: CategoryKind) -> int
    decreases s.len(),
{
    if s.len() == 0 {
        0
    } else {
        let t = s.last();
        kind_sum(s.drop_last(), account_id, currency, k) + if t.deleted_at is None && t.account_id
            == account_id && t.currency == currency && kind_of(t.category) == k {
            t.amount@
        } else {
            0
        }
    }
}

/// Deposits, minus withdrawals, fees and opens, plus closes.
pub open spec fn capital(s: Seq<Transaction>, a: u128, c: Currency) -> int {
    kind_sum(s, a, c, CategoryKind::Deposit) - (kind_sum(s, a, c, CategoryKind::Withdrawal)
        + kind_sum(s, a, c, CategoryKind::WithdrawalTax) + kind_sum(
        s,
        a,
        c,
        CategoryKind::WithdrawalEarnings,
    ) + kind_sum(s, a, c, CategoryKind::FeeOpen) + kind_sum(s, a, c, CategoryKind::FeeClose)
        + kind_sum(s, a, c, CategoryKind::OpenTrade)) + (kind_sum(
        s,
        a,
        c,
        CategoryKind::CloseSafetyStop,
    ) + kind_sum(s, a, c, CategoryKind::CloseTarget) + kind_sum(
        s,
        a,
        c,
        CategoryKind::CloseSafetyStopSlippage,
    ))
}

/// Conservation: the account's capital is the sum of its deposits, minus the
/// sum of its withdrawals, fees and opens, plus the sum of its closes.
pub proof fn lemma_conservation(s: Seq<Transaction>, a: u128, c: Currency)
    ensures
        total(s, account_measure(a, c)) == capital(s, a, c),
        fold(s, account_measure(a, c)) matches Ok(v) ==> v == capital(s, a, c),
    decreases s.len(),
{
    lemma_fold_is_total(s, account_measure(a, c));
    if s.len() > 0 {
        lemma_conservation(s.drop_last(), a, c);
    }
}

proof fn lemma_total_remove(s: Seq<Transaction>, m: Measure, i: int)
    requires
        0 <= i < s.len(),
    ensures
        total(s, m) == total(s.remove(i), m) + contribution(m, s[i]),
    decreases s.len(),
{
    if i == s.len() - 1 {
        assert(s.remove(i) =~= s.drop_last());
    } else {
        lemma_total_remove(s.drop_last(), m, i);
        assert(s.remove(i).drop_last() =~= s.drop_last().remove(i));
        assert(s.remove(i).last() == s.last());
    }
}

/// A measure does not depend on the order of the entries: two sequences that
/// hold the same entries have the same exact sum.
pub proof fn lemma_total_order_free(s1: Seq<Transaction>, s2: Seq<Transaction>, m: Measure)
    requires
        s1.to_multiset() == s2.to_multiset(),
    ensures
        total(s1, m) == total(s2, m),
    decreases s1.len(),
{
    broadcast use group_to_multiset_ensures;

    if s1.len() == 0 {
        assert(s1.to_multiset().len() == 0);
        assert(s2.to_multiset().len() == 0);
        assert(s2.len() == 0);
    } else {
        let x = s1.last();
        assert(s1.drop_last().push(x) =~= s1);
        assert(s2.to_multiset().count(x) > 0);
        assert(s2.contains(x));
        let i = choose|i: int| 0 <= i < s2.len() && s2[i] == x;
        lemma_total_remove(s2, m, i);
        assert(s2.remove(i).to_multiset() =~= s1.drop_last().to_multiset());
        lemma_total_order_free(s1.drop_last(), s2.remove(i), m);
    }
}

/// The account capital balance does not depend on insertion order: two
/// ledgers holding the same entries in any order give the same balance
/// whenever neither fold overflows, and that balance is the conserved sum.
pub proof fn lemma_balance_order_free(s1: Seq<Transaction>, s2: Seq<Transaction>, a: u128, c: Currency)
    requires
        s1.to_multiset() == s2.to_multiset(),
    ensures
        capital(s1, a, c) == capital(s2, a, c),
        fold(s1, account_measure(a, c)) matches Ok(v1) ==> fold(s2, account_measure(a, c)) matches Ok(
            v2,
        ) ==> v1 == v2 && v1 == capital(s1, a, c),
{
    lemma_total_order_free(s1, s2, account_measure(a, c));
    lemma_conservation(s1, a, c);
    lemma_conservation(s2, a, c);
}

} // verus!
