use vstd::prelude::*;
use crate::category::{kind_of, CategoryKind, Currency, TransactionCategory};
use crate::ledger::{
    account_filter, has_id, new_entry, select, trade_filter, Ledger, Transaction, TransactionFilter,
};
use crate::clock::{month_start, month_start_of, now_timestamp};
use crate::error::{TradeError, ValidationError};
use crate::ident::new_id;
use crate::money::Money;
use crate::trade::{Status, Trade};

verus! {

/// The account's live entries of each kind in `kinds`, kind after kind, each
/// kind's entries in ledger order; `until` keeps those made at or before it.
pub open spec fn select_kinds(
    s: Seq<Transaction>,
    account_id: u128,
    currency: Currency,
    kinds: Seq<CategoryKind>,
    until: Option<i64>,
) -> Seq<Transaction>
    decreases kinds.len(),
{
    if kinds.len() == 0 {
        Seq::empty()
    } else {
        select_kinds(s, account_id, currency, kinds.drop_last(), until) + select(
            s,
            TransactionFilter {
                account_id: Some(account_id),
                currency: Some(currency),
                kind: Some(kinds.last()),
                trade_id: None,
                created_from: None,
                created_until: until,
            },
        )
    }
}

/// The kinds that move capital between the account and the outside or its
/// trades, taxes aside, in the order they are reported.
pub open spec fn capital_kinds() -> Seq<CategoryKind> {
    seq![
        CategoryKind::Deposit,
        CategoryKind::Withdrawal,
        CategoryKind::FeeOpen,
        CategoryKind::FeeClose,
        CategoryKind::FundTrade,
        CategoryKind::PaymentFromTrade,
    ]
}

pub open spec fn tax_kinds() -> Seq<CategoryKind> {
    seq![CategoryKind::PaymentTax, CategoryKind::WithdrawalTax]
}

/// The kinds counted before the current month: deposits, withdrawals and
/// the funding moved to and from trades.
pub open spec fn settled_kinds() -> Seq<CategoryKind> {
    seq![
        CategoryKind::Deposit,
        CategoryKind::Withdrawal,
        CategoryKind::FundTrade,
        CategoryKind::PaymentFromTrade,
    ]
}

/// For each trade of the account and currency in `status`, in order, its
/// live entries of kind `kind`.
pub open spec fn trades_entries(
    s: Seq<Transaction>,
    trades: Seq<Trade>,
    account_id: u128,
    currency: Currency,
    status: Status,
    kind: CategoryKind,
) -> Seq<Transaction>
    decreases trades.len(),
{
    if trades.len() == 0 {
        Seq::empty()
    } else {
        let t = trades.last();
        trades_entries(s, trades.drop_last(), account_id, currency, status, kind) + if t.account_id
            == account_id && t.currency == currency && t.status == status {
            select(s, trade_filter(t.id, Some(kind)))
        } else {
            Seq::empty()
        }
    }
}

/// The queries and writes of the transaction store, over a ledger.
pub struct WorkerTransaction;

impl WorkerTransaction {
    /// The account's live entries in `currency`.
    pub fn read_all_transactions(ledger: &Ledger, account_id: u128, currency: &Currency) -> (r: Vec<Transaction>)
        ensures
            r@ == select(ledger@, account_filter(account_id, *currency, None)),
    {
        ledger.query(
            &TransactionFilter {
                account_id: Some(account_id),
                currency: Some(*currency),
                kind: None,
                trade_id: None,
                created_from: None,
                created_until: None,
            },
        )
    }

    /// The account's live entries in `currency` of the category's kind; a
    /// trade id the category carries plays no part.
    pub fn read_all_account_transactions_for_category(
        ledger: &Ledger,
        account_id: u128,
        currency: &Currency,
        category: TransactionCategory,
    ) -> (r: Vec<Transaction>)
        ensures
            r@ == select(ledger@, account_filter(account_id, *currency, Some(kind_of(category)))),
    {
        ledger.query(
            &TransactionFilter {
                account_id: Some(account_id),
                currency: Some(*currency),
                kind: Some(category.kind()),
                trade_id: None,
                created_from: None,
                created_until: None,
            },
        )
    }

    /// The trade's live entries of the category's kind.
    pub fn read_all_trade_transactions_for_category(ledger: &Ledger, trade_id: u128, category: TransactionCategory) -> (r: Vec<
        Transaction,
    >)
        ensures
            r@ == select(ledger@, trade_filter(trade_id, Some(kind_of(category)))),
    {
        ledger.query(
            &TransactionFilter {
                account_id: None,
                currency: None,
                kind: Some(category.kind()),
                trade_id: Some(trade_id),
                created_from: None,
                created_until: None,
            },
        )
    }

    /// The trade's live entries.
    pub fn read_all_trade_transactions(ledger: &Ledger, trade_id: u128) -> (r: Vec<Transaction>)
        ensures
            r@ == select(ledger@, trade_filter(trade_id, None)),
    {
        ledger.query(
            &TransactionFilter {
                account_id: None,
                currency: None,
                kind: None,
                trade_id: Some(trade_id),
                created_from: None,
                created_until: None,
            },
        )
    }

    /// The account's live entries of each kind of `kinds`, kind after kind.
    pub fn read_kinds(
        ledger: &Ledger,
        account_id: u128,
        currency: &Currency,
        kinds: &Vec<CategoryKind>,
        until: Option<i64>,
    ) -> (r: Vec<Transaction>)
        ensures
            r@ == select_kinds(ledger@, account_id, *currency, kinds@, until),
    {
        let mut out: Vec<Transaction> = Vec::new();
        let mut i: usize = 0;
        while i < kinds.len()
            invariant
                i <= kinds@.len(),
                out@ == select_kinds(ledger@, account_id, *currency, kinds@.subrange(0, i as int), until),
            decreases kinds@.len() - i,
        {
            assert(kinds@.subrange(0, i + 1).drop_last() =~= kinds@.subrange(0, i as int));
            let mut part = ledger.query(
                &TransactionFilter {
                    account_id: Some(account_id),
                    currency: Some(*currency),
                    kind: Some(kinds[i]),
                    trade_id: None,
                    created_from: None,
                    created_until: until,
                },
            );
            out.append(&mut part);
            i = i + 1;
        }
        assert(kinds@.subrange(0, kinds@.len() as int) =~= kinds@);
        out
    }

    /// The account's deposits, withdrawals, fees, fundings and payments back
    /// from trades, in that order: everything but taxes and market moves.
    pub fn read_all_trade_transactions_excluding_taxes(ledger: &Ledger, account_id: u128, currency: &Currency) -> (r: Vec<
        Transaction,
    >)
        ensures
            r@ == select_kinds(ledger@, account_id, *currency, capital_kinds(), None),
    {
        let kinds = vec![
            CategoryKind::Deposit,
            CategoryKind::Withdrawal,
            CategoryKind::FeeOpen,
            CategoryKind::FeeClose,
            CategoryKind::FundTrade,
            CategoryKind::PaymentFromTrade,
        ];
        assert(kinds@ =~= capital_kinds());
        Self::read_kinds(ledger, account_id, currency, &kinds, None)
    }

    /// The account's tax payments of trades, then its tax withdrawals.
    pub fn read_all_account_transactions_taxes(ledger: &Ledger, account_id: u128, currency: &Currency) -> (r: Vec<
        Transaction,
    >)
        ensures
            r@ == select_kinds(ledger@, account_id, *currency, tax_kinds(), None),
    {
        let kinds = vec![CategoryKind::PaymentTax, CategoryKind::WithdrawalTax];
        assert(kinds@ =~= tax_kinds());
        Self::read_kinds(ledger, account_id, currency, &kinds, None)
    }

    /// The account's deposits, withdrawals, fundings and payments back from
    /// trades made at or before `until`, kind after kind.
    pub fn read_all_transaction_excluding_taxes_until(
        ledger: &Ledger,
        account_id: u128,
        currency: &Currency,
        until: i64,
    ) -> (r: Vec<Transaction>)
        ensures
            r@ == select_kinds(ledger@, account_id, *currency, settled_kinds(), Some(until)),
    {
        let kinds = vec![
            CategoryKind::Deposit,
            CategoryKind::Withdrawal,
            CategoryKind::FundTrade,
            CategoryKind::PaymentFromTrade,
        ];
        assert(kinds@ =~= settled_kinds());
        Self::read_kinds(ledger, account_id, currency, &kinds, Some(until))
    }

    /// The account's deposits, withdrawals, fundings and payments back from
    /// trades made before the current month began. Fails when the clock
    /// reads a time the calendar cannot place.
    pub fn read_all_transaction_excluding_current_month_and_taxes(ledger: &Ledger, account_id: u128, currency: &Currency) -> (r: Result<
        Vec<Transaction>,
        TradeError,
    >)
        ensures
            exists|now: i64|
                match #[trigger] month_start_of(now) {
                    None => r == Err::<Vec<Transaction>, TradeError>(
                        TradeError::Validation(ValidationError::TimeOutOfRange),
                    ),
                    Some(start) => r matches Ok(v) && v@ == select_kinds(
                        ledger@,
                        account_id,
                        *currency,
                        settled_kinds(),
                        Some(start),
                    ),
                },
    {
        let now = now_timestamp();
        match month_start(now) {
            None => Err(TradeError::Validation(ValidationError::TimeOutOfRange)),
            Some(start) => Ok(Self::read_all_transaction_excluding_taxes_until(ledger, account_id, currency, start)),
        }
    }

    /// Records a new entry of the account, with a fresh random id and the
    /// current time, its trade being the one the category carries. Fails,
    /// changing nothing, when the amount is negative, or in the unlikely
    /// case that the drawn id is taken.
    pub fn create_transaction(
        ledger: &mut Ledger,
        account_id: u128,
        amount: Money,
        currency: &Currency,
        category: TransactionCategory,
    ) -> (r: Result<Transaction, TradeError>)
        ensures
            amount@ < 0 ==> r == Err::<Transaction, TradeError>(
                TradeError::Validation(ValidationError::NegativeAmount),
            ),
            amount@ >= 0 ==> r is Ok || r == Err::<Transaction, TradeError>(
                TradeError::Validation(ValidationError::DuplicateId),
            ),
            amount@ >= 0 && old(ledger)@.len() == 0 ==> r is Ok,
            r is Err ==> final(ledger)@ == old(ledger)@,
            r matches Ok(t) ==> final(ledger)@ == old(ledger)@.push(t) && !has_id(old(ledger)@, t.id) && t
                == new_entry(t.id, t.created_at, account_id, *currency, amount, category),
    {
        let id = new_id();
        let at = now_timestamp();
        ledger.append(id, at, account_id, category.trade_id(), *currency, amount, category)
    }

    /// For each trade of `trades` of the account and currency in `status`,
    /// its live entries of kind `kind`.
    pub fn read_trades_entries(
        ledger: &Ledger,
        trades: &Vec<Trade>,
        account_id: u128,
        currency: &Currency,
        status: Status,
        kind: CategoryKind,
    ) -> (r: Vec<Transaction>)
        ensures
            r@ == trades_entries(ledger@, trades@, account_id, *currency, status, kind),
    {
        let mut out: Vec<Transaction> = Vec::new();
        let mut i: usize = 0;
        while i < trades.len()
            invariant
                i <= trades@.len(),
                out@ == trades_entries(ledger@, trades@.subrange(0, i as int), account_id, *currency, status, kind),
            decreases trades@.len() - i,
        {
            assert(trades@.subrange(0, i + 1).drop_last() =~= trades@.subrange(0, i as int));
            let t = trades[i];
            if t.account_id == account_id && t.currency == *currency && t.status == status {
                let mut part = ledger.query(
                    &TransactionFilter {
                        account_id: None,
                        currency: None,
                        kind: Some(kind),
                        trade_id: Some(t.id),
                        created_from: None,
                        created_until: None,
                    },
                );
                out.append(&mut part);
            }
            i = i + 1;
        }
        assert(trades@.subrange(0, trades@.len() as int) =~= trades@);
        out
    }

    /// The entries that hold the account's capital in trades: the fundings
    /// of its funded trades, then the opens of its submitted trades, then
    /// the opens of its partially filled trades, then the opens of its filled
    /// trades: a partial fill holds capital as a fill does.
    pub fn all_account_transactions_in_trade(
        ledger: &Ledger,
        trades: &Vec<Trade>,
        account_id: u128,
        currency: &Currency,
    ) -> (r: Vec<Transaction>)
        ensures
            r@ == trades_entries(ledger@, trades@, account_id, *currency, Status::Funded, CategoryKind::FundTrade)
                + trades_entries(ledger@, trades@, account_id, *currency, Status::Submitted, CategoryKind::OpenTrade)
                + trades_entries(ledger@, trades@, account_id, *currency, Status::PartiallyFilled, CategoryKind::OpenTrade)
                + trades_entries(ledger@, trades@, account_id, *currency, Status::Filled, CategoryKind::OpenTrade),
    {
        let mut out = Self::read_trades_entries(ledger, trades, account_id, currency, Status::Funded, CategoryKind::FundTrade);
        let mut submitted = Self::read_trades_entries(ledger, trades, account_id, currency, Status::Submitted, CategoryKind::OpenTrade);
        let mut partial = Self::read_trades_entries(ledger, trades, account_id, currency, Status::PartiallyFilled, CategoryKind::OpenTrade);
        let mut filled = Self::read_trades_entries(ledger, trades, account_id, currency, Status::Filled, CategoryKind::OpenTrade);
        out.append(&mut submitted);
        out.append(&mut partial);
        out.append(&mut filled);
        out
    }
}

} // verus!
