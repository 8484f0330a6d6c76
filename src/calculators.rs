use vstd::prelude::*;
use crate::category::{kind_of, trade_of, CategoryKind};
use crate::error::{ArithmeticOp, TradeError};
use crate::ledger::{Ledger, Transaction};
use crate::measure::{
    fold, is_exit, lemma_fold_is_total, outcome_matches, overflow_error, total, Measure, Overflow,
};
use crate::money::{in_range, Money};
use crate::category::Currency;
use crate::trade::{Status, Trade, TradeBalance};

verus! {

/// Whether a live exit entry of the trade is in `s`.
pub open spec fn has_exit(s: Seq<Transaction>, trade_id: u128) -> bool {
    exists|i: int|
        0 <= i < s.len() && s[i].deleted_at is None && trade_of(s[i].category) == Some(trade_id)
            && is_exit(kind_of(s[i].category))
}

/// `price * count`, checked.
pub open spec fn product(price: int, count: int) -> Result<int, Overflow> {
    if in_range(price * count) {
        Ok(price * count)
    } else {
        Err((ArithmeticOp::Mul, price, count))
    }
}

/// `|entry - stop| * quantity`, checked.
pub open spec fn risk_of(entry: int, stop: int, quantity: int) -> Result<int, Overflow> {
    if !in_range(entry - stop) {
        Err((ArithmeticOp::Sub, entry, stop))
    } else {
        product(if entry - stop < 0 { stop - entry } else { entry - stop }, quantity)
    }
}

/// The capital a trade can lose: nothing until its entry has filled, then
/// the entry-to-stop spread times the entry quantity.
pub open spec fn at_risk(t: Trade) -> Result<int, Overflow> {
    if t.entry.filled_at is Some {
        risk_of(t.entry.price@, t.safety_stop.price@, t.entry.quantity as int)
    } else {
        Ok(0)
    }
}

/// Funding minus the capital at risk.
pub open spec fn not_at_risk(s: Seq<Transaction>, t: Trade) -> Result<int, Overflow> {
    match fold(s, Measure::TradeFunding { trade_id: t.id }) {
        Err(e) => Err(e),
        Ok(f) => match at_risk(t) {
            Err(e) => Err(e),
            Ok(r) => if in_range(f - r) {
                Ok(f - r)
            } else {
                Err((ArithmeticOp::Sub, f, r))
            },
        },
    }
}

/// Capital in the market: zero once a live exit exists, else the opens.
pub open spec fn in_market(s: Seq<Transaction>, trade_id: u128) -> Result<int, Overflow> {
    if has_exit(s, trade_id) {
        Ok(0)
    } else {
        fold(s, Measure::TradeOpened { trade_id })
    }
}

pub fn overflow(op: ArithmeticOp, lhs: i128, rhs: i128) -> (r: TradeError)
    ensures
        r == (TradeError::ArithmeticOverflow { op, lhs, rhs }),
{
    TradeError::ArithmeticOverflow { op, lhs, rhs }
}

/// The figures of a trade's balance, in field order: funding, capital in
/// market, capital out of market, taxed, and total performance (zero until
/// the trade is closed).
pub type BalanceFigures = (int, int, int, int, int);

pub open spec fn balance_result(s: Seq<Transaction>, trade_id: u128, status: Status) -> Result<
    BalanceFigures,
    Overflow,
> {
    match fold(s, Measure::TradeFunding { trade_id }) {
        Err(e) => Err(e),
        Ok(f) => match in_market(s, trade_id) {
            Err(e) => Err(e),
            Ok(m) => match fold(s, Measure::TradeExits { trade_id }) {
                Err(e) => Err(e),
                Ok(x) => match fold(s, Measure::TradeTaxes { trade_id }) {
                    Err(e) => Err(e),
                    Ok(tx) => if status == Status::Closed {
                        match fold(s, Measure::TradeResult { trade_id }) {
                            Err(e) => Err(e),
                            Ok(p) => Ok((f, m, x, tx, p)),
                        }
                    } else {
                        Ok((f, m, x, tx, 0))
                    },
                },
            },
        },
    }
}

pub open spec fn balance_is(b: TradeBalance, v: BalanceFigures) -> bool {
    b.funding@ == v.0 && b.capital_in_market@ == v.1 && b.capital_out_of_market@ == v.2
        && b.taxed@ == v.3 && b.total_performance@ == v.4
}

/// Whether an exec result is the balance the spec gives.
pub open spec fn balance_outcome(r: Result<TradeBalance, TradeError>, f: Result<BalanceFigures, Overflow>) -> bool {
    match f {
        Ok(v) => r matches Ok(b) && balance_is(b, v),
        Err(o) => r == Err::<TradeBalance, TradeError>(overflow_error(o)),
    }
}

impl TradeBalance {
    /// Recomputes a trade's cached balance from the ledger.
    pub fn calculate(trade_id: u128, status: Status, ledger: &Ledger) -> (r: Result<
        TradeBalance,
        TradeError,
    >)
        ensures
            balance_outcome(r, balance_result(ledger@, trade_id, status)),
    {
        let funding = TradeCapitalFunded::calculate(trade_id, ledger)?;
        let capital_in_market = TradeCapitalInMarket::calculate(trade_id, ledger)?;
        let capital_out_of_market = TradeCapitalOutOfMarket::calculate(trade_id, ledger)?;
        let taxed = TradeCapitalTaxable::calculate(trade_id, ledger)?;
        let total_performance = if status == Status::Closed {
            Measure::TradeResult { trade_id }.fold(ledger.entries())?
        } else {
            Money::zero()
        };
        Ok(TradeBalance { funding, capital_in_market, capital_out_of_market, taxed, total_performance })
    }
}

/// The sum of the amounts of the trade's live entries of kind `k`.
pub open spec fn trade_kind_sum(s: Seq<Transaction>, trade_id: u128, k: CategoryKind) -> int
    decreases s.len(),
{
    if s.len() == 0 {
        0
    } else {
        let t = s.last();
        trade_kind_sum(s.drop_last(), trade_id, k) + if t.deleted_at is None && trade_of(t.category)
            == Some(trade_id) && kind_of(t.category) == k {
            t.amount@
        } else {
            0
        }
    }
}

/// Exits, minus funding (`FundTrade` less `PaymentFromTrade`), minus fees,
/// minus taxes.
pub open spec fn realized(s: Seq<Transaction>, id: u128) -> int {
    (trade_kind_sum(s, id, CategoryKind::CloseSafetyStop) + trade_kind_sum(s, id, CategoryKind::CloseTarget)
        + trade_kind_sum(s, id, CategoryKind::CloseSafetyStopSlippage)) - (trade_kind_sum(
        s,
        id,
        CategoryKind::FundTrade,
    ) - trade_kind_sum(s, id, CategoryKind::PaymentFromTrade)) - (trade_kind_sum(
        s,
        id,
        CategoryKind::FeeOpen,
    ) + trade_kind_sum(s, id, CategoryKind::FeeClose)) - trade_kind_sum(s, id, CategoryKind::PaymentTax)
}

/// Performance decomposes: a closed trade's performance, when it does not
/// overflow, is the sum of its exits minus its funding, minus its fees,
/// minus its taxes.
pub proof fn lemma_performance_decomposes(s: Seq<Transaction>, trade_id: u128)
    ensures
        total(s, Measure::TradeResult { trade_id }) == realized(s, trade_id),
        fold(s, Measure::TradeResult { trade_id }) matches Ok(v) ==> v == realized(s, trade_id),
    decreases s.len(),
{
    lemma_fold_is_total(s, Measure::TradeResult { trade_id });
    if s.len() > 0 {
        lemma_performance_decomposes(s.drop_last(), trade_id);
    }
}

/// Capital allocated to a trade and not yet returned from it.
pub struct TradeCapitalFunded;

impl TradeCapitalFunded {
    pub fn calculate(trade_id: u128, ledger: &Ledger) -> (r: Result<Money, TradeError>)
        ensures
            outcome_matches(r, fold(ledger@, Measure::TradeFunding { trade_id })),
    {
        Measure::TradeFunding { trade_id }.fold(ledger.entries())
    }
}

/// Capital a trade has deployed in the market; zero once it has exited.
pub struct TradeCapitalInMarket;

impl TradeCapitalInMarket {
    pub fn calculate(trade_id: u128, ledger: &Ledger) -> (r: Result<Money, TradeError>)
        ensures
            outcome_matches(r, in_market(ledger@, trade_id)),
    {
        let txs = ledger.entries();
        let mut i: usize = 0;
        while i < txs.len()
            invariant
                txs@ == ledger@,
                i <= txs@.len(),
                forall|j: int|
                    0 <= j < i ==> !(txs@[j].deleted_at is None && trade_of(txs@[j].category)
                        == Some(trade_id) && is_exit(kind_of(txs@[j].category))),
            decreases txs@.len() - i,
        {
            let t = txs[i];
            let k = t.category.kind();
            if t.deleted_at.is_none() && t.category.trade_id() == Some(trade_id) && (k
                == CategoryKind::CloseSafetyStop || k
                == CategoryKind::CloseTarget || k
                == CategoryKind::CloseSafetyStopSlippage) {
                return Ok(Money::zero());
            }
            i = i + 1;
        }
        Measure::TradeOpened { trade_id }.fold(txs)
    }
}

/// Capital the exits of a trade returned to the account.
pub struct TradeCapitalOutOfMarket;

impl TradeCapitalOutOfMarket {
    pub fn calculate(trade_id: u128, ledger: &Ledger) -> (r: Result<Money, TradeError>)
        ensures
            outcome_matches(r, fold(ledger@, Measure::TradeExits { trade_id })),
    {
        Measure::TradeExits { trade_id }.fold(ledger.entries())
    }
}

/// Taxes paid for a trade.
pub struct TradeCapitalTaxable;

impl TradeCapitalTaxable {
    pub fn calculate(trade_id: u128, ledger: &Ledger) -> (r: Result<Money, TradeError>)
        ensures
            outcome_matches(r, fold(ledger@, Measure::TradeTaxes { trade_id })),
    {
        Measure::TradeTaxes { trade_id }.fold(ledger.entries())
    }
}

/// Capital needed to open a trade: entry price times entry quantity.
pub struct TradeCapitalRequired;

impl TradeCapitalRequired {
    pub fn calculate(trade: &Trade) -> (r: Result<Money, TradeError>)
        ensures
            outcome_matches(r, product(trade.entry.price@, trade.entry.quantity as int)),
    {
        match trade.entry.price.checked_mul_count(trade.entry.quantity) {
            Some(v) => Ok(v),
            None => Err(
                overflow(ArithmeticOp::Mul, trade.entry.price.units(), trade.entry.quantity as i128),
            ),
        }
    }
}

/// Monetary risk of a position.
pub struct RiskCalculator;

impl RiskCalculator {
    /// `|entry_price - stop_price| * quantity`.
    pub fn calculate(entry_price: &Money, stop_price: &Money, quantity: u64) -> (r: Result<
        Money,
        TradeError,
    >)
        ensures
            outcome_matches(r, risk_of(entry_price@, stop_price@, quantity as int)),
    {
        match entry_price.checked_sub(stop_price) {
            None => Err(overflow(ArithmeticOp::Sub, entry_price.units(), stop_price.units())),
            Some(d) => {
                let spread = d.abs();
                match spread.checked_mul_count(quantity) {
                    Some(v) => Ok(v),
                    None => Err(overflow(ArithmeticOp::Mul, spread.units(), quantity as i128)),
                }
            },
        }
    }
}

/// Whether a trade holds capital that can still be lost.
pub open spec fn is_open(s: Status) -> bool {
    s == Status::Funded || s == Status::Submitted || s == Status::PartiallyFilled || s
        == Status::Filled
}

/// The risk of the open trades of the account in the currency, summed in
/// order with checked steps.
pub open spec fn open_risk_of(trades: Seq<Trade>, account_id: u128, currency: Currency) -> Result<int, Overflow>
    decreases trades.len(),
{
    if trades.len() == 0 {
        Ok(0)
    } else {
        match open_risk_of(trades.drop_last(), account_id, currency) {
            Err(e) => Err(e),
            Ok(acc) => {
                let t = trades.last();
                if is_open(t.status) && t.account_id == account_id && t.currency == currency {
                    match risk_of(t.entry.price@, t.safety_stop.price@, t.entry.quantity as int) {
                        Err(e) => Err(e),
                        Ok(r) => if in_range(acc + r) {
                            Ok(acc + r)
                        } else {
                            Err((ArithmeticOp::Add, acc, r))
                        },
                    }
                } else {
                    Ok(acc)
                }
            },
        }
    }
}

impl RiskCalculator {
    /// The risk already open in the account: the sum of the risks of its
    /// funded, submitted and filled trades in `currency`.
    pub fn open_risk(trades: &Vec<Trade>, account_id: u128, currency: &Currency) -> (r: Result<Money, TradeError>)
        ensures
            outcome_matches(r, open_risk_of(trades@, account_id, *currency)),
    {
        let mut acc = Money::zero();
        let mut i: usize = 0;
        while i < trades.len()
            invariant
                i <= trades@.len(),
                open_risk_of(trades@.subrange(0, i as int), account_id, *currency) == Ok::<int, Overflow>(acc@),
            decreases trades@.len() - i,
        {
            assert(trades@.subrange(0, i + 1).drop_last() =~= trades@.subrange(0, i as int));
            let t = trades[i];
            let open = t.status == Status::Funded || t.status == Status::Submitted || t.status
                == Status::PartiallyFilled || t.status == Status::Filled;
            if open && t.account_id == account_id && t.currency == *currency {
                let risk = match RiskCalculator::calculate(&t.entry.price, &t.safety_stop.price, t.entry.quantity) {
                    Ok(v) => v,
                    Err(e) => {
                        proof {
                            lemma_open_risk_stops(trades@, account_id, *currency, i as int + 1);
                        }
                        return Err(e);
                    },
                };
                match acc.checked_add(&risk) {
                    Some(v) => {
                        acc = v;
                    },
                    None => {
                        proof {
                            lemma_open_risk_stops(trades@, account_id, *currency, i as int + 1);
                        }
                        return Err(overflow(ArithmeticOp::Add, acc.units(), risk.units()));
                    },
                }
            }
            i = i + 1;
        }
        assert(trades@.subrange(0, trades@.len() as int) =~= trades@);
        Ok(acc)
    }
}

proof fn lemma_open_risk_stops(s: Seq<Trade>, a: u128, c: Currency, n: int)
    requires
        0 <= n <= s.len(),
        open_risk_of(s.subrange(0, n), a, c) is Err,
    ensures
        open_risk_of(s, a, c) == open_risk_of(s.subrange(0, n), a, c),
    decreases s.len() - n,
{
    if n < s.len() {
        assert(s.subrange(0, n + 1).drop_last() =~= s.subrange(0, n));
        lemma_open_risk_stops(s, a, c, n + 1);
    } else {
        assert(s.subrange(0, n) =~= s);
    }
}

/// Funded capital that the safety stop protects: funding minus what the
/// filled entry can lose down to the stop.
pub struct TradeCapitalNotAtRisk;

impl TradeCapitalNotAtRisk {
    pub fn calculate(trade: &Trade, ledger: &Ledger) -> (r: Result<Money, TradeError>)
        ensures
            outcome_matches(r, not_at_risk(ledger@, *trade)),
    {
        let funded = TradeCapitalFunded::calculate(trade.id, ledger)?;
        let risk = if trade.entry.filled_at.is_some() {
            RiskCalculator::calculate(&trade.entry.price, &trade.safety_stop.price, trade.entry.quantity)?
        } else {
            Money::zero()
        };
        match funded.checked_sub(&risk) {
            Some(v) => Ok(v),
            None => Err(overflow(ArithmeticOp::Sub, funded.units(), risk.units())),
        }
    }
}

/// Realized result of a closed trade.
pub struct TradePerformance;

impl TradePerformance {
    /// Exits, minus funding, minus fees, minus taxes. Only a closed trade has
    /// a performance.
    pub fn calculate(trade: &Trade, ledger: &Ledger) -> (r: Result<Money, TradeError>)
        ensures
            trade.status != Status::Closed ==> r == Err::<Money, TradeError>(
                TradeError::InvalidState { status: trade.status },
            ),
            trade.status == Status::Closed ==> outcome_matches(
                r,
                fold(ledger@, Measure::TradeResult { trade_id: trade.id }),
            ),
    {
        if trade.status != Status::Closed {
            return Err(TradeError::InvalidState { status: trade.status });
        }
        Measure::TradeResult { trade_id: trade.id }.fold(ledger.entries())
    }
}

} // verus!
