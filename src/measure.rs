use vstd::prelude::*;
use crate::category::{direction_of, kind_of, trade_of, CategoryKind, Currency, Direction};
use crate::error::{ArithmeticOp, TradeError};
use crate::ledger::Transaction;
use crate::money::{in_range, lemma_money_eq, Money};

verus! {

/// What a fold does with one entry.
#[derive(Clone, Copy, Debug, PartialEq, Eq, Structural)]
pub enum Sign {
    Add,
    Sub,
    Skip,
}

/// A figure folded from ledger entries. Each entry adds its amount, subtracts
/// it, or is skipped; deleted entries are always skipped.
#[derive(Clone, Copy, Debug, PartialEq, Eq, Structural)]
pub enum Measure {
    /// Capital of an account in one currency: inflows minus outflows.
    AccountCapital { account_id: u128, currency: Currency },
    /// Funding of a trade: `FundTrade` minus `PaymentFromTrade`.
    TradeFunding { trade_id: u128 },
    /// Capital a trade put into the market: `OpenTrade`.
    TradeOpened { trade_id: u128 },
    /// Capital a trade's exits returned: the three close categories.
    TradeExits { trade_id: u128 },
    /// Taxes paid for a trade: `PaymentTax`.
    TradeTaxes { trade_id: u128 },
    /// Realized result of a trade: exits, minus funding, fees and taxes.
    TradeResult { trade_id: u128 },
}

pub open spec fn is_exit(k: CategoryKind) -> bool {
    k == CategoryKind::CloseSafetyStop || k == CategoryKind::CloseTarget || k
        == CategoryKind::CloseSafetyStopSlippage
}

/// The sign an entry of kind `k` has in a measure of one trade.
pub open spec fn trade_sign(m: Measure, k: CategoryKind) -> Sign {
    match m {
        Measure::TradeFunding { .. } => if k == CategoryKind::FundTrade {
            Sign::Add
        } else if k == CategoryKind::PaymentFromTrade {
            Sign::Sub
        } else {
            Sign::Skip
        },
        Measure::TradeOpened { .. } => if k == CategoryKind::OpenTrade {
            Sign::Add
        } else {
            Sign::Skip
        },
        Measure::TradeExits { .. } => if is_exit(k) {
            Sign::Add
        } else {
            Sign::Skip
        },
        Measure::TradeTaxes { .. } => if k == CategoryKind::PaymentTax {
            Sign::Add
        } else {
            Sign::Skip
        },
        Measure::TradeResult { .. } => if is_exit(k) || k == CategoryKind::PaymentFromTrade {
            Sign::Add
        } else if k == CategoryKind::FundTrade || k == CategoryKind::FeeOpen || k
            == CategoryKind::FeeClose || k == CategoryKind::PaymentTax {
            Sign::Sub
        } else {
            Sign::Skip
        },
        Measure::AccountCapital { .. } => Sign::Skip,
    }
}

/// The sign of entry `t` in measure `m`.
pub open spec fn sign_of(m: Measure, t: Transaction) -> Sign {
    if t.deleted_at is Some {
        Sign::Skip
    } else {
        match m {
            Measure::AccountCapital { account_id, currency } => if t.account_id == account_id
                && t.currency == currency {
                match direction_of(kind_of(t.category)) {
                    Direction::Inflow => Sign::Add,
                    Direction::Outflow => Sign::Sub,
                    Direction::Ignored => Sign::Skip,
                }
            } else {
                Sign::Skip
            },
            Measure::TradeFunding { trade_id } | Measure::TradeOpened { trade_id }
            | Measure::TradeExits { trade_id } | Measure::TradeTaxes { trade_id }
            | Measure::TradeResult { trade_id } => if trade_of(t.category) == Some(trade_id) {
                trade_sign(m, kind_of(t.category))
            } else {
                Sign::Skip
            },
        }
    }
}

/// An overflow: the operation and the two operands that left the range.
pub type Overflow = (ArithmeticOp, int, int);

/// One checked step of a fold.
pub open spec fn step(acc: int, sign: Sign, amount: int) -> Result<int, Overflow> {
    match sign {
        Sign::Add => if in_range(acc + amount) {
            Ok(acc + amount)
        } else {
            Err((ArithmeticOp::Add, acc, amount))
        },
        Sign::Sub => if in_range(acc - amount) {
            Ok(acc - amount)
        } else {
            Err((ArithmeticOp::Sub, acc, amount))
        },
        Sign::Skip => Ok(acc),
    }
}

/// The fold of `s` from zero, in order, stopping at the first overflow.
pub open spec fn fold(s: Seq<Transaction>, m: Measure) -> Result<int, Overflow>
    decreases s.len(),
{
    if s.len() == 0 {
        Ok(0)
    } else {
        match fold(s.drop_last(), m) {
            Err(e) => Err(e),
            Ok(acc) => step(acc, sign_of(m, s.last()), s.last().amount@),
        }
    }
}

/// The signed contribution of one entry.
pub open spec fn contribution(m: Measure, t: Transaction) -> int {
    match sign_of(m, t) {
        Sign::Add => t.amount@,
        Sign::Sub => -t.amount@,
        Sign::Skip => 0,
    }
}

/// The exact signed sum of a measure over `s`, with no range limit.
pub open spec fn total(s: Seq<Transaction>, m: Measure) -> int
    decreases s.len(),
{
    if s.len() == 0 {
        0
    } else {
        total(s.drop_last(), m) + contribution(m, s.last())
    }
}

/// The error that reports an overflow.
pub open spec fn overflow_error(o: Overflow) -> TradeError {
    TradeError::ArithmeticOverflow { op: o.0, lhs: o.1 as i128, rhs: o.2 as i128 }
}

/// Whether an exec result is the one the spec fold gives.
pub open spec fn outcome_matches(r: Result<Money, TradeError>, f: Result<int, Overflow>) -> bool {
    match f {
        Ok(v) => r matches Ok(x) && x@ == v,
        Err((op, a, b)) => r matches Err(TradeError::ArithmeticOverflow { op: o, lhs, rhs })
            && o == op && lhs as int == a && rhs as int == b,
    }
}

/// A fold that does not overflow gives the exact signed sum.
pub proof fn lemma_fold_is_total(s: Seq<Transaction>, m: Measure)
    ensures
        fold(s, m) matches Ok(v) ==> v == total(s, m),
    decreases s.len(),
{
    if s.len() > 0 {
        lemma_fold_is_total(s.drop_last(), m);
    }
}

/// Every figure a fold returns lies in the representable range.
pub proof fn lemma_fold_in_range(s: Seq<Transaction>, m: Measure)
    ensures
        fold(s, m) matches Ok(v) ==> in_range(v),
    decreases s.len(),
{
    if s.len() > 0 {
        lemma_fold_in_range(s.drop_last(), m);
    }
}

/// A prefix of a fold that succeeds succeeds too.
proof fn lemma_prefix_ok(s: Seq<Transaction>, m: Measure, n: int)
    requires
        0 <= n <= s.len(),
        fold(s, m) is Ok,
    ensures
        fold(s.subrange(0, n), m) is Ok,
{
    if fold(s.subrange(0, n), m) is Err {
        lemma_fold_stops(s, m, n);
    }
}

/// Overflow safety: when any running sum of a measure over `s` leaves the
/// representable range, the fold fails with an overflow instead of giving a
/// figure.
pub proof fn lemma_overflow_detected(s: Seq<Transaction>, m: Measure, n: int)
    requires
        0 <= n <= s.len(),
        !in_range(total(s.subrange(0, n), m)),
    ensures
        fold(s, m) is Err,
{
    if fold(s, m) is Ok {
        lemma_prefix_ok(s, m, n);
        lemma_fold_in_range(s.subrange(0, n), m);
        lemma_fold_is_total(s.subrange(0, n), m);
    }
}

/// Repeated reads agree: two results of folding a measure over the same
/// entries are identical, so calling a calculator twice on an unchanged
/// ledger gives the same figure or the same error.
pub proof fn lemma_reads_agree(
    s: Seq<Transaction>,
    m: Measure,
    r1: Result<Money, TradeError>,
    r2: Result<Money, TradeError>,
)
    requires
        outcome_matches(r1, fold(s, m)),
        outcome_matches(r2, fold(s, m)),
    ensures
        r1 == r2,
{
    if let (Ok(a), Ok(b)) = (r1, r2) {
        lemma_money_eq(a);
        lemma_money_eq(b);
    }
}

impl Measure {
    /// The sign of entry `t` in this measure.
    pub fn sign(&self, t: &Transaction) -> (r: Sign)
        ensures
            r == sign_of(*self, *t),
    {
        if t.deleted_at.is_some() {
            return Sign::Skip;
        }
        let k = t.category.kind();
        match self {
            Measure::AccountCapital { account_id, currency } => {
                if t.account_id == *account_id && t.currency == *currency {
                    match k.direction() {
                        Direction::Inflow => Sign::Add,
                        Direction::Outflow => Sign::Sub,
                        Direction::Ignored => Sign::Skip,
                    }
                } else {
                    Sign::Skip
                }
            },
            Measure::TradeFunding { trade_id } | Measure::TradeOpened { trade_id }
            | Measure::TradeExits { trade_id } | Measure::TradeTaxes { trade_id }
            | Measure::TradeResult { trade_id } => {
                if t.category.trade_id() == Some(*trade_id) {
                    self.trade_sign(k)
                } else {
                    Sign::Skip
                }
            },
        }
    }

    fn trade_sign(&self, k: CategoryKind) -> (r: Sign)
        ensures
            r == trade_sign(*self, k),
    {
        let exit = k == CategoryKind::CloseSafetyStop || k == CategoryKind::CloseTarget || k
            == CategoryKind::CloseSafetyStopSlippage;
        match self {
            Measure::TradeFunding { .. } => if k == CategoryKind::FundTrade {
                Sign::Add
            } else if k == CategoryKind::PaymentFromTrade {
                Sign::Sub
            } else {
                Sign::Skip
            },
            Measure::TradeOpened { .. } => if k == CategoryKind::OpenTrade {
                Sign::Add
            } else {
                Sign::Skip
            },
            Measure::TradeExits { .. } => if exit {
                Sign::Add
            } else {
                Sign::Skip
            },
            Measure::TradeTaxes { .. } => if k == CategoryKind::PaymentTax {
                Sign::Add
            } else {
                Sign::Skip
            },
            Measure::TradeResult { .. } => if exit || k == CategoryKind::PaymentFromTrade {
                Sign::Add
            } else if k == CategoryKind::FundTrade || k == CategoryKind::FeeOpen || k
                == CategoryKind::FeeClose || k == CategoryKind::PaymentTax {
                Sign::Sub
            } else {
                Sign::Skip
            },
            Measure::AccountCapital { .. } => Sign::Skip,
        }
    }

    /// Folds the measure over `txs` in order with checked arithmetic. The
    /// first step that leaves the range fails the whole fold, naming its
    /// operands; no partial figure is returned.
    pub fn fold(&self, txs: &Vec<Transaction>) -> (r: Result<Money, TradeError>)
        ensures
            outcome_matches(r, fold(txs@, *self)),
    {
        let mut acc = Money::zero();
        let mut i: usize = 0;
        while i < txs.len()
            invariant
                i <= txs@.len(),
                fold(txs@.subrange(0, i as int), *self) == Ok::<int, Overflow>(acc@),
            decreases txs@.len() - i,
        {
            let t = txs[i];
            assert(txs@.subrange(0, i + 1).drop_last() =~= txs@.subrange(0, i as int));
            match self.sign(&t) {
                Sign::Add => match acc.checked_add(&t.amount) {
                    Some(v) => {
                        acc = v;
                    },
                    None => {
                        proof {
                            lemma_fold_stops(txs@, *self, i as int + 1);
                        }
                        return Err(
                            TradeError::ArithmeticOverflow {
                                op: ArithmeticOp::Add,
                                lhs: acc.units(),
                                rhs: t.amount.units(),
                            },
                        );
                    },
                },
                Sign::Sub => match acc.checked_sub(&t.amount) {
                    Some(v) => {
                        acc = v;
                    },
                    None => {
                        proof {
                            lemma_fold_stops(txs@, *self, i as int + 1);
                        }
                        return Err(
                            TradeError::ArithmeticOverflow {
                                op: ArithmeticOp::Sub,
                                lhs: acc.units(),
                                rhs: t.amount.units(),
                            },
                        );
                    },
                },
                Sign::Skip => {},
            }
            i = i + 1;
        }
        assert(txs@.subrange(0, txs@.len() as int) =~= txs@);
        Ok(acc)
    }
}

/// Once a prefix of `s` overflows, the fold of `s` fails the same way.
pub proof fn lemma_fold_stops(s: Seq<Transaction>, m: Measure, n: int)
    requires
        0 <= n <= s.len(),
        fold(s.subrange(0, n), m) is Err,
    ensures
        fold(s, m) == fold(s.subrange(0, n), m),
    decreases s.len() - n,
{
    if n < s.len() {
        assert(s.subrange(0, n + 1).drop_last() =~= s.subrange(0, n));
        lemma_fold_stops(s, m, n + 1);
    } else {
        assert(s.subrange(0, n) =~= s);
    }
}

} // verus!
