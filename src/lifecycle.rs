use vstd::prelude::*;
use crate::account::{account_measure, AccountCapitalBalance};
use crate::calculators::{
    balance_is, balance_result, product, risk_of, RiskCalculator, TradeCapitalFunded,
    TradeCapitalRequired,
};
use crate::category::TransactionCategory;
use crate::clock::now_timestamp;
use crate::ident::new_id;
use crate::error::{TradeError, ValidationError};
use crate::ledger::{batch_error, new_entry, Ledger, Transaction};
use crate::measure::{fold, overflow_error, Measure};
use crate::money::{lemma_money_eq, lemma_money_of, money_of, Money};
use crate::rules::{check_rules, first_violation, lemma_first_violation, violates, Rule};
use crate::trade::{Order, Status, Trade, TradeBalance};

verus! {

broadcast use {lemma_money_of, lemma_money_eq};

/// How a filled trade left the market.
#[derive(Clone, Copy, Debug, PartialEq, Eq, Structural)]
pub enum Exit {
    SafetyStop,
    Target,
    SafetyStopSlippage,
}

/// A requested change of a trade's status, with what the change needs.
#[derive(Clone, Copy, Debug, PartialEq, Eq)]
pub enum Transition {
    /// `New -> Funded`: moves the required capital into the trade.
    Fund,
    /// `Funded -> Submitted`: the broker accepted the entry order.
    Submit { broker_order_id: u128 },
    /// `Submitted -> PartiallyFilled | Filled`, or `PartiallyFilled -> Filled`.
    Fill { partial: bool },
    /// `Filled -> Closed`: an exit order filled, which closes the entry.
    Close { exit: Exit, proceeds: Money, tax: Option<Money>, earnings: Option<Money> },
    /// `New | Funded | Submitted -> Canceled`: returns the funding.
    Cancel,
}

/// When a transition happens, and the ids its ledger entries take, in order.
#[derive(Clone, Copy, Debug, PartialEq, Eq)]
pub struct Stamp {
    pub at: i64,
    pub first_id: u128,
    pub second_id: u128,
    pub third_id: u128,
}

/// The status a transition leads to.
pub open spec fn target_of(t: Transition) -> Status {
    match t {
        Transition::Fund => Status::Funded,
        Transition::Submit { .. } => Status::Submitted,
        Transition::Fill { partial } => if partial {
            Status::PartiallyFilled
        } else {
            Status::Filled
        },
        Transition::Close { .. } => Status::Closed,
        Transition::Cancel => Status::Canceled,
    }
}

/// The edges of the lifecycle.
pub open spec fn legal(from: Status, to: Status) -> bool {
    match (from, to) {
        (Status::New, Status::Funded) => true,
        (Status::Funded, Status::Submitted) => true,
        (Status::Submitted, Status::PartiallyFilled) => true,
        (Status::Submitted, Status::Filled) => true,
        (Status::PartiallyFilled, Status::Filled) => true,
        (Status::Filled, Status::Closed) => true,
        (Status::New, Status::Canceled) => true,
        (Status::Funded, Status::Canceled) => true,
        (Status::Submitted, Status::Canceled) => true,
        _ => false,
    }
}

/// Whether `at` is no earlier than any time already stamped on the order.
pub open spec fn stamped_after(o: Order, at: i64) -> bool {
    &&& at >= o.created_at
    &&& o.submitted_at matches Some(x) ==> at >= x
    &&& o.filled_at matches Some(x) ==> at >= x
}

/// A ledger entry of the trade's account and currency.
pub open spec fn trade_entry(t: Trade, id: u128, at: i64, amount: Money, c: TransactionCategory) -> Transaction {
    new_entry(id, at, t.account_id, t.currency, amount, c)
}

pub open spec fn with_status(t: Trade, s: Status) -> Trade {
    Trade { status: s, ..t }
}

pub open spec fn with_balance(t: Trade, b: TradeBalance) -> Trade {
    Trade { balance: b, ..t }
}

pub open spec fn same_vehicle(t: Trade) -> bool {
    t.entry.trading_vehicle_id == t.safety_stop.trading_vehicle_id
        && t.entry.trading_vehicle_id == t.target.trading_vehicle_id
}

/// The trade after a transition, balance aside, and the entries it appends.
pub type Plan = (Trade, Seq<Transaction>);

pub open spec fn fund_plan(s: Seq<Transaction>, t: Trade, rules: Seq<Rule>, open_risk: int, st: Stamp) -> Result<Plan, TradeError> {
    if !same_vehicle(t) {
        Err(TradeError::Validation(ValidationError::VehicleMismatch))
    } else if t.entry.quantity == 0 {
        Err(TradeError::Validation(ValidationError::ZeroQuantity))
    } else if t.entry.price@ == t.safety_stop.price@ {
        Err(TradeError::Validation(ValidationError::ZeroSpread))
    } else {
        match risk_of(t.entry.price@, t.safety_stop.price@, t.entry.quantity as int) {
            Err(o) => Err(overflow_error(o)),
            Ok(risk) => match first_violation(rules, risk, open_risk) {
                Some(i) => Err(TradeError::RuleViolation { rule_name: rules[i].name }),
                None => match product(t.entry.price@, t.entry.quantity as int) {
                    Err(o) => Err(overflow_error(o)),
                    Ok(req) => match fold(s, account_measure(t.account_id, t.currency)) {
                        Err(o) => Err(overflow_error(o)),
                        Ok(bal) => if bal < req {
                            Err(TradeError::Validation(ValidationError::InsufficientBalance))
                        } else {
                            Ok(
                                (
                                    with_status(t, Status::Funded),
                                    seq![trade_entry(t, st.first_id, st.at, money_of(req), TransactionCategory::FundTrade(t.id))],
                                ),
                            )
                        },
                    },
                },
            },
        }
    }
}

pub open spec fn submit_plan(s: Seq<Transaction>, t: Trade, broker_order_id: u128, st: Stamp) -> Result<Plan, TradeError> {
    if !stamped_after(t.entry, st.at) {
        Err(TradeError::Validation(ValidationError::TimeOrder))
    } else {
        match product(t.entry.price@, t.entry.quantity as int) {
            Err(o) => Err(overflow_error(o)),
            Ok(req) => match fold(s, Measure::TradeFunding { trade_id: t.id }) {
                Err(o) => Err(overflow_error(o)),
                Ok(f) => if f < req {
                    Err(TradeError::Validation(ValidationError::InsufficientFunding))
                } else {
                    Ok(
                        (
                            Trade {
                                status: Status::Submitted,
                                entry: Order {
                                    submitted_at: Some(st.at),
                                    broker_order_id: Some(broker_order_id),
                                    ..t.entry
                                },
                                ..t
                            },
                            seq![trade_entry(t, st.first_id, st.at, money_of(req), TransactionCategory::OpenTrade(t.id))],
                        ),
                    )
                },
            },
        }
    }
}

pub open spec fn fill_plan(t: Trade, partial: bool, st: Stamp) -> Result<Plan, TradeError> {
    if !stamped_after(t.entry, st.at) {
        Err(TradeError::Validation(ValidationError::TimeOrder))
    } else {
        Ok(
            (
                Trade {
                    status: if partial {
                        Status::PartiallyFilled
                    } else {
                        Status::Filled
                    },
                    entry: Order { filled_at: Some(st.at), ..t.entry },
                    ..t
                },
                Seq::empty(),
            ),
        )
    }
}

pub open spec fn close_category(exit: Exit, trade_id: u128) -> TransactionCategory {
    match exit {
        Exit::SafetyStop => TransactionCategory::CloseSafetyStop(trade_id),
        Exit::Target => TransactionCategory::CloseTarget(trade_id),
        Exit::SafetyStopSlippage => TransactionCategory::CloseSafetyStopSlippage(trade_id),
    }
}

/// The entries a close appends: the exit, then the tax and the earnings
/// payments where there are any.
pub open spec fn close_entries(t: Trade, exit: Exit, proceeds: Money, tax: Option<Money>, earnings: Option<Money>, st: Stamp) -> Seq<Transaction> {
    seq![trade_entry(t, st.first_id, st.at, proceeds, close_category(exit, t.id))] + match tax {
        Some(x) => seq![trade_entry(t, st.second_id, st.at, x, TransactionCategory::PaymentTax(t.id))],
        None => Seq::empty(),
    } + match earnings {
        Some(y) => seq![trade_entry(t, st.third_id, st.at, y, TransactionCategory::PaymentEarnings(t.id))],
        None => Seq::empty(),
    }
}

pub open spec fn close_plan(t: Trade, exit: Exit, proceeds: Money, tax: Option<Money>, earnings: Option<Money>, st: Stamp) -> Result<Plan, TradeError> {
    let order = if exit == Exit::Target {
        t.target
    } else {
        t.safety_stop
    };
    if !stamped_after(order, st.at) {
        Err(TradeError::Validation(ValidationError::TimeOrder))
    } else {
        let filled = Order { filled_at: Some(st.at), ..order };
        let entry = Order { closed_at: Some(st.at), ..t.entry };
        Ok(
            (
                if exit == Exit::Target {
                    Trade { status: Status::Closed, entry, target: filled, ..t }
                } else {
                    Trade { status: Status::Closed, entry, safety_stop: filled, ..t }
                },
                close_entries(t, exit, proceeds, tax, earnings, st),
            ),
        )
    }
}

pub open spec fn cancel_plan(s: Seq<Transaction>, t: Trade, st: Stamp) -> Result<Plan, TradeError> {
    match fold(s, Measure::TradeFunding { trade_id: t.id }) {
        Err(o) => Err(overflow_error(o)),
        Ok(f) => Ok(
            (
                with_status(t, Status::Canceled),
                if f > 0 {
                    seq![trade_entry(t, st.first_id, st.at, money_of(f), TransactionCategory::PaymentFromTrade(t.id))]
                } else {
                    Seq::empty()
                },
            ),
        ),
    }
}

/// What a transition decides, before its entries are checked and appended:
/// an illegal edge is refused first, then each transition's own checks.
pub open spec fn plan(s: Seq<Transaction>, t: Trade, tr: Transition, rules: Seq<Rule>, open_risk: int, st: Stamp) -> Result<Plan, TradeError> {
    if !legal(t.status, target_of(tr)) {
        Err(TradeError::IllegalTransition { from: t.status, to: target_of(tr) })
    } else {
        match tr {
            Transition::Fund => fund_plan(s, t, rules, open_risk, st),
            Transition::Submit { broker_order_id } => submit_plan(s, t, broker_order_id, st),
            Transition::Fill { partial } => fill_plan(t, partial, st),
            Transition::Close { exit, proceeds, tax, earnings } => close_plan(t, exit, proceeds, tax, earnings, st),
            Transition::Cancel => cancel_plan(s, t, st),
        }
    }
}

/// The outcome of committing a plan: the entries are appended all or none,
/// then the trade's balance is recomputed from the new ledger; any failure
/// leaves ledger and trade as they were.
pub open spec fn committed(
    p: Result<Plan, TradeError>,
    s0: Seq<Transaction>,
    t0: Trade,
    r: Result<(), TradeError>,
    s1: Seq<Transaction>,
    t1: Trade,
) -> bool {
    match p {
        Err(e) => r == Err::<(), TradeError>(e) && s1 == s0 && t1 == t0,
        Ok((next, new)) => match batch_error(s0, new) {
            Some(e) => r == Err::<(), TradeError>(TradeError::Validation(e)) && s1 == s0 && t1 == t0,
            None => match balance_result(s0 + new, next.id, next.status) {
                Err(o) => r == Err::<(), TradeError>(overflow_error(o)) && s1 == s0 && t1 == t0,
                Ok(v) => r is Ok && s1 == s0 + new && t1 == with_balance(next, t1.balance)
                    && balance_is(t1.balance, v),
            },
        },
    }
}

/// A violated rule refuses funding: when a new trade of sound shape has a
/// computable risk and some active rule forbids it, funding fails naming the
/// violated rule evaluated first (lowest priority value), before any entry
/// is planned, so `transition` leaves ledger and trade unchanged.
pub proof fn lemma_rule_refuses_funding(
    s: Seq<Transaction>,
    t: Trade,
    rules: Seq<Rule>,
    open_risk: int,
    st: Stamp,
    j: int,
)
    requires
        t.status == Status::New,
        same_vehicle(t),
        t.entry.quantity > 0,
        t.entry.price@ != t.safety_stop.price@,
        risk_of(t.entry.price@, t.safety_stop.price@, t.entry.quantity as int) is Ok,
        0 <= j < rules.len(),
        violates(
            rules[j],
            risk_of(t.entry.price@, t.safety_stop.price@, t.entry.quantity as int)->Ok_0,
            open_risk,
        ),
    ensures
        exists|i: int|
            0 <= i < rules.len() && plan(s, t, Transition::Fund, rules, open_risk, st) == Err::<
                Plan,
                TradeError,
            >(TradeError::RuleViolation { rule_name: #[trigger] rules[i].name }) && violates(
                rules[i],
                risk_of(t.entry.price@, t.safety_stop.price@, t.entry.quantity as int)->Ok_0,
                open_risk,
            ) && forall|k: int|
                0 <= k < rules.len() && violates(
                    #[trigger] rules[k],
                    risk_of(t.entry.price@, t.safety_stop.price@, t.entry.quantity as int)->Ok_0,
                    open_risk,
                ) ==> rules[i].priority <= rules[k].priority,
{
    let risk = risk_of(t.entry.price@, t.safety_stop.price@, t.entry.quantity as int)->Ok_0;
    lemma_first_violation(rules, rules.len() as int, risk, open_risk);
    assert(first_violation(rules, risk, open_risk) is Some) by {
        assert(violates(rules[j], risk, open_risk));
    }
    let i = first_violation(rules, risk, open_risk)->Some_0;
    assert(legal(t.status, target_of(Transition::Fund)));
    assert(fund_plan(s, t, rules, open_risk, st) == Err::<Plan, TradeError>(
        TradeError::RuleViolation { rule_name: rules[i].name },
    ));
    assert(plan(s, t, Transition::Fund, rules, open_risk, st) == Err::<Plan, TradeError>(
        TradeError::RuleViolation { rule_name: rules[i].name },
    ));
}

/// Whether an exec plan is the spec plan.
pub open spec fn plan_matches(r: Result<(Trade, Vec<Transaction>), TradeError>, p: Result<Plan, TradeError>) -> bool {
    match p {
        Err(e) => r == Err::<(Trade, Vec<Transaction>), TradeError>(e),
        Ok((next, new)) => r matches Ok((n, v)) && n == next && v@ == new,
    }
}

/// The trade lifecycle: the legal status changes and the ledger entries
/// each one makes.
pub struct TradeLifecycle;

impl TradeLifecycle {
    /// Whether the lifecycle has an edge from `from` to `to`.
    pub fn is_legal(from: Status, to: Status) -> (r: bool)
        ensures
            r == legal(from, to),
    {
        match (from, to) {
            (Status::New, Status::Funded) => true,
            (Status::Funded, Status::Submitted) => true,
            (Status::Submitted, Status::PartiallyFilled) => true,
            (Status::Submitted, Status::Filled) => true,
            (Status::PartiallyFilled, Status::Filled) => true,
            (Status::Filled, Status::Closed) => true,
            (Status::New, Status::Canceled) => true,
            (Status::Funded, Status::Canceled) => true,
            (Status::Submitted, Status::Canceled) => true,
            _ => false,
        }
    }

    /// The status a transition leads to.
    pub fn target(tr: &Transition) -> (r: Status)
        ensures
            r == target_of(*tr),
    {
        match tr {
            Transition::Fund => Status::Funded,
            Transition::Submit { .. } => Status::Submitted,
            Transition::Fill { partial } => if *partial {
                Status::PartiallyFilled
            } else {
                Status::Filled
            },
            Transition::Close { .. } => Status::Closed,
            Transition::Cancel => Status::Canceled,
        }
    }

    fn entry(t: &Trade, id: u128, at: i64, amount: Money, c: TransactionCategory) -> (r: Transaction)
        ensures
            r == trade_entry(*t, id, at, amount, c),
    {
        Transaction {
            id,
            account_id: t.account_id,
            currency: t.currency,
            amount,
            category: c,
            created_at: at,
            deleted_at: None,
        }
    }

    fn stamped_after(o: &Order, at: i64) -> (r: bool)
        ensures
            r == stamped_after(*o, at),
    {
        if at < o.created_at {
            return false;
        }
        if let Some(x) = o.submitted_at {
            if at < x {
                return false;
            }
        }
        if let Some(x) = o.filled_at {
            if at < x {
                return false;
            }
        }
        true
    }

    fn fund_plan(ledger: &Ledger, t: &Trade, rules: &Vec<Rule>, open_risk: &Money, st: &Stamp) -> (r: Result<
        (Trade, Vec<Transaction>),
        TradeError,
    >)
        ensures
            plan_matches(r, fund_plan(ledger@, *t, rules@, open_risk@, *st)),
    {
        if !(t.entry.trading_vehicle_id == t.safety_stop.trading_vehicle_id
            && t.entry.trading_vehicle_id == t.target.trading_vehicle_id) {
            return Err(TradeError::Validation(ValidationError::VehicleMismatch));
        }
        if t.entry.quantity == 0 {
            return Err(TradeError::Validation(ValidationError::ZeroQuantity));
        }
        if t.entry.price.units() == t.safety_stop.price.units() {
            return Err(TradeError::Validation(ValidationError::ZeroSpread));
        }
        let risk = RiskCalculator::calculate(&t.entry.price, &t.safety_stop.price, t.entry.quantity)?;
        check_rules(rules, &risk, open_risk)?;
        let required = TradeCapitalRequired::calculate(t)?;
        let balance = AccountCapitalBalance::calculate(t.account_id, &t.currency, ledger)?;
        if balance.units() < required.units() {
            return Err(TradeError::Validation(ValidationError::InsufficientBalance));
        }
        let mut new = Vec::new();
        new.push(Self::entry(t, st.first_id, st.at, required, TransactionCategory::FundTrade(t.id)));
        assert(new@ =~= seq![trade_entry(*t, st.first_id, st.at, money_of(required@), TransactionCategory::FundTrade(t.id))]);
        Ok((Trade { status: Status::Funded, ..*t }, new))
    }

    fn submit_plan(ledger: &Ledger, t: &Trade, broker_order_id: u128, st: &Stamp) -> (r: Result<
        (Trade, Vec<Transaction>),
        TradeError,
    >)
        ensures
            plan_matches(r, submit_plan(ledger@, *t, broker_order_id, *st)),
    {
        if !Self::stamped_after(&t.entry, st.at) {
            return Err(TradeError::Validation(ValidationError::TimeOrder));
        }
        let required = TradeCapitalRequired::calculate(t)?;
        let funded = TradeCapitalFunded::calculate(t.id, ledger)?;
        if funded.units() < required.units() {
            return Err(TradeError::Validation(ValidationError::InsufficientFunding));
        }
        let mut new = Vec::new();
        new.push(Self::entry(t, st.first_id, st.at, required, TransactionCategory::OpenTrade(t.id)));
        assert(new@ =~= seq![trade_entry(*t, st.first_id, st.at, money_of(required@), TransactionCategory::OpenTrade(t.id))]);
        let entry = Order { submitted_at: Some(st.at), broker_order_id: Some(broker_order_id), ..t.entry };
        Ok((Trade { status: Status::Submitted, entry, ..*t }, new))
    }

    fn fill_plan(t: &Trade, partial: bool, st: &Stamp) -> (r: Result<(Trade, Vec<Transaction>), TradeError>)
        ensures
            plan_matches(r, fill_plan(*t, partial, *st)),
    {
        if !Self::stamped_after(&t.entry, st.at) {
            return Err(TradeError::Validation(ValidationError::TimeOrder));
        }
        let status = if partial {
            Status::PartiallyFilled
        } else {
            Status::Filled
        };
        let entry = Order { filled_at: Some(st.at), ..t.entry };
        let new: Vec<Transaction> = Vec::new();
        assert(new@ =~= Seq::<Transaction>::empty());
        Ok((Trade { status, entry, ..*t }, new))
    }

    fn close_plan(
        t: &Trade,
        exit: Exit,
        proceeds: Money,
        tax: Option<Money>,
        earnings: Option<Money>,
        st: &Stamp,
    ) -> (r: Result<(Trade, Vec<Transaction>), TradeError>)
        ensures
            plan_matches(r, close_plan(*t, exit, proceeds, tax, earnings, *st)),
    {
        let order = if exit == Exit::Target {
            t.target
        } else {
            t.safety_stop
        };
        if !Self::stamped_after(&order, st.at) {
            return Err(TradeError::Validation(ValidationError::TimeOrder));
        }
        let filled = Order { filled_at: Some(st.at), ..order };
        let category = match exit {
            Exit::SafetyStop => TransactionCategory::CloseSafetyStop(t.id),
            Exit::Target => TransactionCategory::CloseTarget(t.id),
            Exit::SafetyStopSlippage => TransactionCategory::CloseSafetyStopSlippage(t.id),
        };
        let mut new = Vec::new();
        new.push(Self::entry(t, st.first_id, st.at, proceeds, category));
        if let Some(x) = tax {
            new.push(Self::entry(t, st.second_id, st.at, x, TransactionCategory::PaymentTax(t.id)));
        }
        if let Some(y) = earnings {
            new.push(Self::entry(t, st.third_id, st.at, y, TransactionCategory::PaymentEarnings(t.id)));
        }
        assert(new@ =~= close_entries(*t, exit, proceeds, tax, earnings, *st));
        let entry = Order { closed_at: Some(st.at), ..t.entry };
        let next = if exit == Exit::Target {
            Trade { status: Status::Closed, entry, target: filled, ..*t }
        } else {
            Trade { status: Status::Closed, entry, safety_stop: filled, ..*t }
        };
        Ok((next, new))
    }

    fn cancel_plan(ledger: &Ledger, t: &Trade, st: &Stamp) -> (r: Result<(Trade, Vec<Transaction>), TradeError>)
        ensures
            plan_matches(r, cancel_plan(ledger@, *t, *st)),
    {
        let funded = TradeCapitalFunded::calculate(t.id, ledger)?;
        let mut new = Vec::new();
        if funded.units() > 0 {
            new.push(Self::entry(t, st.first_id, st.at, funded, TransactionCategory::PaymentFromTrade(t.id)));
            assert(new@ =~= seq![trade_entry(*t, st.first_id, st.at, money_of(funded@), TransactionCategory::PaymentFromTrade(t.id))]);
        } else {
            assert(new@ =~= Seq::<Transaction>::empty());
        }
        Ok((Trade { status: Status::Canceled, ..*t }, new))
    }

    /// Decides a transition without touching anything: the trade after it,
    /// balance aside, and the entries it would append.
    pub fn plan(
        ledger: &Ledger,
        trade: &Trade,
        tr: &Transition,
        rules: &Vec<Rule>,
        open_risk: &Money,
        stamp: &Stamp,
    ) -> (r: Result<(Trade, Vec<Transaction>), TradeError>)
        ensures
            plan_matches(r, plan(ledger@, *trade, *tr, rules@, open_risk@, *stamp)),
    {
        let to = Self::target(tr);
        if !Self::is_legal(trade.status, to) {
            return Err(TradeError::IllegalTransition { from: trade.status, to });
        }
        match tr {
            Transition::Fund => Self::fund_plan(ledger, trade, rules, open_risk, stamp),
            Transition::Submit { broker_order_id } => Self::submit_plan(ledger, trade, *broker_order_id, stamp),
            Transition::Fill { partial } => Self::fill_plan(trade, *partial, stamp),
            Transition::Close { exit, proceeds, tax, earnings } => Self::close_plan(
                trade,
                *exit,
                *proceeds,
                *tax,
                *earnings,
                stamp,
            ),
            Transition::Cancel => Self::cancel_plan(ledger, trade, stamp),
        }
    }

    fn commit(ledger: &mut Ledger, trade: &mut Trade, next: Trade, new: &Vec<Transaction>) -> (r: Result<(), TradeError>)
        ensures
            committed(
                Ok::<Plan, TradeError>((next, new@)),
                old(ledger)@,
                *old(trade),
                r,
                final(ledger)@,
                *final(trade),
            ),
    {
        let len = ledger.len();
        ledger.append_all(new)?;
        match TradeBalance::calculate(next.id, next.status, ledger) {
            Ok(b) => {
                *trade = Trade { balance: b, ..next };
                Ok(())
            },
            Err(e) => {
                ledger.rollback(len);
                assert(ledger@ =~= old(ledger)@);
                Err(e)
            },
        }
    }

    /// Performs a transition: refuses one that is not an edge of the
    /// lifecycle, runs its checks, appends its entries and recomputes the
    /// trade's balance. It is atomic: on any failure the ledger and the trade
    /// are left exactly as they were.
    pub fn transition(
        ledger: &mut Ledger,
        trade: &mut Trade,
        tr: &Transition,
        rules: &Vec<Rule>,
        open_risk: &Money,
        stamp: &Stamp,
    ) -> (r: Result<(), TradeError>)
        ensures
            committed(
                plan(old(ledger)@, *old(trade), *tr, rules@, open_risk@, *stamp),
                old(ledger)@,
                *old(trade),
                r,
                final(ledger)@,
                *final(trade),
            ),
            r is Err ==> final(ledger)@ == old(ledger)@ && *final(trade) == *old(trade),
            r is Ok ==> legal(old(trade).status, final(trade).status) && final(trade).status == target_of(*tr),
    {
        match Self::plan(ledger, trade, tr, rules, open_risk, stamp) {
            Err(e) => Err(e),
            Ok((next, new)) => Self::commit(ledger, trade, next, &new),
        }
    }

    /// `transition` stamped with the current time and fresh random ids.
    pub fn advance(
        ledger: &mut Ledger,
        trade: &mut Trade,
        tr: &Transition,
        rules: &Vec<Rule>,
        open_risk: &Money,
    ) -> (r: Result<(), TradeError>)
        ensures
            exists|st: Stamp|
                committed(
                    #[trigger] plan(old(ledger)@, *old(trade), *tr, rules@, open_risk@, st),
                    old(ledger)@,
                    *old(trade),
                    r,
                    final(ledger)@,
                    *final(trade),
                ),
            r is Err ==> final(ledger)@ == old(ledger)@ && *final(trade) == *old(trade),
            r is Ok ==> legal(old(trade).status, final(trade).status) && final(trade).status == target_of(*tr),
    {
        let stamp = Stamp { at: now_timestamp(), first_id: new_id(), second_id: new_id(), third_id: new_id() };
        Self::transition(ledger, trade, tr, rules, open_risk, &stamp)
    }

    /// The broker id of the target order to modify. Fails when the trade is
    /// not of the account, or its target was never submitted.
    pub fn target_to_modify(trade: &Trade, account_id: u128) -> (r: Result<u128, TradeError>)
        ensures
            trade.account_id != account_id ==> r == Err::<u128, TradeError>(
                TradeError::Validation(ValidationError::AccountMismatch),
            ),
            trade.account_id == account_id ==> match trade.target.broker_order_id {
                None => r == Err::<u128, TradeError>(
                    TradeError::Validation(ValidationError::MissingBrokerOrder),
                ),
                Some(b) => r == Ok::<u128, TradeError>(b),
            },
    {
        if trade.account_id != account_id {
            return Err(TradeError::Validation(ValidationError::AccountMismatch));
        }
        match trade.target.broker_order_id {
            None => Err(TradeError::Validation(ValidationError::MissingBrokerOrder)),
            Some(b) => Ok(b),
        }
    }

    /// Records a modification the broker accepted: the target takes the new
    /// price and the broker's new order id; nothing else changes.
    pub fn modified_target(trade: &mut Trade, price: Money, broker_order_id: u128)
        ensures
            *final(trade) == (Trade {
                target: Order { price, broker_order_id: Some(broker_order_id), ..old(trade).target },
                ..*old(trade)
            }),
    {
        trade.target = Order { price, broker_order_id: Some(broker_order_id), ..trade.target };
    }
}

} // verus!
