use trust_core::{
    AccountCapitalBalance, Currency, Exit, Ledger, Money, Order, OrderAction, OrderCategory,
    RiskCalculator, Rule, RuleLevel, Stamp, Status, Trade, TradeBalance, TradeCapitalFunded,
    TradeError, TradeLifecycle, TradePerformance, TransactionCategory, Transition,
    ValidationError,
};

const ACCOUNT: u128 = 500;
const TRADE: u128 = 42;

fn order(id: u128, price: i64, quantity: u64) -> Order {
    Order {
        id,
        trading_vehicle_id: 7,
        quantity,
        price: Money::whole(price),
        action: OrderAction::Buy,
        category: OrderCategory::Limit,
        created_at: 0,
        submitted_at: None,
        filled_at: None,
        closed_at: None,
        broker_order_id: None,
    }
}

fn new_trade(entry: i64, stop: i64, target: i64, quantity: u64) -> Trade {
    let zero = Money::zero();
    Trade {
        id: TRADE,
        account_id: ACCOUNT,
        currency: Currency::USD,
        status: Status::New,
        entry: order(1, entry, quantity),
        safety_stop: order(2, stop, quantity),
        target: order(3, target, quantity),
        balance: TradeBalance {
            funding: zero,
            capital_in_market: zero,
            capital_out_of_market: zero,
            taxed: zero,
            total_performance: zero,
        },
    }
}

fn stamp(n: u128) -> Stamp {
    Stamp { at: 10 + n as i64, first_id: n * 10 + 1, second_id: n * 10 + 2, third_id: n * 10 + 3 }
}

fn deposit(ledger: &mut Ledger, whole: i64) {
    ledger
        .append(9000 + ledger.len() as u128, 0, ACCOUNT, None, Currency::USD, Money::whole(whole), TransactionCategory::Deposit)
        .unwrap();
}

fn step(ledger: &mut Ledger, trade: &mut Trade, tr: Transition, n: u128) -> Result<(), TradeError> {
    TradeLifecycle::transition(ledger, trade, &tr, &Vec::new(), &Money::zero(), &stamp(n))
}

fn balance(ledger: &Ledger) -> Money {
    AccountCapitalBalance::calculate(ACCOUNT, &Currency::USD, ledger).unwrap()
}

#[test]
fn deposit_fund_and_open_reduce_balance_by_the_open() {
    let mut ledger = Ledger::new();
    deposit(&mut ledger, 1000);
    let mut trade = new_trade(10, 9, 15, 10);
    step(&mut ledger, &mut trade, Transition::Fund, 1).unwrap();
    assert_eq!(trade.status, Status::Funded);
    assert_eq!(TradeCapitalFunded::calculate(TRADE, &ledger).unwrap(), Money::whole(100));
    assert_eq!(trade.balance.funding, Money::whole(100));
    assert_eq!(balance(&ledger), Money::whole(1000));
    step(&mut ledger, &mut trade, Transition::Submit { broker_order_id: 77 }, 2).unwrap();
    assert_eq!(trade.status, Status::Submitted);
    assert_eq!(trade.entry.broker_order_id, Some(77));
    assert_eq!(trade.entry.submitted_at, Some(12));
    assert_eq!(balance(&ledger), Money::whole(900));
    assert_eq!(TradeCapitalFunded::calculate(TRADE, &ledger).unwrap(), Money::whole(100));
    assert_eq!(trade.balance.capital_in_market, Money::whole(100));
}

#[test]
fn close_via_target_gives_exit_minus_funding_fees_and_taxes() {
    let mut ledger = Ledger::new();
    deposit(&mut ledger, 1000);
    let mut trade = new_trade(10, 9, 15, 10);
    step(&mut ledger, &mut trade, Transition::Fund, 1).unwrap();
    step(&mut ledger, &mut trade, Transition::Submit { broker_order_id: 77 }, 2).unwrap();
    ledger
        .append(600, 13, ACCOUNT, Some(TRADE), Currency::USD, Money::whole(1), TransactionCategory::FeeOpen(TRADE))
        .unwrap();
    step(&mut ledger, &mut trade, Transition::Fill { partial: false }, 3).unwrap();
    assert_eq!(trade.status, Status::Filled);
    let close = Transition::Close {
        exit: Exit::Target,
        proceeds: Money::whole(150),
        tax: Some(Money::whole(5)),
        earnings: None,
    };
    step(&mut ledger, &mut trade, close, 4).unwrap();
    assert_eq!(trade.status, Status::Closed);
    assert_eq!(trade.target.filled_at, Some(14));
    assert_eq!(trade.entry.closed_at, Some(14));
    let performance = TradePerformance::calculate(&trade, &ledger).unwrap();
    assert_eq!(performance, Money::whole(150 - 100 - 1 - 5));
    assert_eq!(trade.balance.total_performance, performance);
    assert_eq!(trade.balance.capital_out_of_market, Money::whole(150));
    assert_eq!(trade.balance.taxed, Money::whole(5));
    assert_eq!(trade.balance.capital_in_market, Money::zero());
    assert_eq!(balance(&ledger), Money::whole(1000 - 100 - 1 + 150));
}

#[test]
fn close_without_fees_or_taxes_gives_exit_minus_funding() {
    let mut ledger = Ledger::new();
    deposit(&mut ledger, 1000);
    let mut trade = new_trade(10, 9, 15, 10);
    step(&mut ledger, &mut trade, Transition::Fund, 1).unwrap();
    step(&mut ledger, &mut trade, Transition::Submit { broker_order_id: 77 }, 2).unwrap();
    step(&mut ledger, &mut trade, Transition::Fill { partial: true }, 3).unwrap();
    assert_eq!(trade.status, Status::PartiallyFilled);
    step(&mut ledger, &mut trade, Transition::Fill { partial: false }, 4).unwrap();
    let close = Transition::Close { exit: Exit::Target, proceeds: Money::whole(150), tax: None, earnings: None };
    step(&mut ledger, &mut trade, close, 5).unwrap();
    assert_eq!(TradePerformance::calculate(&trade, &ledger).unwrap(), Money::whole(50));
}

#[test]
fn funded_to_closed_is_illegal_and_changes_nothing() {
    let mut ledger = Ledger::new();
    deposit(&mut ledger, 1000);
    let mut trade = new_trade(10, 9, 15, 10);
    step(&mut ledger, &mut trade, Transition::Fund, 1).unwrap();
    let before_len = ledger.len();
    let before = trade;
    let close = Transition::Close { exit: Exit::Target, proceeds: Money::whole(150), tax: None, earnings: None };
    let r = step(&mut ledger, &mut trade, close, 2);
    assert_eq!(r, Err(TradeError::IllegalTransition { from: Status::Funded, to: Status::Closed }));
    assert_eq!(ledger.len(), before_len);
    assert_eq!(trade, before);
}

#[test]
fn risk_of_entry_100_stop_90_quantity_10_is_100() {
    let risk = RiskCalculator::calculate(&Money::whole(100), &Money::whole(90), 10).unwrap();
    assert_eq!(risk, Money::whole(100));
    let short = RiskCalculator::calculate(&Money::whole(90), &Money::whole(100), 10).unwrap();
    assert_eq!(short, Money::whole(100));
}

fn rule(name: &str, priority: u32, level: RuleLevel) -> Rule {
    Rule { name: name.to_string(), description: String::new(), priority, level, active: true }
}

#[test]
fn rule_capping_risk_at_50_refuses_funding_and_changes_nothing() {
    let mut ledger = Ledger::new();
    deposit(&mut ledger, 100000);
    let mut trade = new_trade(100, 90, 120, 10);
    let rules = vec![rule("max risk", 1, RuleLevel::MaxRiskPerTrade(Money::whole(50)))];
    let before_len = ledger.len();
    let before = trade;
    let r = TradeLifecycle::transition(&mut ledger, &mut trade, &Transition::Fund, &rules, &Money::zero(), &stamp(1));
    assert_eq!(r, Err(TradeError::RuleViolation { rule_name: "max risk".to_string() }));
    assert_eq!(ledger.len(), before_len);
    assert_eq!(trade, before);
}

#[test]
fn first_violated_rule_by_priority_is_reported() {
    let rules = vec![
        rule("second", 5, RuleLevel::MaxRiskPerTrade(Money::whole(10))),
        rule("open", 2, RuleLevel::MaxOpenRisk(Money::whole(150))),
        rule("tie later", 2, RuleLevel::MaxRiskPerTrade(Money::whole(10))),
        Rule { active: false, ..rule("inactive", 0, RuleLevel::MaxRiskPerTrade(Money::whole(1))) },
    ];
    let r = trust_core::check_rules(&rules, &Money::whole(100), &Money::whole(60));
    assert_eq!(r, Err(TradeError::RuleViolation { rule_name: "open".to_string() }));
    let r = trust_core::check_rules(&rules, &Money::whole(100), &Money::whole(0));
    assert_eq!(r, Err(TradeError::RuleViolation { rule_name: "tie later".to_string() }));
    let mut deactivated = rules.clone();
    deactivated[1].make_inactive();
    deactivated[2].make_inactive();
    assert!(!deactivated[1].active);
    let r = trust_core::check_rules(&deactivated, &Money::whole(100), &Money::whole(60));
    assert_eq!(r, Err(TradeError::RuleViolation { rule_name: "second".to_string() }));
    let loose = vec![rule("loose", 1, RuleLevel::MaxRiskPerTrade(Money::whole(100)))];
    assert_eq!(trust_core::check_rules(&loose, &Money::whole(100), &Money::whole(0)), Ok(()));
}

#[test]
fn funding_needs_enough_account_capital() {
    let mut ledger = Ledger::new();
    deposit(&mut ledger, 50);
    let mut trade = new_trade(10, 9, 15, 10);
    let r = step(&mut ledger, &mut trade, Transition::Fund, 1);
    assert_eq!(r, Err(TradeError::Validation(ValidationError::InsufficientBalance)));
    assert_eq!(trade.status, Status::New);
}

#[test]
fn funding_checks_the_trade_shape() {
    let mut ledger = Ledger::new();
    deposit(&mut ledger, 1000);
    let mut flat = new_trade(10, 10, 15, 10);
    assert_eq!(step(&mut ledger, &mut flat, Transition::Fund, 1), Err(TradeError::Validation(ValidationError::ZeroSpread)));
    let mut empty = new_trade(10, 9, 15, 0);
    assert_eq!(step(&mut ledger, &mut empty, Transition::Fund, 1), Err(TradeError::Validation(ValidationError::ZeroQuantity)));
    let mut mixed = new_trade(10, 9, 15, 10);
    mixed.target.trading_vehicle_id = 8;
    assert_eq!(step(&mut ledger, &mut mixed, Transition::Fund, 1), Err(TradeError::Validation(ValidationError::VehicleMismatch)));
}

#[test]
fn submit_needs_enough_funding() {
    let mut ledger = Ledger::new();
    let mut trade = new_trade(10, 9, 15, 10);
    trade.status = Status::Funded;
    let r = step(&mut ledger, &mut trade, Transition::Submit { broker_order_id: 1 }, 1);
    assert_eq!(r, Err(TradeError::Validation(ValidationError::InsufficientFunding)));
    assert_eq!(ledger.len(), 0);
}

#[test]
fn taken_entry_id_refuses_the_transition() {
    let mut ledger = Ledger::new();
    deposit(&mut ledger, 1000);
    ledger
        .append(11, 0, ACCOUNT, None, Currency::USD, Money::whole(1), TransactionCategory::Deposit)
        .unwrap();
    let mut trade = new_trade(10, 9, 15, 10);
    let r = step(&mut ledger, &mut trade, Transition::Fund, 1);
    assert_eq!(r, Err(TradeError::Validation(ValidationError::DuplicateId)));
    assert_eq!(ledger.len(), 2);
    assert_eq!(trade.status, Status::New);
}

#[test]
fn cancel_returns_the_funding() {
    let mut ledger = Ledger::new();
    deposit(&mut ledger, 1000);
    let mut trade = new_trade(10, 9, 15, 10);
    step(&mut ledger, &mut trade, Transition::Fund, 1).unwrap();
    step(&mut ledger, &mut trade, Transition::Cancel, 2).unwrap();
    assert_eq!(trade.status, Status::Canceled);
    assert_eq!(ledger.entries()[2].category, TransactionCategory::PaymentFromTrade(TRADE));
    assert_eq!(ledger.entries()[2].amount, Money::whole(100));
    assert_eq!(TradeCapitalFunded::calculate(TRADE, &ledger).unwrap(), Money::zero());
    let mut fresh = new_trade(10, 9, 15, 10);
    let len = ledger.len();
    step(&mut ledger, &mut fresh, Transition::Cancel, 3).unwrap();
    assert_eq!(ledger.len(), len);
    assert_eq!(step(&mut ledger, &mut trade, Transition::Cancel, 4), Err(TradeError::IllegalTransition { from: Status::Canceled, to: Status::Canceled }));
}

#[test]
fn fill_before_submission_time_is_refused() {
    let mut ledger = Ledger::new();
    let mut trade = new_trade(10, 9, 15, 10);
    trade.status = Status::Submitted;
    trade.entry.submitted_at = Some(100);
    let r = step(&mut ledger, &mut trade, Transition::Fill { partial: false }, 1);
    assert_eq!(r, Err(TradeError::Validation(ValidationError::TimeOrder)));
}

#[test]
fn close_appends_exit_tax_and_earnings_entries() {
    let mut ledger = Ledger::new();
    let mut trade = new_trade(10, 9, 15, 10);
    trade.status = Status::Filled;
    let close = Transition::Close {
        exit: Exit::SafetyStopSlippage,
        proceeds: Money::whole(80),
        tax: Some(Money::whole(2)),
        earnings: Some(Money::whole(3)),
    };
    step(&mut ledger, &mut trade, close, 1).unwrap();
    let e = ledger.entries();
    assert_eq!(e.len(), 3);
    assert_eq!(e[0].category, TransactionCategory::CloseSafetyStopSlippage(TRADE));
    assert_eq!(e[0].id, 11);
    assert_eq!(e[1].category, TransactionCategory::PaymentTax(TRADE));
    assert_eq!(e[1].id, 12);
    assert_eq!(e[2].category, TransactionCategory::PaymentEarnings(TRADE));
    assert_eq!(e[2].amount, Money::whole(3));
    assert_eq!(trade.safety_stop.filled_at, Some(11));
}

#[test]
fn close_with_negative_proceeds_is_refused() {
    let mut ledger = Ledger::new();
    let mut trade = new_trade(10, 9, 15, 10);
    trade.status = Status::Filled;
    let close = Transition::Close { exit: Exit::SafetyStop, proceeds: Money::whole(-1), tax: None, earnings: None };
    assert_eq!(step(&mut ledger, &mut trade, close, 1), Err(TradeError::Validation(ValidationError::NegativeAmount)));
    assert_eq!(trade.status, Status::Filled);
}

#[test]
fn performance_of_an_open_trade_is_invalid() {
    let ledger = Ledger::new();
    let trade = new_trade(10, 9, 15, 10);
    assert_eq!(TradePerformance::calculate(&trade, &ledger), Err(TradeError::InvalidState { status: Status::New }));
}

#[test]
fn advance_stamps_with_fresh_ids() {
    let mut ledger = Ledger::new();
    deposit(&mut ledger, 1000);
    let mut trade = new_trade(10, 9, 15, 10);
    TradeLifecycle::advance(&mut ledger, &mut trade, &Transition::Fund, &Vec::new(), &Money::zero()).unwrap();
    assert_eq!(trade.status, Status::Funded);
    assert_eq!(ledger.len(), 2);
}

#[test]
fn target_modification_needs_the_account_and_a_broker_order() {
    let mut trade = new_trade(10, 9, 15, 10);
    assert_eq!(TradeLifecycle::target_to_modify(&trade, 1), Err(TradeError::Validation(ValidationError::AccountMismatch)));
    assert_eq!(TradeLifecycle::target_to_modify(&trade, ACCOUNT), Err(TradeError::Validation(ValidationError::MissingBrokerOrder)));
    trade.target.broker_order_id = Some(5);
    assert_eq!(TradeLifecycle::target_to_modify(&trade, ACCOUNT), Ok(5));
    TradeLifecycle::modified_target(&mut trade, Money::whole(16), 6);
    assert_eq!(trade.target.broker_order_id, Some(6));
    assert_eq!(trade.target.price, Money::whole(16));
}

#[test]
fn legal_edges_of_the_lifecycle() {
    assert!(TradeLifecycle::is_legal(Status::New, Status::Funded));
    assert!(TradeLifecycle::is_legal(Status::Submitted, Status::Canceled));
    assert!(!TradeLifecycle::is_legal(Status::Funded, Status::Closed));
    assert!(!TradeLifecycle::is_legal(Status::Filled, Status::Canceled));
    assert!(!TradeLifecycle::is_legal(Status::Closed, Status::New));
}
