use trust_core::{
    CategoryKind, Currency, Ledger, Money, Status, Trade, TradeBalance, TradeError,
    TransactionCategory, TransactionFilter, ValidationError, WorkerTransaction,
};
use uuid::Uuid;

#[test]
fn test_create_transaction() {
    let mut ledger = Ledger::new();
    let account_id = Uuid::new_v4().as_u128();
    let tx = WorkerTransaction::create_transaction(
        &mut ledger,
        account_id,
        Money::from_parts(1099, 2).unwrap(),
        &Currency::BTC,
        TransactionCategory::Deposit,
    )
    .expect("Error creating transaction");
    assert_eq!(tx.account_id, account_id);
    assert_eq!(tx.amount, Money::from_parts(1099, 2).unwrap());
    assert_eq!(tx.currency, Currency::BTC);
    assert_eq!(tx.category, TransactionCategory::Deposit);
    assert_eq!(tx.deleted_at, None);
}

#[test]
fn test_create_transaction_with_trade_id() {
    let mut ledger = Ledger::new();
    let trade_id = Uuid::new_v4().as_u128();
    let account_id = Uuid::new_v4().as_u128();
    let tx = WorkerTransaction::create_transaction(
        &mut ledger,
        account_id,
        Money::from_parts(1099, 2).unwrap(),
        &Currency::BTC,
        TransactionCategory::FundTrade(trade_id),
    )
    .expect("Error creating transaction");
    assert_eq!(tx.account_id, account_id);
    assert_eq!(tx.amount, Money::from_parts(1099, 2).unwrap());
    assert_eq!(tx.currency, Currency::BTC);
    assert_eq!(tx.category, TransactionCategory::FundTrade(trade_id));
    assert_eq!(tx.deleted_at, None);
}

#[test]
fn create_transaction_refuses_a_negative_amount() {
    let mut ledger = Ledger::new();
    let r = WorkerTransaction::create_transaction(&mut ledger, 1, Money::whole(-1), &Currency::USD, TransactionCategory::Deposit);
    assert_eq!(r, Err(TradeError::Validation(ValidationError::NegativeAmount)));
    assert_eq!(ledger.len(), 0);
}

#[test]
fn append_validates_its_arguments() {
    let mut ledger = Ledger::new();
    let r = ledger.append(1, 0, 1, Some(5), Currency::USD, Money::whole(1), TransactionCategory::FundTrade(6));
    assert_eq!(r, Err(TradeError::Validation(ValidationError::TradeIdMismatch)));
    let r = ledger.append(1, 0, 1, Some(5), Currency::USD, Money::whole(1), TransactionCategory::Deposit);
    assert_eq!(r, Err(TradeError::Validation(ValidationError::TradeIdMismatch)));
    ledger.append(1, 0, 1, None, Currency::USD, Money::whole(1), TransactionCategory::Deposit).unwrap();
    let r = ledger.append(1, 0, 1, None, Currency::USD, Money::whole(1), TransactionCategory::Deposit);
    assert_eq!(r, Err(TradeError::Validation(ValidationError::DuplicateId)));
    assert_eq!(ledger.len(), 1);
    assert_eq!(ledger.mark_deleted(9, 1), Err(TradeError::Validation(ValidationError::UnknownTransaction)));
    ledger.mark_deleted(1, 4).unwrap();
    ledger.mark_deleted(1, 8).unwrap();
    assert_eq!(ledger.entries()[0].deleted_at, Some(4));
}

fn add(ledger: &mut Ledger, id: u128, account: u128, at: i64, c: TransactionCategory) {
    ledger.append(id, at, account, c.trade_id(), Currency::USD, Money::whole(id as i64), c).unwrap();
}

fn ids(v: &[trust_core::Transaction]) -> Vec<u128> {
    v.iter().map(|t| t.id).collect()
}

fn sample() -> Ledger {
    let mut l = Ledger::new();
    add(&mut l, 1, 1, 0, TransactionCategory::FundTrade(8));
    add(&mut l, 2, 1, 0, TransactionCategory::Deposit);
    add(&mut l, 3, 1, 50, TransactionCategory::PaymentTax(8));
    add(&mut l, 4, 1, 50, TransactionCategory::Withdrawal);
    add(&mut l, 5, 2, 0, TransactionCategory::Deposit);
    add(&mut l, 6, 1, 0, TransactionCategory::WithdrawalTax);
    add(&mut l, 7, 1, 100, TransactionCategory::FeeOpen(8));
    add(&mut l, 8, 1, 0, TransactionCategory::OpenTrade(9));
    add(&mut l, 10, 1, 0, TransactionCategory::Deposit);
    l.mark_deleted(10, 1).unwrap();
    l
}

#[test]
fn queries_select_live_entries_in_order() {
    let l = sample();
    assert_eq!(ids(&WorkerTransaction::read_all_transactions(&l, 1, &Currency::USD)), vec![1, 2, 3, 4, 6, 7, 8]);
    assert!(WorkerTransaction::read_all_transactions(&l, 1, &Currency::EUR).is_empty());
    assert_eq!(ids(&WorkerTransaction::read_all_trade_transactions(&l, 8)), vec![1, 3, 7]);
    assert_eq!(ids(&WorkerTransaction::read_all_trade_transactions_for_category(&l, 8, TransactionCategory::PaymentTax(0))), vec![3]);
    assert_eq!(ids(&WorkerTransaction::read_all_account_transactions_for_category(&l, 1, &Currency::USD, TransactionCategory::Deposit)), vec![2]);
    let f = TransactionFilter { account_id: None, currency: None, kind: Some(CategoryKind::Deposit), trade_id: None, created_from: None, created_until: None };
    assert_eq!(ids(&l.query(&f)), vec![2, 5]);
    let window = TransactionFilter { account_id: Some(1), currency: None, kind: None, trade_id: None, created_from: Some(1), created_until: Some(60) };
    assert_eq!(ids(&l.query(&window)), vec![3, 4]);
}

#[test]
fn grouped_queries_list_kind_after_kind() {
    let l = sample();
    assert_eq!(ids(&WorkerTransaction::read_all_trade_transactions_excluding_taxes(&l, 1, &Currency::USD)), vec![2, 4, 7, 1]);
    assert_eq!(ids(&WorkerTransaction::read_all_account_transactions_taxes(&l, 1, &Currency::USD)), vec![3, 6]);
    assert_eq!(ids(&WorkerTransaction::read_all_transaction_excluding_taxes_until(&l, 1, &Currency::USD, 10)), vec![2, 1]);
    assert_eq!(ids(&WorkerTransaction::read_all_transaction_excluding_taxes_until(&l, 1, &Currency::USD, 50)), vec![2, 4, 1]);
    let now = WorkerTransaction::read_all_transaction_excluding_current_month_and_taxes(&l, 1, &Currency::USD).unwrap();
    assert_eq!(ids(&now), vec![2, 4, 1]);
}

fn trade(id: u128, status: Status) -> Trade {
    let z = Money::zero();
    let o = trust_core::Order {
        id: 1,
        trading_vehicle_id: 1,
        quantity: 1,
        price: Money::whole(1),
        action: trust_core::OrderAction::Buy,
        category: trust_core::OrderCategory::Market,
        created_at: 0,
        submitted_at: None,
        filled_at: None,
        closed_at: None,
        broker_order_id: None,
    };
    Trade {
        id,
        account_id: 1,
        currency: Currency::USD,
        status,
        entry: o,
        safety_stop: o,
        target: o,
        balance: TradeBalance { funding: z, capital_in_market: z, capital_out_of_market: z, taxed: z, total_performance: z },
    }
}

#[test]
fn capital_in_trades_lists_fundings_then_opens() {
    let mut l = Ledger::new();
    add(&mut l, 1, 1, 0, TransactionCategory::OpenTrade(20));
    add(&mut l, 2, 1, 0, TransactionCategory::FundTrade(10));
    add(&mut l, 3, 1, 0, TransactionCategory::OpenTrade(30));
    add(&mut l, 4, 1, 0, TransactionCategory::FundTrade(20));
    add(&mut l, 5, 1, 0, TransactionCategory::FundTrade(40));
    add(&mut l, 6, 1, 0, TransactionCategory::OpenTrade(50));
    let trades = vec![
        trade(30, Status::Filled),
        trade(20, Status::Submitted),
        trade(10, Status::Funded),
        trade(40, Status::Closed),
        trade(50, Status::PartiallyFilled),
    ];
    let r = WorkerTransaction::all_account_transactions_in_trade(&l, &trades, 1, &Currency::USD);
    assert_eq!(ids(&r), vec![2, 1, 6, 3]);
}
