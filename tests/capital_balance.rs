use trust_core::{AccountCapitalBalance, Currency, Ledger, Money, TransactionCategory};
use uuid::Uuid;

fn account() -> u128 {
    Uuid::new_v4().as_u128()
}

fn set_transaction(ledger: &mut Ledger, account_id: u128, category: TransactionCategory, whole: i64) {
    let id = Uuid::new_v4().as_u128();
    ledger
        .append(id, 0, account_id, category.trade_id(), Currency::USD, Money::whole(whole), category)
        .unwrap();
}

fn trade() -> u128 {
    Uuid::new_v4().as_u128()
}

#[test]
fn test_total_balance_with_empty_transactions() {
    let ledger = Ledger::new();
    let result = AccountCapitalBalance::calculate(account(), &Currency::USD, &ledger);
    assert_eq!(result.unwrap(), Money::whole(0));
}

#[test]
fn test_total_balance_with_positive_transactions() {
    let mut ledger = Ledger::new();
    let a = account();
    set_transaction(&mut ledger, a, TransactionCategory::Deposit, 100);
    set_transaction(&mut ledger, a, TransactionCategory::Deposit, 100);
    let result = AccountCapitalBalance::calculate(a, &Currency::USD, &ledger);
    assert_eq!(result.unwrap(), Money::whole(200));
}

#[test]
fn test_total_balance_with_negative_transactions() {
    let mut ledger = Ledger::new();
    let a = account();
    set_transaction(&mut ledger, a, TransactionCategory::Deposit, 100);
    set_transaction(&mut ledger, a, TransactionCategory::Withdrawal, 50);
    let result = AccountCapitalBalance::calculate(a, &Currency::USD, &ledger);
    assert_eq!(result.unwrap(), Money::whole(50));
}

#[test]
fn test_total_balance_with_open_trade_transactions() {
    let mut ledger = Ledger::new();
    let a = account();
    set_transaction(&mut ledger, a, TransactionCategory::Deposit, 250);
    set_transaction(&mut ledger, a, TransactionCategory::FundTrade(trade()), 100);
    set_transaction(&mut ledger, a, TransactionCategory::OpenTrade(trade()), 100);
    let result = AccountCapitalBalance::calculate(a, &Currency::USD, &ledger);
    assert_eq!(result.unwrap(), Money::whole(150));
}

#[test]
fn test_total_balance_with_close_trade_transactions() {
    let mut ledger = Ledger::new();
    let a = account();
    set_transaction(&mut ledger, a, TransactionCategory::Deposit, 250);
    set_transaction(&mut ledger, a, TransactionCategory::FundTrade(trade()), 100);
    set_transaction(&mut ledger, a, TransactionCategory::OpenTrade(trade()), 100);
    set_transaction(&mut ledger, a, TransactionCategory::CloseSafetyStopSlippage(trade()), 90);
    let result = AccountCapitalBalance::calculate(a, &Currency::USD, &ledger);
    assert_eq!(result.unwrap(), Money::whole(240));
}

#[test]
fn test_total_balance_with_mixed_transactions() {
    let mut ledger = Ledger::new();
    let a = account();
    set_transaction(&mut ledger, a, TransactionCategory::Deposit, 1000);
    set_transaction(&mut ledger, a, TransactionCategory::Withdrawal, 50);
    set_transaction(&mut ledger, a, TransactionCategory::FundTrade(trade()), 100);
    set_transaction(&mut ledger, a, TransactionCategory::OpenTrade(trade()), 100);
    set_transaction(&mut ledger, a, TransactionCategory::CloseSafetyStopSlippage(trade()), 10);
    let result = AccountCapitalBalance::calculate(a, &Currency::USD, &ledger);
    assert_eq!(result.unwrap(), Money::whole(860));
}

#[test]
fn test_total_balance_with_mixed_transactions_including_ignored_transactions() {
    let mut ledger = Ledger::new();
    let a = account();
    set_transaction(&mut ledger, a, TransactionCategory::Deposit, 1000);
    set_transaction(&mut ledger, a, TransactionCategory::Withdrawal, 50);
    set_transaction(&mut ledger, a, TransactionCategory::FundTrade(trade()), 100);
    set_transaction(&mut ledger, a, TransactionCategory::OpenTrade(trade()), 100);
    set_transaction(&mut ledger, a, TransactionCategory::PaymentTax(trade()), 100);
    set_transaction(&mut ledger, a, TransactionCategory::FundTrade(trade()), 100);
    set_transaction(&mut ledger, a, TransactionCategory::PaymentEarnings(trade()), 100);
    set_transaction(&mut ledger, a, TransactionCategory::CloseSafetyStopSlippage(trade()), 10);
    let result = AccountCapitalBalance::calculate(a, &Currency::USD, &ledger);
    assert_eq!(result.unwrap(), Money::whole(860));
}

#[test]
fn balance_counts_every_outflow_and_inflow_kind() {
    let mut ledger = Ledger::new();
    let a = account();
    let t = trade();
    set_transaction(&mut ledger, a, TransactionCategory::Deposit, 1000);
    set_transaction(&mut ledger, a, TransactionCategory::WithdrawalTax, 10);
    set_transaction(&mut ledger, a, TransactionCategory::WithdrawalEarnings, 20);
    set_transaction(&mut ledger, a, TransactionCategory::FeeOpen(t), 1);
    set_transaction(&mut ledger, a, TransactionCategory::FeeClose(t), 2);
    set_transaction(&mut ledger, a, TransactionCategory::OpenTrade(t), 300);
    set_transaction(&mut ledger, a, TransactionCategory::CloseSafetyStop(t), 100);
    set_transaction(&mut ledger, a, TransactionCategory::CloseTarget(t), 200);
    set_transaction(&mut ledger, a, TransactionCategory::PaymentFromTrade(t), 500);
    let result = AccountCapitalBalance::calculate(a, &Currency::USD, &ledger);
    assert_eq!(result.unwrap(), Money::whole(1000 - 10 - 20 - 1 - 2 - 300 + 100 + 200));
}

#[test]
fn balance_skips_other_accounts_currencies_and_deleted_entries() {
    let mut ledger = Ledger::new();
    let a = account();
    set_transaction(&mut ledger, a, TransactionCategory::Deposit, 100);
    set_transaction(&mut ledger, account(), TransactionCategory::Deposit, 7);
    ledger
        .append(1, 0, a, None, Currency::EUR, Money::whole(9), TransactionCategory::Deposit)
        .unwrap();
    ledger
        .append(2, 0, a, None, Currency::USD, Money::whole(40), TransactionCategory::Deposit)
        .unwrap();
    ledger.mark_deleted(2, 5).unwrap();
    let result = AccountCapitalBalance::calculate(a, &Currency::USD, &ledger);
    assert_eq!(result.unwrap(), Money::whole(100));
}

#[test]
fn balance_is_independent_of_insertion_order() {
    let a = account();
    let t = trade();
    let entries = [
        (TransactionCategory::Deposit, 1000),
        (TransactionCategory::Withdrawal, 50),
        (TransactionCategory::OpenTrade(t), 100),
        (TransactionCategory::CloseTarget(t), 150),
    ];
    let mut forward = Ledger::new();
    for (c, w) in entries.iter() {
        set_transaction(&mut forward, a, *c, *w);
    }
    let mut backward = Ledger::new();
    for (c, w) in entries.iter().rev() {
        set_transaction(&mut backward, a, *c, *w);
    }
    let f = AccountCapitalBalance::calculate(a, &Currency::USD, &forward).unwrap();
    let b = AccountCapitalBalance::calculate(a, &Currency::USD, &backward).unwrap();
    assert_eq!(f, b);
    assert_eq!(f, Money::whole(1000 - 50 - 100 + 150));
}
