use trust_core::{
    CategoryKind, CategoryParseError, ConversionError, Currency, Money, NewTransaction,
    Transaction, TransactionCategory, TransactionSQLite, MAX_UNITS,
};
use uuid::Uuid;

#[test]
fn category_keys_round_trip() {
    let t = 99u128;
    let all = [
        TransactionCategory::Deposit,
        TransactionCategory::Withdrawal,
        TransactionCategory::WithdrawalTax,
        TransactionCategory::WithdrawalEarnings,
        TransactionCategory::FundTrade(t),
        TransactionCategory::PaymentFromTrade(t),
        TransactionCategory::PaymentTax(t),
        TransactionCategory::PaymentEarnings(t),
        TransactionCategory::FeeOpen(t),
        TransactionCategory::FeeClose(t),
        TransactionCategory::OpenTrade(t),
        TransactionCategory::CloseSafetyStop(t),
        TransactionCategory::CloseSafetyStopSlippage(t),
        TransactionCategory::CloseTarget(t),
    ];
    for c in all.iter() {
        assert_eq!(TransactionCategory::parse(c.key(), c.trade_id()), Ok(*c));
    }
    assert_eq!(TransactionCategory::FeeClose(t).key(), "fee_close");
    assert_eq!(TransactionCategory::Deposit.key(), "deposit");
}

#[test]
fn category_parse_errors() {
    assert_eq!(TransactionCategory::parse("bonus", None), Err(CategoryParseError::UnknownKey));
    assert_eq!(TransactionCategory::parse("fund_trade", None), Err(CategoryParseError::MissingTradeId));
    assert_eq!(TransactionCategory::parse("deposit", Some(3)), Ok(TransactionCategory::Deposit));
    assert_eq!(CategoryKind::from_key("close_target"), Some(CategoryKind::CloseTarget));
}

#[test]
fn currency_codes() {
    assert_eq!(Currency::parse("BTC"), Some(Currency::BTC));
    assert_eq!(Currency::parse("usd"), None);
    assert_eq!(Currency::EUR.code(), "EUR");
}

#[test]
fn money_from_decimal_parts() {
    assert_eq!(Money::from_parts(1099, 2).unwrap().units(), 1_099_000_000);
    assert_eq!(Money::from_parts(-5, 0).unwrap(), Money::whole(-5));
    assert_eq!(Money::from_parts(10, 9).unwrap().units(), 1);
    assert_eq!(Money::from_parts(-120, 9).unwrap().units(), -12);
    assert_eq!(Money::from_parts(1, 9), None);
    assert_eq!(Money::from_parts(1, 29), None);
    assert_eq!(Money::from_parts(MAX_UNITS, 0), None);
    assert_eq!(Money::from_parts(MAX_UNITS, 8).unwrap().units(), MAX_UNITS);
    assert_eq!(Money::from_units(MAX_UNITS + 1), None);
}

fn row(amount: &str, category: &str, trade_id: Option<String>) -> TransactionSQLite {
    TransactionSQLite {
        id: "67e55044-10b1-426f-9247-bb680e5fe0c8".to_string(),
        created_at: 5,
        updated_at: 5,
        deleted_at: None,
        currency: "BTC".to_string(),
        category: category.to_string(),
        amount: amount.to_string(),
        account_id: "00000000-0000-0000-0000-000000000007".to_string(),
        trade_id,
    }
}

#[test]
fn stored_row_reads_as_an_entry() {
    let trade = Uuid::new_v4();
    let t = row("10.99", "fund_trade", Some(trade.to_string())).into_domain_model().unwrap();
    assert_eq!(t.id, Uuid::parse_str("67e55044-10b1-426f-9247-bb680e5fe0c8").unwrap().as_u128());
    assert_eq!(t.account_id, 7);
    assert_eq!(t.currency, Currency::BTC);
    assert_eq!(t.amount, Money::from_parts(1099, 2).unwrap());
    assert_eq!(t.category, TransactionCategory::FundTrade(trade.as_u128()));
    assert_eq!(t.created_at, 5);
}

#[test]
fn stored_row_errors_name_the_field() {
    assert_eq!(row("1", "bonus", None).into_domain_model(), Err(ConversionError::Category));
    assert_eq!(row("1", "fund_trade", Some("x".to_string())).into_domain_model(), Err(ConversionError::Category));
    assert_eq!(row("ten", "deposit", None).into_domain_model(), Err(ConversionError::Amount));
    assert_eq!(row("0.000000001", "deposit", None).into_domain_model(), Err(ConversionError::Amount));
    assert_eq!(row("-0.00000001", "deposit", None).into_domain_model(), Err(ConversionError::Amount));
    assert_eq!(row("-5", "withdrawal", None).into_domain_model(), Err(ConversionError::Amount));
    let mut r = row("1", "deposit", None);
    r.id = "nope".to_string();
    assert_eq!(r.into_domain_model(), Err(ConversionError::Id));
    let mut r = row("1", "deposit", None);
    r.currency = "XYZ".to_string();
    assert_eq!(r.into_domain_model(), Err(ConversionError::Currency));
    let mut r = row("1", "deposit", None);
    r.account_id = String::new();
    assert_eq!(r.into_domain_model(), Err(ConversionError::AccountId));
}

#[test]
fn entry_is_written_as_text() {
    let trade = 0x1234u128;
    let t = Transaction {
        id: 1,
        account_id: 2,
        currency: Currency::USD,
        amount: Money::from_parts(1099, 2).unwrap(),
        category: TransactionCategory::OpenTrade(trade),
        created_at: 9,
        deleted_at: None,
    };
    let n = NewTransaction::from_transaction(&t);
    assert_eq!(n.id, "00000000-0000-0000-0000-000000000001");
    assert_eq!(n.account_id, Uuid::from_u128(2).to_string());
    assert_eq!(n.trade_id, Some(Uuid::from_u128(trade).to_string()));
    assert_eq!(n.amount, "10.99000000");
    assert_eq!(n.category, "open_trade");
    assert_eq!(n.currency, "USD");
    assert_eq!(n.updated_at, 9);
}

#[test]
fn amounts_are_written_with_all_places() {
    let mut t = Transaction {
        id: 0xa1a2a3a4b1b2c1c2d1d2d3d4d5d6d7d8,
        account_id: 2,
        currency: Currency::EUR,
        amount: Money::zero(),
        category: TransactionCategory::Deposit,
        created_at: 0,
        deleted_at: None,
    };
    let n = NewTransaction::from_transaction(&t);
    assert_eq!(n.amount, "0.00000000");
    assert_eq!(n.id, "a1a2a3a4-b1b2-c1c2-d1d2-d3d4d5d6d7d8");
    assert_eq!(n.trade_id, None);
    t.amount = Money::from_parts(123456, 0).unwrap();
    assert_eq!(NewTransaction::from_transaction(&t).amount, "123456.00000000");
    t.amount = Money::from_units(5).unwrap();
    assert_eq!(NewTransaction::from_transaction(&t).amount, "0.00000005");
}
