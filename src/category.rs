use vstd::prelude::*;
use crate::text::str_eq;

verus! {

/// The currency a transaction or trade is denominated in.
#[derive(Clone, Copy, Debug, PartialEq, Eq, Structural)]
pub enum Currency {
    USD,
    EUR,
    BTC,
}

pub open spec fn currency_code(c: Currency) -> Seq<char> {
    match c {
        Currency::USD => "USD"@,
        Currency::EUR => "EUR"@,
        Currency::BTC => "BTC"@,
    }
}

pub open spec fn currency_of_code(s: Seq<char>) -> Option<Currency> {
    if s == "USD"@ {
        Some(Currency::USD)
    } else if s == "EUR"@ {
        Some(Currency::EUR)
    } else if s == "BTC"@ {
        Some(Currency::BTC)
    } else {
        None
    }
}

impl Currency {
    /// The three-letter code of the currency.
    pub fn code(&self) -> (r: &'static str)
        ensures
            r@ == currency_code(*self),
    {
        match self {
            Currency::USD => "USD",
            Currency::EUR => "EUR",
            Currency::BTC => "BTC",
        }
    }

    /// The currency with the given code.
    pub fn parse(s: &str) -> (r: Option<Currency>)
        ensures
            r == currency_of_code(s@),
    {
        if str_eq(s, "USD") {
            Some(Currency::USD)
        } else if str_eq(s, "EUR") {
            Some(Currency::EUR)
        } else if str_eq(s, "BTC") {
            Some(Currency::BTC)
        } else {
            None
        }
    }
}

/// Parsing a currency's code gives the currency back.
pub proof fn lemma_currency_round_trip(c: Currency)
    ensures
        currency_of_code(currency_code(c)) == Some(c),
{
    reveal_strlit("USD");
    reveal_strlit("EUR");
    reveal_strlit("BTC");
    assert("USD"@[0] != "EUR"@[0] && "USD"@[0] != "BTC"@[0] && "EUR"@[0] != "BTC"@[0]);
}

/// The kind of a ledger entry, without the trade it may be scoped to.
#[derive(Clone, Copy, Debug, PartialEq, Eq, Structural)]
pub enum CategoryKind {
    Deposit,
    Withdrawal,
    WithdrawalTax,
    WithdrawalEarnings,
    FundTrade,
    PaymentFromTrade,
    PaymentTax,
    PaymentEarnings,
    FeeOpen,
    FeeClose,
    OpenTrade,
    CloseSafetyStop,
    CloseSafetyStopSlippage,
    CloseTarget,
}

/// How an entry moves account-level capital.
#[derive(Clone, Copy, Debug, PartialEq, Eq, Structural)]
pub enum Direction {
    Inflow,
    Outflow,
    Ignored,
}

/// The category of a ledger entry; trade-scoped categories carry the id of
/// the trade they belong to.
#[derive(Clone, Copy, Debug, PartialEq, Eq, Structural)]
pub enum TransactionCategory {
    Deposit,
    Withdrawal,
    WithdrawalTax,
    WithdrawalEarnings,
    FundTrade(u128),
    PaymentFromTrade(u128),
    PaymentTax(u128),
    PaymentEarnings(u128),
    FeeOpen(u128),
    FeeClose(u128),
    OpenTrade(u128),
    CloseSafetyStop(u128),
    CloseSafetyStopSlippage(u128),
    CloseTarget(u128),
}

pub open spec fn kind_of(c: TransactionCategory) -> CategoryKind {
    match c {
        TransactionCategory::Deposit => CategoryKind::Deposit,
        TransactionCategory::Withdrawal => CategoryKind::Withdrawal,
        TransactionCategory::WithdrawalTax => CategoryKind::WithdrawalTax,
        TransactionCategory::WithdrawalEarnings => CategoryKind::WithdrawalEarnings,
        TransactionCategory::FundTrade(_) => CategoryKind::FundTrade,
        TransactionCategory::PaymentFromTrade(_) => CategoryKind::PaymentFromTrade,
        TransactionCategory::PaymentTax(_) => CategoryKind::PaymentTax,
        TransactionCategory::PaymentEarnings(_) => CategoryKind::PaymentEarnings,
        TransactionCategory::FeeOpen(_) => CategoryKind::FeeOpen,
        TransactionCategory::FeeClose(_) => CategoryKind::FeeClose,
        TransactionCategory::OpenTrade(_) => CategoryKind::OpenTrade,
        TransactionCategory::CloseSafetyStop(_) => CategoryKind::CloseSafetyStop,
        TransactionCategory::CloseSafetyStopSlippage(_) => CategoryKind::CloseSafetyStopSlippage,
        TransactionCategory::CloseTarget(_) => CategoryKind::CloseTarget,
    }
}

/// The trade a category is scoped to, if any.
pub open spec fn trade_of(c: TransactionCategory) -> Option<u128> {
    match c {
        TransactionCategory::Deposit => None,
        TransactionCategory::Withdrawal => None,
        TransactionCategory::WithdrawalTax => None,
        TransactionCategory::WithdrawalEarnings => None,
        TransactionCategory::FundTrade(t) => Some(t),
        TransactionCategory::PaymentFromTrade(t) => Some(t),
        TransactionCategory::PaymentTax(t) => Some(t),
        TransactionCategory::PaymentEarnings(t) => Some(t),
        TransactionCategory::FeeOpen(t) => Some(t),
        TransactionCategory::FeeClose(t) => Some(t),
        TransactionCategory::OpenTrade(t) => Some(t),
        TransactionCategory::CloseSafetyStop(t) => Some(t),
        TransactionCategory::CloseSafetyStopSlippage(t) => Some(t),
        TransactionCategory::CloseTarget(t) => Some(t),
    }
}

/// Account-level direction: what the account capital balance adds or subtracts.
pub open spec fn direction_of(k: CategoryKind) -> Direction {
    match k {
        CategoryKind::Deposit => Direction::Inflow,
        CategoryKind::CloseSafetyStop => Direction::Inflow,
        CategoryKind::CloseTarget => Direction::Inflow,
        CategoryKind::CloseSafetyStopSlippage => Direction::Inflow,
        CategoryKind::Withdrawal => Direction::Outflow,
        CategoryKind::WithdrawalTax => Direction::Outflow,
        CategoryKind::WithdrawalEarnings => Direction::Outflow,
        CategoryKind::FeeOpen => Direction::Outflow,
        CategoryKind::FeeClose => Direction::Outflow,
        CategoryKind::OpenTrade => Direction::Outflow,
        _ => Direction::Ignored,
    }
}

/// Whether a kind of entry belongs to a trade.
pub open spec fn is_trade_scoped(k: CategoryKind) -> bool {
    match k {
        CategoryKind::Deposit => false,
        CategoryKind::Withdrawal => false,
        CategoryKind::WithdrawalTax => false,
        CategoryKind::WithdrawalEarnings => false,
        _ => true,
    }
}

/// The stable text key of a kind of entry.
pub open spec fn key_of(k: CategoryKind) -> Seq<char> {
    match k {
        CategoryKind::Deposit => "deposit"@,
        CategoryKind::Withdrawal => "withdrawal"@,
        CategoryKind::WithdrawalTax => "withdrawal_tax"@,
        CategoryKind::WithdrawalEarnings => "withdrawal_earnings"@,
        CategoryKind::FundTrade => "fund_trade"@,
        CategoryKind::PaymentFromTrade => "payment_from_trade"@,
        CategoryKind::PaymentTax => "payment_tax"@,
        CategoryKind::PaymentEarnings => "payment_earnings"@,
        CategoryKind::FeeOpen => "fee_open"@,
        CategoryKind::FeeClose => "fee_close"@,
        CategoryKind::OpenTrade => "open_trade"@,
        CategoryKind::CloseSafetyStop => "close_safety_stop"@,
        CategoryKind::CloseSafetyStopSlippage => "close_safety_stop_slippage"@,
        CategoryKind::CloseTarget => "close_target"@,
    }
}

/// The kind whose key is `s`, if any.
pub open spec fn kind_of_key(s: Seq<char>) -> Option<CategoryKind> {
    if s == "deposit"@ {
        Some(CategoryKind::Deposit)
    } else if s == "withdrawal"@ {
        Some(CategoryKind::Withdrawal)
    } else if s == "withdrawal_tax"@ {
        Some(CategoryKind::WithdrawalTax)
    } else if s == "withdrawal_earnings"@ {
        Some(CategoryKind::WithdrawalEarnings)
    } else if s == "fund_trade"@ {
        Some(CategoryKind::FundTrade)
    } else if s == "payment_from_trade"@ {
        Some(CategoryKind::PaymentFromTrade)
    } else if s == "payment_tax"@ {
        Some(CategoryKind::PaymentTax)
    } else if s == "payment_earnings"@ {
        Some(CategoryKind::PaymentEarnings)
    } else if s == "fee_open"@ {
        Some(CategoryKind::FeeOpen)
    } else if s == "fee_close"@ {
        Some(CategoryKind::FeeClose)
    } else if s == "open_trade"@ {
        Some(CategoryKind::OpenTrade)
    } else if s == "close_safety_stop"@ {
        Some(CategoryKind::CloseSafetyStop)
    } else if s == "close_safety_stop_slippage"@ {
        Some(CategoryKind::CloseSafetyStopSlippage)
    } else if s == "close_target"@ {
        Some(CategoryKind::CloseTarget)
    } else {
        None
    }
}

/// The category of kind `k`, scoped to `trade` where the kind is trade-scoped.
/// An account-level kind ignores `trade`; a trade-scoped one needs it.
pub open spec fn category_of(k: CategoryKind, trade: Option<u128>) -> Option<TransactionCategory> {
    match k {
        CategoryKind::Deposit => Some(TransactionCategory::Deposit),
        CategoryKind::Withdrawal => Some(TransactionCategory::Withdrawal),
        CategoryKind::WithdrawalTax => Some(TransactionCategory::WithdrawalTax),
        CategoryKind::WithdrawalEarnings => Some(TransactionCategory::WithdrawalEarnings),
        _ => match trade {
            None => None,
            Some(t) => Some(
                match k {
                    CategoryKind::FundTrade => TransactionCategory::FundTrade(t),
                    CategoryKind::PaymentFromTrade => TransactionCategory::PaymentFromTrade(t),
                    CategoryKind::PaymentTax => TransactionCategory::PaymentTax(t),
                    CategoryKind::PaymentEarnings => TransactionCategory::PaymentEarnings(t),
                    CategoryKind::FeeOpen => TransactionCategory::FeeOpen(t),
                    CategoryKind::FeeClose => TransactionCategory::FeeClose(t),
                    CategoryKind::OpenTrade => TransactionCategory::OpenTrade(t),
                    CategoryKind::CloseSafetyStop => TransactionCategory::CloseSafetyStop(t),
                    CategoryKind::CloseSafetyStopSlippage => TransactionCategory::CloseSafetyStopSlippage(t),
                    _ => TransactionCategory::CloseTarget(t),
                },
            ),
        },
    }
}

/// Why a key and trade id name no category.
#[derive(Clone, Copy, Debug, PartialEq, Eq, Structural)]
pub enum CategoryParseError {
    UnknownKey,
    MissingTradeId,
}

impl CategoryKind {
    /// The stable text key of this kind.
    pub fn key(&self) -> (r: &'static str)
        ensures
            r@ == key_of(*self),
    {
        match self {
            CategoryKind::Deposit => "deposit",
            CategoryKind::Withdrawal => "withdrawal",
            CategoryKind::WithdrawalTax => "withdrawal_tax",
            CategoryKind::WithdrawalEarnings => "withdrawal_earnings",
            CategoryKind::FundTrade => "fund_trade",
            CategoryKind::PaymentFromTrade => "payment_from_trade",
            CategoryKind::PaymentTax => "payment_tax",
            CategoryKind::PaymentEarnings => "payment_earnings",
            CategoryKind::FeeOpen => "fee_open",
            CategoryKind::FeeClose => "fee_close",
            CategoryKind::OpenTrade => "open_trade",
            CategoryKind::CloseSafetyStop => "close_safety_stop",
            CategoryKind::CloseSafetyStopSlippage => "close_safety_stop_slippage",
            CategoryKind::CloseTarget => "close_target",
        }
    }

    /// The kind whose key is `s`.
    pub fn from_key(s: &str) -> (r: Option<CategoryKind>)
        ensures
            r == kind_of_key(s@),
    {
        if str_eq(s, "deposit") {
            Some(CategoryKind::Deposit)
        } else if str_eq(s, "withdrawal") {
            Some(CategoryKind::Withdrawal)
        } else if str_eq(s, "withdrawal_tax") {
            Some(CategoryKind::WithdrawalTax)
        } else if str_eq(s, "withdrawal_earnings") {
            Some(CategoryKind::WithdrawalEarnings)
        } else if str_eq(s, "fund_trade") {
            Some(CategoryKind::FundTrade)
        } else if str_eq(s, "payment_from_trade") {
            Some(CategoryKind::PaymentFromTrade)
        } else if str_eq(s, "payment_tax") {
            Some(CategoryKind::PaymentTax)
        } else if str_eq(s, "payment_earnings") {
            Some(CategoryKind::PaymentEarnings)
        } else if str_eq(s, "fee_open") {
            Some(CategoryKind::FeeOpen)
        } else if str_eq(s, "fee_close") {
            Some(CategoryKind::FeeClose)
        } else if str_eq(s, "open_trade") {
            Some(CategoryKind::OpenTrade)
        } else if str_eq(s, "close_safety_stop") {
            Some(CategoryKind::CloseSafetyStop)
        } else if str_eq(s, "close_safety_stop_slippage") {
            Some(CategoryKind::CloseSafetyStopSlippage)
        } else if str_eq(s, "close_target") {
            Some(CategoryKind::CloseTarget)
        } else {
            None
        }
    }

    /// How entries of this kind move account-level capital.
    pub fn direction(&self) -> (r: Direction)
        ensures
            r == direction_of(*self),
    {
        match self {
            CategoryKind::Deposit => Direction::Inflow,
            CategoryKind::CloseSafetyStop => Direction::Inflow,
            CategoryKind::CloseTarget => Direction::Inflow,
            CategoryKind::CloseSafetyStopSlippage => Direction::Inflow,
            CategoryKind::Withdrawal => Direction::Outflow,
            CategoryKind::WithdrawalTax => Direction::Outflow,
            CategoryKind::WithdrawalEarnings => Direction::Outflow,
            CategoryKind::FeeOpen => Direction::Outflow,
            CategoryKind::FeeClose => Direction::Outflow,
            CategoryKind::OpenTrade => Direction::Outflow,
            _ => Direction::Ignored,
        }
    }
}

impl TransactionCategory {
    pub fn kind(&self) -> (r: CategoryKind)
        ensures
            r == kind_of(*self),
    {
        match self {
            TransactionCategory::Deposit => CategoryKind::Deposit,
            TransactionCategory::Withdrawal => CategoryKind::Withdrawal,
            TransactionCategory::WithdrawalTax => CategoryKind::WithdrawalTax,
            TransactionCategory::WithdrawalEarnings => CategoryKind::WithdrawalEarnings,
            TransactionCategory::FundTrade(_) => CategoryKind::FundTrade,
            TransactionCategory::PaymentFromTrade(_) => CategoryKind::PaymentFromTrade,
            TransactionCategory::PaymentTax(_) => CategoryKind::PaymentTax,
            TransactionCategory::PaymentEarnings(_) => CategoryKind::PaymentEarnings,
            TransactionCategory::FeeOpen(_) => CategoryKind::FeeOpen,
            TransactionCategory::FeeClose(_) => CategoryKind::FeeClose,
            TransactionCategory::OpenTrade(_) => CategoryKind::OpenTrade,
            TransactionCategory::CloseSafetyStop(_) => CategoryKind::CloseSafetyStop,
            TransactionCategory::CloseSafetyStopSlippage(_) => CategoryKind::CloseSafetyStopSlippage,
            TransactionCategory::CloseTarget(_) => CategoryKind::CloseTarget,
        }
    }

    /// The trade this category is scoped to, if any.
    pub fn trade_id(&self) -> (r: Option<u128>)
        ensures
            r == trade_of(*self),
    {
        match self {
            TransactionCategory::Deposit => None,
            TransactionCategory::Withdrawal => None,
            TransactionCategory::WithdrawalTax => None,
            TransactionCategory::WithdrawalEarnings => None,
            TransactionCategory::FundTrade(t) => Some(*t),
            TransactionCategory::PaymentFromTrade(t) => Some(*t),
            TransactionCategory::PaymentTax(t) => Some(*t),
            TransactionCategory::PaymentEarnings(t) => Some(*t),
            TransactionCategory::FeeOpen(t) => Some(*t),
            TransactionCategory::FeeClose(t) => Some(*t),
            TransactionCategory::OpenTrade(t) => Some(*t),
            TransactionCategory::CloseSafetyStop(t) => Some(*t),
            TransactionCategory::CloseSafetyStopSlippage(t) => Some(*t),
            TransactionCategory::CloseTarget(t) => Some(*t),
        }
    }

    /// The stable text key of this category; the trade id is stored beside it.
    pub fn key(&self) -> (r: &'static str)
        ensures
            r@ == key_of(kind_of(*self)),
    {
        self.kind().key()
    }

    /// The category of kind `k` scoped to `trade`.
    pub fn from_kind(k: CategoryKind, trade: Option<u128>) -> (r: Option<TransactionCategory>)
        ensures
            r == category_of(k, trade),
    {
        match k {
            CategoryKind::Deposit => Some(TransactionCategory::Deposit),
            CategoryKind::Withdrawal => Some(TransactionCategory::Withdrawal),
            CategoryKind::WithdrawalTax => Some(TransactionCategory::WithdrawalTax),
            CategoryKind::WithdrawalEarnings => Some(TransactionCategory::WithdrawalEarnings),
            _ => match trade {
                None => None,
                Some(t) => Some(
                    match k {
                        CategoryKind::FundTrade => TransactionCategory::FundTrade(t),
                        CategoryKind::PaymentFromTrade => TransactionCategory::PaymentFromTrade(t),
                        CategoryKind::PaymentTax => TransactionCategory::PaymentTax(t),
                        CategoryKind::PaymentEarnings => TransactionCategory::PaymentEarnings(t),
                        CategoryKind::FeeOpen => TransactionCategory::FeeOpen(t),
                        CategoryKind::FeeClose => TransactionCategory::FeeClose(t),
                        CategoryKind::OpenTrade => TransactionCategory::OpenTrade(t),
                        CategoryKind::CloseSafetyStop => TransactionCategory::CloseSafetyStop(t),
                        CategoryKind::CloseSafetyStopSlippage => TransactionCategory::CloseSafetyStopSlippage(t),
                        _ => TransactionCategory::CloseTarget(t),
                    },
                ),
            },
        }
    }

    /// The category named by a stored key and trade id.
    pub fn parse(key: &str, trade: Option<u128>) -> (r: Result<TransactionCategory, CategoryParseError>)
        ensures
            kind_of_key(key@) is None ==> r == Err::<TransactionCategory, _>(CategoryParseError::UnknownKey),
            kind_of_key(key@) matches Some(k) ==> match category_of(k, trade) {
                Some(c) => r == Ok::<_, CategoryParseError>(c),
                None => r == Err::<TransactionCategory, _>(CategoryParseError::MissingTradeId),
            },
    {
        match CategoryKind::from_key(key) {
            None => Err(CategoryParseError::UnknownKey),
            Some(k) => match TransactionCategory::from_kind(k, trade) {
                Some(c) => Ok(c),
                None => Err(CategoryParseError::MissingTradeId),
            },
        }
    }
}

/// Every kind is found again from its key.
pub proof fn lemma_key_round_trip(k: CategoryKind)
    ensures
        kind_of_key(key_of(k)) == Some(k),
{
    reveal_strlit("deposit");
    reveal_strlit("withdrawal");
    reveal_strlit("withdrawal_tax");
    reveal_strlit("withdrawal_earnings");
    reveal_strlit("fund_trade");
    reveal_strlit("payment_from_trade");
    reveal_strlit("payment_tax");
    reveal_strlit("payment_earnings");
    reveal_strlit("fee_open");
    reveal_strlit("fee_close");
    reveal_strlit("open_trade");
    reveal_strlit("close_safety_stop");
    reveal_strlit("close_safety_stop_slippage");
    reveal_strlit("close_target");
    assert("deposit"@.len() == 7);
    assert("withdrawal"@.len() == 10 && "withdrawal"@[0] == 'w');
    assert("withdrawal_tax"@.len() == 14);
    assert("withdrawal_earnings"@.len() == 19);
    assert("fund_trade"@.len() == 10 && "fund_trade"@[0] == 'f');
    assert("payment_from_trade"@.len() == 18);
    assert("payment_tax"@.len() == 11);
    assert("payment_earnings"@.len() == 16);
    assert("fee_open"@.len() == 8);
    assert("fee_close"@.len() == 9);
    assert("open_trade"@.len() == 10 && "open_trade"@[0] == 'o');
    assert("close_safety_stop"@.len() == 17);
    assert("close_safety_stop_slippage"@.len() == 26);
    assert("close_target"@.len() == 12);
}

/// A category is recovered from its key and its trade id: the stored form
/// of a ledger entry's category loses nothing.
pub proof fn lemma_category_round_trip(c: TransactionCategory)
    ensures
        kind_of_key(key_of(kind_of(c))) == Some(kind_of(c)),
        category_of(kind_of(c), trade_of(c)) == Some(c),
{
    lemma_key_round_trip(kind_of(c));
}

} // verus!
