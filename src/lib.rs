//! Trade capital accounting: a categorized transaction ledger, the calculators
//! that derive account and trade capital from it, and the trade lifecycle that
//! decides which ledger entries may exist at each point of a trade's life.
pub mod account;
pub mod calculators;
pub mod category;
pub mod decimal;
pub mod clock;
pub mod error;
pub mod ident;
pub mod ledger;
pub mod lifecycle;
pub mod measure;
pub mod money;
pub mod queries;
pub mod record;
pub mod rules;
pub mod text;
pub mod trade;

pub use money::{Money, MAX_UNITS, SCALE, UNITS_PER_WHOLE};
pub use category::{CategoryKind, CategoryParseError, Currency, Direction, TransactionCategory};
pub use error::{ArithmeticOp, TradeError, ValidationError};
pub use trade::{Order, OrderAction, OrderCategory, Status, Trade, TradeBalance};
pub use ledger::{Ledger, Transaction, TransactionFilter};
pub use measure::{Measure, Sign};
pub use account::AccountCapitalBalance;
pub use calculators::{
    RiskCalculator, TradeCapitalFunded, TradeCapitalInMarket, TradeCapitalNotAtRisk,
    TradeCapitalOutOfMarket, TradeCapitalRequired, TradeCapitalTaxable, TradePerformance,
};
pub use rules::{check_rules, Rule, RuleLevel};
pub use lifecycle::{Exit, Stamp, TradeLifecycle, Transition};
pub use queries::WorkerTransaction;
pub use record::{ConversionError, NewTransaction, TransactionSQLite};
