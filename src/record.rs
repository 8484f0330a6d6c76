use vstd::prelude::*;
use crate::category::{category_of, currency_of_code, key_of, kind_of, kind_of_key, trade_of, Currency, TransactionCategory};
use crate::decimal::{decimal_parsed, decimal_text, decimal_text_of, parse_decimal};
use crate::ident::{parse_uuid, uuid_parsed, uuid_text, uuid_text_of};
use crate::ledger::Transaction;
use crate::money::{money_of, parts_value, Money, SCALE};

verus! {

/// A ledger entry as the store reads it back: ids, currency, category and
/// amount as text; times in seconds since the epoch.
#[derive(Clone, Debug)]
pub struct TransactionSQLite {
    pub id: String,
    pub created_at: i64,
    pub updated_at: i64,
    pub deleted_at: Option<i64>,
    pub currency: String,
    pub category: String,
    pub amount: String,
    pub account_id: String,
    pub trade_id: Option<String>,
}

/// A ledger entry as the store writes it.
#[derive(Clone, Debug)]
pub struct NewTransaction {
    pub id: String,
    pub created_at: i64,
    pub updated_at: i64,
    pub deleted_at: Option<i64>,
    pub currency: String,
    pub category: String,
    pub amount: String,
    pub account_id: String,
    pub trade_id: Option<String>,
}

/// The field of a stored entry that could not be read.
#[derive(Clone, Copy, Debug, PartialEq, Eq, Structural)]
pub enum ConversionError {
    Category,
    Id,
    Currency,
    Amount,
    AccountId,
}

/// The trade id a stored entry names; text that is no UUID names none.
pub open spec fn stored_trade_id(t: Option<String>) -> Option<u128> {
    match t {
        Some(s) => uuid_parsed(s@),
        None => None,
    }
}

/// The amount, in units, a stored text names.
pub open spec fn stored_amount(s: Seq<char>) -> Option<int> {
    match decimal_parsed(s) {
        None => None,
        Some((m, sc)) => parts_value(m as int, sc as nat),
    }
}

/// The entry a stored row reads as, or the first field, in the order
/// category, id, currency, amount, account, that cannot be read. An amount
/// below zero cannot be read: the category carries the direction.
pub open spec fn stored_entry(r: TransactionSQLite) -> Result<Transaction, ConversionError> {
    match kind_of_key(r.category@) {
        None => Err(ConversionError::Category),
        Some(k) => match category_of(k, stored_trade_id(r.trade_id)) {
            None => Err(ConversionError::Category),
            Some(c) => match uuid_parsed(r.id@) {
                None => Err(ConversionError::Id),
                Some(id) => match currency_of_code(r.currency@) {
                    None => Err(ConversionError::Currency),
                    Some(cur) => match stored_amount(r.amount@) {
                        None => Err(ConversionError::Amount),
                        Some(v) => if v < 0 {
                            Err(ConversionError::Amount)
                        } else {
                            match uuid_parsed(r.account_id@) {
                            None => Err(ConversionError::AccountId),
                            Some(a) => Ok(
                                Transaction {
                                    id,
                                    account_id: a,
                                    currency: cur,
                                    amount: money_of(v),
                                    category: c,
                                    created_at: r.created_at,
                                    deleted_at: r.deleted_at,
                                },
                            ),
                            }
                        },
                    },
                },
            },
        },
    }
}

impl TransactionSQLite {
    /// Reads the stored row as a ledger entry.
    pub fn into_domain_model(self) -> (r: Result<Transaction, ConversionError>)
        ensures
            r == stored_entry(self),
    {
        let trade_id = match &self.trade_id {
            Some(s) => parse_uuid(s.as_str()),
            None => None,
        };
        let category = match TransactionCategory::parse(self.category.as_str(), trade_id) {
            Ok(c) => c,
            Err(_) => return Err(ConversionError::Category),
        };
        let id = match parse_uuid(self.id.as_str()) {
            Some(id) => id,
            None => return Err(ConversionError::Id),
        };
        let currency = match Currency::parse(self.currency.as_str()) {
            Some(c) => c,
            None => return Err(ConversionError::Currency),
        };
        let amount = match parse_decimal(self.amount.as_str()) {
            None => return Err(ConversionError::Amount),
            Some((m, sc)) => match Money::from_parts(m, sc) {
                Some(v) => v,
                None => return Err(ConversionError::Amount),
            },
        };
        if amount.is_negative() {
            return Err(ConversionError::Amount);
        }
        proof {
            crate::money::lemma_money_eq(amount);
        }
        let account_id = match parse_uuid(self.account_id.as_str()) {
            Some(a) => a,
            None => return Err(ConversionError::AccountId),
        };
        Ok(
            Transaction {
                id,
                account_id,
                currency,
                amount,
                category,
                created_at: self.created_at,
                deleted_at: self.deleted_at,
            },
        )
    }
}

impl NewTransaction {
    /// The row that stores an entry: ids as hyphenated UUID text, the
    /// currency by its code, the category by its key with its trade id
    /// beside it, and the amount as decimal text at `SCALE` places.
    pub fn from_transaction(t: &Transaction) -> (r: NewTransaction)
        ensures
            r.id@ == uuid_text_of(t.id),
            r.created_at == t.created_at,
            r.updated_at == t.created_at,
            r.deleted_at == t.deleted_at,
            r.currency@ == crate::category::currency_code(t.currency),
            r.category@ == key_of(kind_of(t.category)),
            r.amount@ == decimal_text_of(t.amount@ as i128, SCALE),
            r.account_id@ == uuid_text_of(t.account_id),
            match trade_of(t.category) {
                Some(x) => r.trade_id matches Some(s) && s@ == uuid_text_of(x),
                None => r.trade_id is None,
            },
    {
        let units = t.amount.units();
        let trade_id = match t.category.trade_id() {
            Some(x) => Some(uuid_text(x)),
            None => None,
        };
        NewTransaction {
            id: uuid_text(t.id),
            created_at: t.created_at,
            updated_at: t.created_at,
            deleted_at: t.deleted_at,
            currency: t.currency.code().to_owned(),
            category: t.category.key().to_owned(),
            amount: decimal_text(units, SCALE),
            account_id: uuid_text(t.account_id),
            trade_id,
        }
    }
}

} // verus!
