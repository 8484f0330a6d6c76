use vstd::prelude::*;
use crate::trade::Status;

verus! {

/// What made an input malformed.
#[derive(Clone, Copy, Debug, PartialEq, Eq, Structural)]
pub enum ValidationError {
    /// An amount was below zero.
    NegativeAmount,
    /// The trade id given disagrees with the one the category carries.
    TradeIdMismatch,
    /// A transaction id is already in the ledger.
    DuplicateId,
    /// No transaction has the id given.
    UnknownTransaction,
    /// The orders of a trade are not on one trading vehicle.
    VehicleMismatch,
    /// Entry and safety stop have the same price.
    ZeroSpread,
    /// An order quantity was zero.
    ZeroQuantity,
    /// The account holds less capital than the trade requires.
    InsufficientBalance,
    /// The trade holds less funding than its entry requires.
    InsufficientFunding,
    /// A timestamp lies before the event it must follow.
    TimeOrder,
    /// A trade was handed with an account it does not belong to.
    AccountMismatch,
    /// An order the broker was meant to hold has no broker id.
    MissingBrokerOrder,
    /// A timestamp lies outside the calendar's range.
    TimeOutOfRange,
}

#[derive(Clone, Copy, Debug, PartialEq, Eq, Structural)]
pub enum ArithmeticOp {
    Add,
    Sub,
    Mul,
}

/// Every failure of the engine, with the context needed to report it.
#[derive(Clone, Debug, PartialEq, Eq)]
pub enum TradeError {
    Validation(ValidationError),
    /// `lhs op rhs` left the representable range. Amounts are given in
    /// units; the right operand of `Mul` is a count.
    ArithmeticOverflow { op: ArithmeticOp, lhs: i128, rhs: i128 },
    IllegalTransition { from: Status, to: Status },
    RuleViolation { rule_name: String },
    /// A calculator was asked about a trade in a status it does not serve.
    InvalidState { status: Status },
}

} // verus!
