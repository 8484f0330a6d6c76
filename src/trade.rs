use vstd::prelude::*;
use crate::category::Currency;
use crate::money::Money;

verus! {

/// Where a trade stands in its life. `Closed` and `Canceled` are terminal.
#[derive(Clone, Copy, Debug, PartialEq, Eq, Structural)]
pub enum Status {
    New,
    Funded,
    Submitted,
    PartiallyFilled,
    Filled,
    Closed,
    Canceled,
}

#[derive(Clone, Copy, Debug, PartialEq, Eq, Structural)]
pub enum OrderAction {
    Buy,
    Sell,
}

#[derive(Clone, Copy, Debug, PartialEq, Eq, Structural)]
pub enum OrderCategory {
    Market,
    Limit,
    Stop,
}

/// One of a trade's three orders. Timestamps are seconds since the epoch.
#[derive(Clone, Copy, Debug, PartialEq, Eq)]
pub struct Order {
    pub id: u128,
    pub trading_vehicle_id: u128,
    pub quantity: u64,
    pub price: Money,
    pub action: OrderAction,
    pub category: OrderCategory,
    pub created_at: i64,
    pub submitted_at: Option<i64>,
    pub filled_at: Option<i64>,
    pub closed_at: Option<i64>,
    pub broker_order_id: Option<u128>,
}

/// The cached figures of a trade, recomputed from the ledger.
#[derive(Clone, Copy, Debug, PartialEq, Eq)]
pub struct TradeBalance {
    pub funding: Money,
    pub capital_in_market: Money,
    pub capital_out_of_market: Money,
    pub taxed: Money,
    pub total_performance: Money,
}

/// A trade: an entry order, a safety stop and a target on one vehicle.
#[derive(Clone, Copy, Debug, PartialEq, Eq)]
pub struct Trade {
    pub id: u128,
    pub account_id: u128,
    pub currency: Currency,
    pub status: Status,
    pub entry: Order,
    pub safety_stop: Order,
    pub target: Order,
    pub balance: TradeBalance,
}

/// The trades of `s` of the account in `status`, in order.
pub open spec fn trades_in_status(s: Seq<Trade>, account_id: u128, status: Status) -> Seq<Trade>
    decreases s.len(),
{
    if s.len() == 0 {
        Seq::empty()
    } else {
        trades_in_status(s.drop_last(), account_id, status) + if s.last().account_id == account_id
            && s.last().status == status {
            seq![s.last()]
        } else {
            Seq::empty()
        }
    }
}

impl Trade {
    /// The trades of the account in `status`, in the order given.
    pub fn with_status(trades: &Vec<Trade>, account_id: u128, status: Status) -> (r: Vec<Trade>)
        ensures
            r@ == trades_in_status(trades@, account_id, status),
    {
        let mut out: Vec<Trade> = Vec::new();
        let mut i: usize = 0;
        while i < trades.len()
            invariant
                i <= trades@.len(),
                out@ == trades_in_status(trades@.subrange(0, i as int), account_id, status),
            decreases trades@.len() - i,
        {
            assert(trades@.subrange(0, i + 1).drop_last() =~= trades@.subrange(0, i as int));
            let t = trades[i];
            if t.account_id == account_id && t.status == status {
                out.push(t);
            }
            i = i + 1;
        }
        assert(trades@.subrange(0, trades@.len() as int) =~= trades@);
        out
    }
}

} // verus!
