//! Orders, per-user fee totals, deposit balances, and the user aggregate.

use vstd::prelude::*;

use crate::errors::ErrorCode;
use crate::position::{MarketPosition, PositionDirection};

verus! {

/// How an order discovers its execution price.
#[derive(Clone, Copy, Debug, PartialEq, Eq, Structural)]
pub enum OrderType {
    /// Price interpolates through a dutch auction from `auction_start_price`
    /// to `auction_end_price` over `auction_duration` slots.
    Market,
    /// Price is the fixed `price` field.
    Limit,
}

/// Lifecycle state of an order. Fulfillment only ever moves an order toward
/// its terminal state; a fully filled order is reset to the default value.
#[derive(Clone, Copy, Debug, PartialEq, Eq, Structural)]
pub enum OrderStatus {
    /// The canonical empty state; also the state of a closed order.
    Init,
    /// Placed and fillable.
    Open,
}

/// A single order. `base_asset_amount` is the requested size and
/// `base_asset_amount_filled` the part already executed; the remaining
/// fillable size is their difference and is never negative.
#[derive(Clone, Copy, Debug, PartialEq, Eq, Structural)]
pub struct Order {
    pub status: OrderStatus,
    pub order_type: OrderType,
    pub market_index: u64,
    pub direction: PositionDirection,
    pub base_asset_amount: u128,
    pub base_asset_amount_filled: u128,
    pub quote_asset_amount_filled: u128,
    pub price: u128,
    pub post_only: bool,
    pub ts: i64,
    pub slot: u64,
    pub auction_start_price: u128,
    pub auction_end_price: u128,
    pub auction_duration: u64,
}

impl Order {
    /// The canonical empty order: every field zero, `Init` status.
    pub open spec fn spec_default() -> Order {
        Order {
            status: OrderStatus::Init,
            order_type: OrderType::Market,
            market_index: 0,
            direction: PositionDirection::Long,
            base_asset_amount: 0,
            base_asset_amount_filled: 0,
            quote_asset_amount_filled: 0,
            price: 0,
            post_only: false,
            ts: 0,
            slot: 0,
            auction_start_price: 0,
            auction_end_price: 0,
            auction_duration: 0,
        }
    }

    /// The filled part never exceeds the requested size.
    pub open spec fn is_well_formed(self) -> bool {
        self.base_asset_amount_filled <= self.base_asset_amount
    }

    /// Remaining fillable size, as a mathematical integer.
    pub open spec fn spec_unfilled(self) -> int {
        self.base_asset_amount - self.base_asset_amount_filled
    }

    /// Remaining fillable size; a math error on a malformed order whose
    /// filled part exceeds its requested size.
    pub fn get_base_asset_amount_unfilled(&self) -> (r: Result<u128, ErrorCode>)
        ensures
            self.is_well_formed() ==> r == Ok::<u128, ErrorCode>(self.spec_unfilled() as u128),
            !self.is_well_formed() ==> r == Err::<u128, ErrorCode>(ErrorCode::MathError),
    {
        match self.base_asset_amount.checked_sub(self.base_asset_amount_filled) {
            Some(v) => Ok(v),
            None => Err(ErrorCode::MathError),
        }
    }
}

impl Default for Order {
    /// The canonical empty order.
    fn default() -> (r: Order)
        ensures
            r == Order::spec_default(),
    {
        Order {
            status: OrderStatus::Init,
            order_type: OrderType::Market,
            market_index: 0,
            direction: PositionDirection::Long,
            base_asset_amount: 0,
            base_asset_amount_filled: 0,
            quote_asset_amount_filled: 0,
            price: 0,
            post_only: false,
            ts: 0,
            slot: 0,
            auction_start_price: 0,
            auction_end_price: 0,
            auction_duration: 0,
        }
    }
}

/// Cumulative fee totals of one user.
#[derive(Clone, Copy, Debug, PartialEq, Eq, Structural)]
pub struct UserFees {
    /// Taker fees debited, over the user's lifetime.
    pub total_fee_paid: u64,
    /// Maker rebates credited, over the user's lifetime.
    pub total_fee_rebate: u64,
    /// Referral discounts applied; carried through, never computed here.
    pub total_referee_discount: u64,
    /// Fee-token discounts applied; carried through, never computed here.
    pub total_token_discount: u64,
}

impl UserFees {
    /// All totals zero.
    pub open spec fn spec_default() -> UserFees {
        UserFees {
            total_fee_paid: 0,
            total_fee_rebate: 0,
            total_referee_discount: 0,
            total_token_discount: 0,
        }
    }
}

impl Default for UserFees {
    /// All totals zero.
    fn default() -> (r: UserFees)
        ensures
            r == UserFees::spec_default(),
    {
        UserFees { total_fee_paid: 0, total_fee_rebate: 0, total_referee_discount: 0, total_token_discount: 0 }
    }
}

/// Whether a bank balance is an asset or a liability of the user.
#[derive(Clone, Copy, Debug, PartialEq, Eq, Structural)]
pub enum BankBalanceType {
    Deposit,
    Borrow,
}

/// One deposit-bank balance of a user, in bank interest precision.
#[derive(Clone, Copy, Debug, PartialEq, Eq, Structural)]
pub struct UserBankBalance {
    pub bank_index: u64,
    pub balance_type: BankBalanceType,
    pub balance: u128,
}

/// A user aggregate: the orders, per-market positions and deposit balances
/// that one fulfillment call may mutate.
#[derive(Clone, Debug, PartialEq, Eq)]
pub struct User {
    pub orders: Vec<Order>,
    pub positions: Vec<MarketPosition>,
    pub bank_balances: Vec<UserBankBalance>,
    pub fees: UserFees,
}

impl User {
    /// Two user values agree on every field.
    pub open spec fn spec_eq(self, other: User) -> bool {
        &&& self.orders@ == other.orders@
        &&& self.positions@ == other.positions@
        &&& self.bank_balances@ == other.bank_balances@
        &&& self.fees == other.fees
    }
}

impl Default for User {
    /// No orders, no positions, no balances, zero fee totals.
    fn default() -> (r: User)
        ensures
            r.orders@ == Seq::<Order>::empty(),
            r.positions@ == Seq::<MarketPosition>::empty(),
            r.bank_balances@ == Seq::<UserBankBalance>::empty(),
            r.fees == UserFees::spec_default(),
    {
        User {
            orders: Vec::new(),
            positions: Vec::new(),
            bank_balances: Vec::new(),
            fees: UserFees { total_fee_paid: 0, total_fee_rebate: 0, total_referee_discount: 0, total_token_discount: 0 },
        }
    }
}

/// A deep copy of a user, made before a tentative fill so that a margin
/// breach can restore the exact pre-trade state.
pub fn snapshot_user(u: &User) -> (r: User)
    ensures
        r.spec_eq(*u),
{
    let mut orders: Vec<Order> = Vec::new();
    let mut i: usize = 0;
    while i < u.orders.len()
        invariant
            i <= u.orders.len(),
            orders@.len() == i,
            forall|x: int| 0 <= x < i ==> orders@[x] == u.orders@[x],
        decreases u.orders.len() - i,
    {
        orders.push(u.orders[i]);
        i = i + 1;
    }
    let mut positions: Vec<MarketPosition> = Vec::new();
    let mut j: usize = 0;
    while j < u.positions.len()
        invariant
            j <= u.positions.len(),
            positions@.len() == j,
            forall|x: int| 0 <= x < j ==> positions@[x] == u.positions@[x],
        decreases u.positions.len() - j,
    {
        positions.push(u.positions[j]);
        j = j + 1;
    }
    let mut bank_balances: Vec<UserBankBalance> = Vec::new();
    let mut k: usize = 0;
    while k < u.bank_balances.len()
        invariant
            k <= u.bank_balances.len(),
            bank_balances@.len() == k,
            forall|x: int| 0 <= x < k ==> bank_balances@[x] == u.bank_balances@[x],
        decreases u.bank_balances.len() - k,
    {
        bank_balances.push(u.bank_balances[k]);
        k = k + 1;
    }
    proof {
        assert(orders@ =~= u.orders@);
        assert(positions@ =~= u.positions@);
        assert(bank_balances@ =~= u.bank_balances@);
    }
    User { orders, positions, bank_balances, fees: u.fees }
}

} // verus!
