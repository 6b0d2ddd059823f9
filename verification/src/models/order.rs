//! A single buy or sell transaction against a position.

use vstd::prelude::*;
use crate::fixed::{div_trunc_i128, fits_units, fix_div, fix_mul, mul_i128, Fixed};
use crate::models::action::Action;
use crate::models::position::Position;

verus! {

#[derive(Clone, Copy, Debug, PartialEq, Eq, Structural)]
pub struct Order {
    pub id: i32,
    pub action: Action,
    pub amount: Fixed,
    pub value: Fixed,
    pub price: Fixed,
    pub income: Fixed,
}

/// The largest order id in a non-empty order list (zero for an empty one).
pub open spec fn max_order_id(s: Seq<Order>) -> int
    decreases s.len(),
{
    if s.len() == 0 {
        0
    } else {
        let m = max_order_id(s.drop_last());
        if s.last().id as int >= m || s.len() == 1 {
            s.last().id as int
        } else {
            m
        }
    }
}

/// An order's price: its value spread over its amount (zero for a zero
/// amount).
pub open spec fn order_price_units(value: int, amount: int) -> int {
    fix_div(value, amount)
}

/// An order's income: the gap between its price and the position's
/// average price, taken over the order's amount.
pub open spec fn order_income_units(price: int, avg_price: int, amount: int) -> int {
    fix_mul(price - avg_price, amount)
}

impl Order {
    /// Builds the next order of a position: it takes the next free id,
    /// its price is `value / amount`, and its income measures the price
    /// against the position's current average.
    pub fn new(pos: &Position, action: Action, amount: Fixed, value: Fixed) -> (r: Order)
        requires
            pos.orders@.len() >= 1,
            max_order_id(pos.orders@) < i32::MAX,
            fits_units(order_price_units(value@, amount@)),
            fits_units(
                order_income_units(
                    order_price_units(value@, amount@),
                    pos.avg_price@,
                    amount@,
                ),
            ),
        ensures
            r.id as int == max_order_id(pos.orders@) + 1,
            r.action == action,
            r.amount == amount,
            r.value == value,
            r.price@ == order_price_units(value@, amount@),
            r.income@ == order_income_units(r.price@, pos.avg_price@, amount@),
    {
        let price_units = div_trunc_i128(value.units as i128 * 10000, amount.units as i128);
        let price = Fixed { units: price_units as i64 };
        let diff: i128 = price.units as i128 - pos.avg_price.units as i128;
        let income_units = div_trunc_i128(mul_i128(diff, amount.units as i128), 10000);
        let income = Fixed { units: income_units as i64 };
        let id = max_id(&pos.orders) + 1;
        Order { id, action, amount, value, price, income }
    }

    /// [`Order::new`] behind its arithmetic guards: `None` exactly when
    /// the position has no orders, its ids are exhausted, or the price or
    /// income would not fit.
    pub fn try_new(pos: &Position, action: Action, amount: Fixed, value: Fixed) -> (r: Option<
        Order,
    >)
        ensures
            r is Some <==> {
                &&& pos.orders@.len() >= 1
                &&& max_order_id(pos.orders@) < i32::MAX
                &&& fits_units(order_price_units(value@, amount@))
                &&& fits_units(
                    order_income_units(
                        order_price_units(value@, amount@),
                        pos.avg_price@,
                        amount@,
                    ),
                )
            },
            r matches Some(o) ==> {
                &&& o.id as int == max_order_id(pos.orders@) + 1
                &&& o.action == action
                &&& o.amount == amount
                &&& o.value == value
                &&& o.price@ == order_price_units(value@, amount@)
                &&& o.income@ == order_income_units(o.price@, pos.avg_price@, amount@)
            },
    {
        if pos.orders.len() == 0 {
            return None;
        }
        if max_id(&pos.orders) == i32::MAX {
            return None;
        }
        let price_units = div_trunc_i128(value.units as i128 * 10000, amount.units as i128);
        if price_units < i64::MIN as i128 || price_units > i64::MAX as i128 {
            return None;
        }
        let diff: i128 = price_units - pos.avg_price.units as i128;
        let income_units = div_trunc_i128(mul_i128(diff, amount.units as i128), 10000);
        if income_units < i64::MIN as i128 || income_units > i64::MAX as i128 {
            return None;
        }
        Some(Order::new(pos, action, amount, value))
    }
}

/// The largest id among a non-empty list of orders.
pub fn max_id(orders: &Vec<Order>) -> (r: i32)
    requires
        orders@.len() >= 1,
    ensures
        r as int == max_order_id(orders@),
{
    let mut m = orders[0].id;
    let mut i: usize = 1;
    proof {
        assert(orders@.take(1).drop_last() =~= Seq::<Order>::empty());
        assert(orders@.take(1).last() == orders@[0]);
    }
    while i < orders.len()
        invariant
            1 <= i <= orders@.len(),
            m as int == max_order_id(orders@.take(i as int)),
        decreases orders@.len() - i,
    {
        proof {
            assert(orders@.take(i as int + 1).drop_last() =~= orders@.take(i as int));
            assert(orders@.take(i as int + 1).last() == orders@[i as int]);
        }
        if orders[i].id > m {
            m = orders[i].id;
        }
        i = i + 1;
    }
    proof {
        assert(orders@.take(orders@.len() as int) =~= orders@);
    }
    m
}

} // verus!
