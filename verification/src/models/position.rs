//! A tracked holding: a named position built from a list of orders.
//!
//! The position's aggregates are functions of its order list: the net
//! amount adds same-action amounts and subtracts opposite ones, the
//! average price is the mean price of same-action orders, the income
//! accumulates the incomes of opposite-action orders, and the average
//! value is the net amount taken at the average price.

use vstd::prelude::*;
use vstd::string::StringExecFns;
use crate::clock::now_millis;
use crate::fixed::{
    div_trunc, div_trunc_i128, fits_units, fix_mul, lemma_div_trunc_bound, mul_i128, Fixed,
    SCALE,
};
use crate::models::action::Action;
use crate::models::order::{max_order_id, order_income_units, order_price_units, Order};
use crate::text::{i32_to_string, int_str};

verus! {

#[derive(Debug)]
pub struct Position {
    pub id: i32,
    pub edited_at: i64,
    pub action: Action,
    pub name: String,
    pub amount: Fixed,
    pub avg_value: Fixed,
    pub avg_price: Fixed,
    pub income: Fixed,
    pub orders: Vec<Order>,
}

/// The mathematical content of a position.
pub ghost struct PositionV {
    pub id: int,
    pub edited_at: int,
    pub action: Action,
    pub name: Seq<char>,
    pub amount: int,
    pub avg_value: int,
    pub avg_price: int,
    pub income: int,
    pub orders: Seq<Order>,
}

impl View for Position {
    type V = PositionV;

    open spec fn view(&self) -> PositionV {
        PositionV {
            id: self.id as int,
            edited_at: self.edited_at as int,
            action: self.action,
            name: self.name@,
            amount: self.amount@,
            avg_value: self.avg_value@,
            avg_price: self.avg_price@,
            income: self.income@,
            orders: self.orders@,
        }
    }
}

/// Net amount: same-action amounts count positive, opposite ones negative.
pub open spec fn net_amount(action: Action, s: Seq<Order>) -> int
    decreases s.len(),
{
    if s.len() == 0 {
        0
    } else {
        net_amount(action, s.drop_last()) + if s.last().action == action {
            s.last().amount@
        } else {
            -(s.last().amount@)
        }
    }
}

/// Sum of the prices of same-action orders.
pub open spec fn same_price_sum(action: Action, s: Seq<Order>) -> int
    decreases s.len(),
{
    if s.len() == 0 {
        0
    } else {
        same_price_sum(action, s.drop_last()) + if s.last().action == action {
            s.last().price@
        } else {
            0
        }
    }
}

/// How many orders share the position's action.
pub open spec fn same_count(action: Action, s: Seq<Order>) -> int
    decreases s.len(),
{
    if s.len() == 0 {
        0
    } else {
        same_count(action, s.drop_last()) + if s.last().action == action {
            1int
        } else {
            0int
        }
    }
}

/// Sum of the values of same-action orders.
pub open spec fn same_value_sum(action: Action, s: Seq<Order>) -> int
    decreases s.len(),
{
    if s.len() == 0 {
        0
    } else {
        same_value_sum(action, s.drop_last()) + if s.last().action == action {
            s.last().value@
        } else {
            0
        }
    }
}

/// Accumulated income: the incomes of opposite-action orders.
pub open spec fn opp_income_sum(action: Action, s: Seq<Order>) -> int
    decreases s.len(),
{
    if s.len() == 0 {
        0
    } else {
        opp_income_sum(action, s.drop_last()) + if s.last().action != action {
            s.last().income@
        } else {
            0
        }
    }
}

/// Average price: the mean price of same-action orders, zero when there
/// are none.
pub open spec fn avg_price_of(action: Action, s: Seq<Order>) -> int {
    div_trunc(same_price_sum(action, s), same_count(action, s))
}

/// Average value: the net amount taken at the average price.
pub open spec fn avg_value_of(action: Action, s: Seq<Order>) -> int {
    fix_mul(net_amount(action, s), avg_price_of(action, s))
}

/// Whether every aggregate of the order list fits the unit type.
pub open spec fn aggregates_fit(action: Action, s: Seq<Order>) -> bool {
    &&& fits_units(net_amount(action, s))
    &&& fits_units(avg_price_of(action, s))
    &&& fits_units(avg_value_of(action, s))
    &&& fits_units(opp_income_sum(action, s))
}

/// One more unit than any single order field can carry.
pub open spec fn unit_bound() -> int {
    0x8000_0000_0000_0000
}

/// Each aggregate sum is bounded by the list length times the field bound.
pub proof fn lemma_sum_bounds(action: Action, s: Seq<Order>)
    ensures
        -(s.len() as int) * unit_bound() <= net_amount(action, s) <= (s.len() as int)
            * unit_bound(),
        -(s.len() as int) * unit_bound() <= same_price_sum(action, s) <= (s.len() as int)
            * unit_bound(),
        0 <= same_count(action, s) <= s.len() as int,
        -(s.len() as int) * unit_bound() <= same_value_sum(action, s) <= (s.len() as int)
            * unit_bound(),
        -(s.len() as int) * unit_bound() <= opp_income_sum(action, s) <= (s.len() as int)
            * unit_bound(),
    decreases s.len(),
{
    if s.len() > 0 {
        lemma_sum_bounds(action, s.drop_last());
    }
}

/// Recomputes the four aggregates of an order list; in the result they
/// stand as net amount, average price, average value and income.
fn compute_sums(action: Action, orders: &Vec<Order>) -> (r: (i128, i128, i128, i128))
    ensures
        r.0 == net_amount(action, orders@),
        r.1 == same_price_sum(action, orders@),
        r.2 == same_count(action, orders@),
        r.3 == opp_income_sum(action, orders@),
        orders@.len() <= usize::MAX,
{
    let mut net: i128 = 0;
    let mut psum: i128 = 0;
    let mut cnt: i128 = 0;
    let mut inc: i128 = 0;
    let n = orders.len();
    let mut i: usize = 0;
    while i < n
        invariant
            n == orders@.len(),
            0 <= i <= orders@.len(),
            net == net_amount(action, orders@.take(i as int)),
            psum == same_price_sum(action, orders@.take(i as int)),
            cnt == same_count(action, orders@.take(i as int)),
            inc == opp_income_sum(action, orders@.take(i as int)),
        decreases orders@.len() - i,
    {
        proof {
            assert(orders@.take(i as int + 1).drop_last() =~= orders@.take(i as int));
            assert(orders@.take(i as int + 1).last() == orders@[i as int]);
            lemma_sum_bounds(action, orders@.take(i as int));
        }
        let o = orders[i];
        if o.action == action {
            net = net + o.amount.units as i128;
            psum = psum + o.price.units as i128;
            cnt = cnt + 1;
        } else {
            net = net - o.amount.units as i128;
            inc = inc + o.income.units as i128;
        }
        i = i + 1;
    }
    proof {
        assert(orders@.take(orders@.len() as int) =~= orders@);
    }
    (net, psum, cnt, inc)
}

/// The aggregates of an order list as unit values: `None` exactly when
/// one of them falls outside the unit type.
fn recompute(action: Action, orders: &Vec<Order>) -> (r: Option<(Fixed, Fixed, Fixed, Fixed)>)
    ensures
        r is Some <==> aggregates_fit(action, orders@),
        r matches Some(t) ==> {
            &&& t.0@ == net_amount(action, orders@)
            &&& t.1@ == avg_price_of(action, orders@)
            &&& t.2@ == avg_value_of(action, orders@)
            &&& t.3@ == opp_income_sum(action, orders@)
        },
{
    let (net, psum, cnt, inc) = compute_sums(action, orders);
    proof {
        lemma_sum_bounds(action, orders@);
    }
    if net < i64::MIN as i128 || net > i64::MAX as i128 {
        return None;
    }
    let avg = div_trunc_i128(psum, cnt);
    if avg < i64::MIN as i128 || avg > i64::MAX as i128 {
        return None;
    }
    let av = div_trunc_i128(mul_i128(net, avg), 10000);
    if av < i64::MIN as i128 || av > i64::MAX as i128 {
        return None;
    }
    if inc < i64::MIN as i128 || inc > i64::MAX as i128 {
        return None;
    }
    Some(
        (
            Fixed { units: net as i64 },
            Fixed { units: avg as i64 },
            Fixed { units: av as i64 },
            Fixed { units: inc as i64 },
        ),
    )
}

/// Whether an order list's aggregates all fit the unit type.
pub fn recompute_check(action: Action, orders: &Vec<Order>) -> (b: bool)
    ensures
        b == aggregates_fit(action, orders@),
{
    recompute(action, orders).is_some()
}

/// An element-wise copy of an order list.
pub fn copy_orders(v: &Vec<Order>) -> (r: Vec<Order>)
    ensures
        r@ == v@,
{
    let mut r: Vec<Order> = Vec::new();
    let mut i: usize = 0;
    while i < v.len()
        invariant
            0 <= i <= v@.len(),
            r@ == v@.take(i as int),
        decreases v@.len() - i,
    {
        r.push(v[i]);
        proof {
            assert(v@.take(i as int + 1) =~= v@.take(i as int).push(v@[i as int]));
        }
        i = i + 1;
    }
    proof {
        assert(v@.take(v@.len() as int) =~= v@);
    }
    r
}

/// Where an order with the given id first stands in the list.
pub open spec fn find_order_index(s: Seq<Order>, id: int) -> Option<int>
    decreases s.len(),
{
    if s.len() == 0 {
        None
    } else if s[0].id as int == id {
        Some(0)
    } else {
        match find_order_index(s.drop_first(), id) {
            Some(k) => Some(k + 1),
            None => None,
        }
    }
}

proof fn lemma_find_order_index_at(s: Seq<Order>, id: int, i: int)
    requires
        0 <= i < s.len(),
        forall|k: int| 0 <= k < i ==> s[k].id as int != id,
        s[i].id as int == id,
    ensures
        find_order_index(s, id) == Some(i),
    decreases i,
{
    if i == 0 {
    } else {
        lemma_find_order_index_at(s.drop_first(), id, i - 1);
    }
}

proof fn lemma_find_order_index_none(s: Seq<Order>, id: int)
    requires
        forall|k: int| 0 <= k < s.len() ==> s[k].id as int != id,
    ensures
        find_order_index(s, id) is None,
    decreases s.len(),
{
    if s.len() > 0 {
        lemma_find_order_index_none(s.drop_first(), id);
    }
}

/// Where an order with the given id first stands, found by scanning.
pub fn find_order(orders: &Vec<Order>, id: i32) -> (r: Option<usize>)
    ensures
        match r {
            Some(i) => 0 <= i < orders@.len() && find_order_index(orders@, id as int) == Some(
                i as int,
            ),
            None => find_order_index(orders@, id as int) is None,
        },
{
    let n = orders.len();
    let mut i: usize = 0;
    while i < n
        invariant
            n == orders@.len(),
            0 <= i <= n,
            forall|k: int| 0 <= k < i ==> orders@[k].id as int != id as int,
        decreases n - i,
    {
        if orders[i].id == id {
            proof {
                lemma_find_order_index_at(orders@, id as int, i as int);
            }
            return Some(i);
        }
        i = i + 1;
    }
    proof {
        lemma_find_order_index_none(orders@, id as int);
    }
    None
}

/// The message for removing an order that the position does not hold.
pub open spec fn order_not_found_message(order_id: int, pos_id: int) -> Seq<char> {
    "Order with id "@ + int_str(order_id) + " not found in position "@ + int_str(pos_id)
}

/// The message for a removal whose recomputed totals would not fit.
pub open spec fn remove_overflow_message() -> Seq<char> {
    "Position totals would overflow"@
}

/// The sum of the opposite-action orders' price gaps against a given
/// average, each taken over the order's amount.
pub open spec fn profit_sum(action: Action, avg: int, s: Seq<Order>) -> int
    decreases s.len(),
{
    if s.len() == 0 {
        0
    } else {
        profit_sum(action, avg, s.drop_last()) + if s.last().action != action {
            fix_mul(s.last().price@ - avg, s.last().amount@)
        } else {
            0
        }
    }
}

/// Stable insertion of an order into a list sorted by ascending id.
pub open spec fn insert_by_id(x: Order, s: Seq<Order>) -> Seq<Order>
    decreases s.len(),
{
    if s.len() == 0 {
        seq![x]
    } else if s.last().id <= x.id {
        s.push(x)
    } else {
        insert_by_id(x, s.drop_last()).push(s.last())
    }
}

/// The order list sorted by ascending id, equal ids keeping their order.
pub open spec fn sort_by_id(s: Seq<Order>) -> Seq<Order>
    decreases s.len(),
{
    if s.len() == 0 {
        Seq::empty()
    } else {
        insert_by_id(s.last(), sort_by_id(s.drop_last()))
    }
}

pub proof fn lemma_insert_by_id_len(x: Order, s: Seq<Order>)
    ensures
        insert_by_id(x, s).len() == s.len() + 1,
    decreases s.len(),
{
    if s.len() > 0 && !(s.last().id <= x.id) {
        lemma_insert_by_id_len(x, s.drop_last());
    }
}

pub proof fn lemma_sort_by_id_len(s: Seq<Order>)
    ensures
        sort_by_id(s).len() == s.len(),
    decreases s.len(),
{
    if s.len() > 0 {
        lemma_sort_by_id_len(s.drop_last());
        lemma_insert_by_id_len(s.last(), sort_by_id(s.drop_last()));
    }
}

proof fn lemma_insert_by_id_at(x: Order, s: Seq<Order>, p: int)
    requires
        0 <= p <= s.len(),
        forall|k: int| p <= k < s.len() ==> s[k].id > x.id,
        p > 0 ==> s[p - 1].id <= x.id,
    ensures
        insert_by_id(x, s) =~= s.subrange(0, p).push(x) + s.subrange(p, s.len() as int),
    decreases s.len(),
{
    if s.len() == 0 {
    } else if p == s.len() {
        assert(s.subrange(0, p) =~= s);
        assert(s.subrange(p, s.len() as int) =~= Seq::<Order>::empty());
    } else {
        assert(s[s.len() - 1].id > x.id);
        lemma_insert_by_id_at(x, s.drop_last(), p);
        assert(s.drop_last().subrange(0, p) =~= s.subrange(0, p));
        assert(s.drop_last().subrange(p, s.len() - 1) =~= s.subrange(p, s.len() - 1));
    }
}

/// Sorts a list of orders by ascending id, as `sort_by_id` states.
pub fn sorted_by_id(orders: Vec<Order>) -> (r: Vec<Order>)
    ensures
        r@ == sort_by_id(orders@),
{
    let mut r: Vec<Order> = Vec::new();
    let mut i: usize = 0;
    while i < orders.len()
        invariant
            0 <= i <= orders@.len(),
            r@ == sort_by_id(orders@.take(i as int)),
        decreases orders@.len() - i,
    {
        let x = orders[i];
        let mut p: usize = r.len();
        while p > 0 && r[p - 1].id > x.id
            invariant
                0 <= p <= r@.len(),
                forall|k: int| p <= k < r@.len() ==> r@[k].id > x.id,
            decreases p,
        {
            p = p - 1;
        }
        proof {
            lemma_insert_by_id_at(x, r@, p as int);
            assert(orders@.take(i as int + 1).drop_last() =~= orders@.take(i as int));
            assert(orders@.take(i as int + 1).last() == orders@[i as int]);
        }
        r.insert(p, x);
        proof {
            assert(r@ =~= sort_by_id(orders@.take(i as int)).subrange(0, p as int).push(x)
                + sort_by_id(orders@.take(i as int)).subrange(
                    p as int,
                    sort_by_id(orders@.take(i as int)).len() as int,
                ));
        }
        i = i + 1;
    }
    proof {
        assert(orders@.take(orders@.len() as int) =~= orders@);
    }
    r
}

impl Clone for Position {
    /// A clone carries the same mathematical content.
    fn clone(&self) -> (r: Self)
        ensures
            r@ == self@,
    {
        Position {
            id: self.id,
            edited_at: self.edited_at,
            action: self.action,
            name: self.name.clone(),
            amount: self.amount,
            avg_value: self.avg_value,
            avg_price: self.avg_price,
            income: self.income,
            orders: copy_orders(&self.orders),
        }
    }
}

impl Position {
    /// The stored aggregates agree with the order list.
    pub open spec fn consistent(self) -> bool {
        &&& self.amount@ == net_amount(self.action, self.orders@)
        &&& self.avg_price@ == avg_price_of(self.action, self.orders@)
        &&& self.avg_value@ == avg_value_of(self.action, self.orders@)
        &&& self.income@ == opp_income_sum(self.action, self.orders@)
    }

    /// Builds a position from its orders: they are sorted by id, the
    /// earliest order fixes the position's action, and the aggregates
    /// follow from the list.
    pub fn new(id: i32, name: String, orders: Vec<Order>) -> (r: Position)
        requires
            orders@.len() >= 1,
            aggregates_fit(sort_by_id(orders@)[0].action, sort_by_id(orders@)),
        ensures
            r.id == id,
            r.name == name,
            r.orders@ == sort_by_id(orders@),
            r.action == sort_by_id(orders@)[0].action,
            r.consistent(),
    {
        proof {
            lemma_sort_by_id_len(orders@);
        }
        let sorted = sorted_by_id(orders);
        let action = sorted[0].action;
        let mut pos = Position {
            id,
            edited_at: now_millis(),
            action,
            name,
            amount: Fixed { units: 0 },
            avg_value: Fixed { units: 0 },
            avg_price: Fixed { units: 0 },
            income: Fixed { units: 0 },
            orders: sorted,
        };
        match recompute(pos.action, &pos.orders) {
            Some(t) => {
                pos.amount = t.0;
                pos.avg_price = t.1;
                pos.avg_value = t.2;
                pos.income = t.3;
            },
            None => {
                proof {
                    assert(false);
                }
            },
        }
        pos
    }

    /// Appends an order and recomputes every aggregate from the grown
    /// list.
    pub fn add_order(&mut self, order: Order)
        requires
            aggregates_fit(old(self).action, old(self).orders@.push(order)),
        ensures
            final(self).orders@ == old(self).orders@.push(order),
            final(self).id == old(self).id,
            final(self).edited_at == old(self).edited_at,
            final(self).action == old(self).action,
            final(self).name == old(self).name,
            final(self).consistent(),
    {
        self.orders.push(order);
        match recompute(self.action, &self.orders) {
            Some(t) => {
                self.amount = t.0;
                self.avg_price = t.1;
                self.avg_value = t.2;
                self.income = t.3;
            },
            None => {
                proof {
                    assert(false);
                }
            },
        }
    }

    /// [`Position::add_order`] behind its arithmetic guard: the order is
    /// added exactly when the grown list's aggregates fit.
    pub fn try_add_order(&mut self, order: Order) -> (ok: bool)
        ensures
            ok == aggregates_fit(old(self).action, old(self).orders@.push(order)),
            ok ==> {
                &&& final(self).orders@ == old(self).orders@.push(order)
                &&& final(self).id == old(self).id
                &&& final(self).edited_at == old(self).edited_at
                &&& final(self).action == old(self).action
                &&& final(self).name == old(self).name
                &&& final(self).consistent()
            },
            !ok ==> *final(self) == *old(self),
    {
        let mut candidate = copy_orders(&self.orders);
        candidate.push(order);
        match recompute(self.action, &candidate) {
            Some(t) => {
                self.orders = candidate;
                self.amount = t.0;
                self.avg_price = t.1;
                self.avg_value = t.2;
                self.income = t.3;
                true
            },
            None => false,
        }
    }

    /// Removes the order with the given id and recomputes the aggregates
    /// from the remaining list. The first order (id zero) cannot be
    /// removed; an id the position does not hold is reported; totals
    /// that would no longer fit leave the position unchanged. Removing
    /// the only order empties the list and keeps the stored aggregates.
    pub fn remove_order(&mut self, order_id: i32) -> (r: Result<(), String>)
        ensures
            ({
                let s = old(self).orders@;
                let found = find_order_index(s, order_id as int);
                match r {
                    Ok(()) => {
                        &&& order_id != 0
                        &&& found matches Some(idx) && {
                            let rem = s.remove(idx);
                            &&& aggregates_fit(old(self).action, rem)
                            &&& final(self).orders@ == rem
                            &&& final(self).id == old(self).id
                            &&& final(self).edited_at == old(self).edited_at
                            &&& final(self).action == old(self).action
                            &&& final(self).name == old(self).name
                            &&& if rem.len() == 0 {
                                &&& final(self).amount == old(self).amount
                                &&& final(self).avg_price == old(self).avg_price
                                &&& final(self).avg_value == old(self).avg_value
                                &&& final(self).income == old(self).income
                            } else {
                                final(self).consistent()
                            }
                        }
                    },
                    Err(m) => {
                        &&& *final(self) == *old(self)
                        &&& if order_id == 0 {
                            m@ == "Cannot remove first order"@
                        } else if found is None {
                            m@ == order_not_found_message(order_id as int, old(self).id as int)
                        } else {
                            &&& found matches Some(idx) && !aggregates_fit(
                                old(self).action,
                                s.remove(idx),
                            )
                            &&& m@ == remove_overflow_message()
                        }
                    },
                }
            }),
    {
        if order_id == 0 {
            return Err(String::from_str("Cannot remove first order"));
        }
        match find_order(&self.orders, order_id) {
            None => {
                let mut m = String::from_str("Order with id ");
                let oid = i32_to_string(order_id);
                m.append(oid.as_str());
                m.append(" not found in position ");
                let pid = i32_to_string(self.id);
                m.append(pid.as_str());
                proof {
                    assert(m@ =~= order_not_found_message(
                        order_id as int,
                        self.id as int,
                    ));
                }
                Err(m)
            },
            Some(idx) => {
                let mut rem = copy_orders(&self.orders);
                rem.remove(idx);
                if rem.len() == 0 {
                    self.orders = rem;
                    Ok(())
                } else {
                    match recompute(self.action, &rem) {
                        Some(t) => {
                            self.orders = rem;
                            self.amount = t.0;
                            self.avg_price = t.1;
                            self.avg_value = t.2;
                            self.income = t.3;
                            Ok(())
                        },
                        None => Err(String::from_str("Position totals would overflow")),
                    }
                }
            },
        }
    }

    /// The position's income as a share of what was put into it: the
    /// opposite-action orders' price gaps against the stored average,
    /// spread over the same-action orders' summed value, in hundredths.
    pub open spec fn income_percent_units(self) -> int {
        div_trunc(
            profit_sum(self.action, self.avg_price@, self.orders@) * (SCALE as int),
            same_value_sum(self.action, self.orders@),
        ) * 100
    }

    /// Whether the income percent and each of its summands fit the unit
    /// type.
    pub open spec fn income_percent_fits(self) -> bool {
        &&& forall|k: int|
            0 <= k < self.orders@.len() && self.orders@[k].action != self.action
                ==> fits_units(
                fix_mul(self.orders@[k].price@ - self.avg_price@, self.orders@[k].amount@),
            )
        &&& fits_units(profit_sum(self.action, self.avg_price@, self.orders@))
        &&& fits_units(self.income_percent_units())
    }

    /// The income percent, guarded: `None` exactly when some part of the
    /// computation would not fit.
    pub fn try_income_percent(&self) -> (r: Option<Fixed>)
        ensures
            r is Some <==> self.income_percent_fits(),
            r matches Some(p) ==> p@ == self.income_percent_units(),
    {
        let n = self.orders.len();
        let mut profit: i128 = 0;
        let mut invested: i128 = 0;
        let mut i: usize = 0;
        while i < n
            invariant
                n == self.orders@.len(),
                0 <= i <= n,
                profit == profit_sum(
                    self.action,
                    self.avg_price@,
                    self.orders@.take(i as int),
                ),
                invested == same_value_sum(self.action, self.orders@.take(i as int)),
                -(i as int) * unit_bound() <= profit <= (i as int) * unit_bound(),
                forall|k: int|
                    0 <= k < i && self.orders@[k].action != self.action ==> fits_units(
                        fix_mul(
                            self.orders@[k].price@ - self.avg_price@,
                            self.orders@[k].amount@,
                        ),
                    ),
            decreases n - i,
        {
            proof {
                assert(self.orders@.take(i as int + 1).drop_last() =~= self.orders@.take(
                    i as int,
                ));
                assert(self.orders@.take(i as int + 1).last() == self.orders@[i as int]);
                lemma_sum_bounds(self.action, self.orders@.take(i as int));
            }
            let o = self.orders[i];
            if o.action != self.action {
                let diff = o.price.units as i128 - self.avg_price.units as i128;
                let term = div_trunc_i128(mul_i128(diff, o.amount.units as i128), 10000);
                if term < i64::MIN as i128 || term > i64::MAX as i128 {
                    return None;
                }
                profit = profit + term;
            } else {
                invested = invested + o.value.units as i128;
            }
            i = i + 1;
        }
        proof {
            assert(self.orders@.take(self.orders@.len() as int) =~= self.orders@);
        }
        if profit < i64::MIN as i128 || profit > i64::MAX as i128 {
            return None;
        }
        let x = profit * 10000;
        proof {
            if x >= 0 {
                lemma_div_trunc_bound(x as int, invested as int);
            } else {
                lemma_div_trunc_bound(-(x as int), invested as int);
            }
        }
        let q = div_trunc_i128(x, invested);
        let p = q * 100;
        if p < i64::MIN as i128 || p > i64::MAX as i128 {
            return None;
        }
        Some(Fixed { units: p as i64 })
    }

    /// The income percent of a position whose computation fits, as
    /// [`Position::income_percent_units`] states.
    pub fn calculate_income_percent(&self) -> (r: Fixed)
        requires
            self.income_percent_fits(),
        ensures
            r@ == self.income_percent_units(),
    {
        match self.try_income_percent() {
            Some(p) => p,
            None => {
                proof {
                    assert(false);
                }
                Fixed { units: 0 }
            },
        }
    }

    /// The message for an order whose figures would not fit.
    pub open spec fn order_overflow_message() -> Seq<char> {
        "Order figures would overflow"@
    }

    /// The compute part of adding an order from console figures: a zero
    /// amount stands for closing the position, so the position's own
    /// amount is taken instead; the order is built against the current
    /// average price and appended.
    pub fn add_order_from_input(&mut self, action: Action, amount: Fixed, value: Fixed) -> (r:
        Result<(), String>)
        ensures
            ({
                let eff = if amount@ == 0 {
                    old(self).amount
                } else {
                    amount
                };
                let price = order_price_units(value@, eff@);
                let income = order_income_units(price, old(self).avg_price@, eff@);
                let buildable = {
                    &&& old(self).orders@.len() >= 1
                    &&& max_order_id(old(self).orders@) < i32::MAX
                    &&& fits_units(price)
                    &&& fits_units(income)
                };
                let o = Order {
                    id: (max_order_id(old(self).orders@) + 1) as i32,
                    action,
                    amount: eff,
                    value,
                    price: Fixed { units: price as i64 },
                    income: Fixed { units: income as i64 },
                };
                match r {
                    Ok(()) => {
                        &&& buildable
                        &&& aggregates_fit(old(self).action, old(self).orders@.push(o))
                        &&& final(self).orders@ == old(self).orders@.push(o)
                        &&& final(self).id == old(self).id
                        &&& final(self).edited_at == old(self).edited_at
                        &&& final(self).action == old(self).action
                        &&& final(self).name == old(self).name
                        &&& final(self).consistent()
                    },
                    Err(m) => {
                        &&& !(buildable && aggregates_fit(
                            old(self).action,
                            old(self).orders@.push(o),
                        ))
                        &&& *final(self) == *old(self)
                        &&& m@ == Position::order_overflow_message()
                    },
                }
            }),
    {
        let eff = if amount.units == 0 {
            self.amount
        } else {
            amount
        };
        match Order::try_new(self, action, eff, value) {
            None => Err(String::from_str("Order figures would overflow")),
            Some(o) => {
                if self.try_add_order(o) {
                    Ok(())
                } else {
                    Err(String::from_str("Order figures would overflow"))
                }
            },
        }
    }

    /// Marks the position as edited now.
    pub fn touch(&mut self)
        ensures
            final(self).id == old(self).id,
            final(self).action == old(self).action,
            final(self).name == old(self).name,
            final(self).amount == old(self).amount,
            final(self).avg_value == old(self).avg_value,
            final(self).avg_price == old(self).avg_price,
            final(self).income == old(self).income,
            final(self).orders == old(self).orders,
    {
        self.edited_at = now_millis();
    }
}

} // verus!
