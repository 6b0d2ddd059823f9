//! The stored shape of a position, and the rebuilding of the working
//! position from it.
//!
//! Storage keeps only each order's id, side, amount and value. Reading a
//! position back replays its orders in id order: the earliest order is
//! taken as it stands, and every later one is rebuilt against the
//! position grown so far, exactly as entering them anew would.

use vstd::prelude::*;
use vstd::string::StringExecFns;
use crate::fixed::{div_trunc_i128, fits_units, Fixed};
use crate::models::order::{max_order_id, order_income_units, order_price_units, Order};
use crate::models::position::{
    aggregates_fit, avg_price_of, net_amount, opp_income_sum, recompute_check, sort_by_id,
    avg_value_of, Position, PositionV,
};
use crate::positions::position_overflow_message;
use crate::text::{i32_to_string, int_str};
use super::action::{action_from_storage, action_to_storage, ActionStorageModel};
use super::order::OrderStorageModel;
use super::{FromModel, ToModel};

verus! {

#[derive(Debug)]
pub struct PositionStorageModel {
    pub id: i32,
    pub action: ActionStorageModel,
    pub name: String,
    pub orders: Vec<OrderStorageModel>,
}

/// Stable insertion of a stored order into a list sorted by ascending id.
pub open spec fn insert_model_by_id(x: OrderStorageModel, s: Seq<OrderStorageModel>) -> Seq<
    OrderStorageModel,
>
    decreases s.len(),
{
    if s.len() == 0 {
        seq![x]
    } else if s.last().id <= x.id {
        s.push(x)
    } else {
        insert_model_by_id(x, s.drop_last()).push(s.last())
    }
}

/// The stored orders sorted by ascending id, equal ids keeping their
/// order.
pub open spec fn sort_models_by_id(s: Seq<OrderStorageModel>) -> Seq<OrderStorageModel>
    decreases s.len(),
{
    if s.len() == 0 {
        Seq::empty()
    } else {
        insert_model_by_id(s.last(), sort_models_by_id(s.drop_last()))
    }
}

pub proof fn lemma_insert_model_len(x: OrderStorageModel, s: Seq<OrderStorageModel>)
    ensures
        insert_model_by_id(x, s).len() == s.len() + 1,
    decreases s.len(),
{
    if s.len() > 0 && !(s.last().id <= x.id) {
        lemma_insert_model_len(x, s.drop_last());
    }
}

pub proof fn lemma_sort_models_len(s: Seq<OrderStorageModel>)
    ensures
        sort_models_by_id(s).len() == s.len(),
    decreases s.len(),
{
    if s.len() > 0 {
        lemma_sort_models_len(s.drop_last());
        lemma_insert_model_len(s.last(), sort_models_by_id(s.drop_last()));
    }
}

proof fn lemma_insert_model_at(x: OrderStorageModel, s: Seq<OrderStorageModel>, p: int)
    requires
        0 <= p <= s.len(),
        forall|k: int| p <= k < s.len() ==> s[k].id > x.id,
        p > 0 ==> s[p - 1].id <= x.id,
    ensures
        insert_model_by_id(x, s) =~= s.subrange(0, p).push(x) + s.subrange(p, s.len() as int),
    decreases s.len(),
{
    if s.len() == 0 {
    } else if p == s.len() {
        assert(s.subrange(0, p) =~= s);
        assert(s.subrange(p, s.len() as int) =~= Seq::<OrderStorageModel>::empty());
    } else {
        lemma_insert_model_at(x, s.drop_last(), p);
        assert(s.drop_last().subrange(0, p) =~= s.subrange(0, p));
        assert(s.drop_last().subrange(p, s.len() - 1) =~= s.subrange(p, s.len() - 1));
    }
}

/// Sorts stored orders by ascending id, as `sort_models_by_id` states.
fn sorted_models_by_id(orders: &Vec<OrderStorageModel>) -> (r: Vec<OrderStorageModel>)
    ensures
        r@ == sort_models_by_id(orders@),
{
    let mut r: Vec<OrderStorageModel> = Vec::new();
    let n = orders.len();
    let mut i: usize = 0;
    while i < n
        invariant
            n == orders@.len(),
            0 <= i <= n,
            r@ == sort_models_by_id(orders@.take(i as int)),
        decreases n - i,
    {
        let x = orders[i];
        let mut p: usize = r.len();
        while p > 0 && r[p - 1].id > x.id
            invariant
                0 <= p <= r@.len(),
                forall|k: int| p <= k < r@.len() ==> r@[k].id > x.id,
            decreases p,
        {
            p = p - 1;
        }
        proof {
            lemma_insert_model_at(x, r@, p as int);
            assert(orders@.take(i as int + 1).drop_last() =~= orders@.take(i as int));
            assert(orders@.take(i as int + 1).last() == orders@[i as int]);
        }
        let ghost before = r@;
        r.insert(p, x);
        proof {
            assert(r@ =~= before.subrange(0, p as int).push(x) + before.subrange(
                p as int,
                before.len() as int,
            ));
        }
        i = i + 1;
    }
    proof {
        assert(orders@.take(n as int) =~= orders@);
    }
    r
}

/// The earliest stored order, taken as it stands: its price is its value
/// over its amount, its income nothing.
pub open spec fn first_order_of(m: OrderStorageModel) -> Order {
    Order {
        id: m.id,
        action: action_from_storage(m.action),
        amount: m.amount,
        value: m.value,
        price: Fixed { units: order_price_units(m.value@, m.amount@) as i64 },
        income: Fixed { units: 0 },
    }
}

/// One replay step: the stored order is rebuilt against the position
/// grown so far and appended; `None` when a figure would not fit.
pub open spec fn step_build(p: PositionV, m: OrderStorageModel) -> Option<PositionV> {
    let act = action_from_storage(m.action);
    let price = order_price_units(m.value@, m.amount@);
    let income = order_income_units(price, p.avg_price, m.amount@);
    if !(max_order_id(p.orders) < i32::MAX && fits_units(price) && fits_units(income)) {
        None
    } else {
        let o = Order {
            id: (max_order_id(p.orders) + 1) as i32,
            action: act,
            amount: m.amount,
            value: m.value,
            price: Fixed { units: price as i64 },
            income: Fixed { units: income as i64 },
        };
        let orders2 = p.orders.push(o);
        if !aggregates_fit(p.action, orders2) {
            None
        } else {
            Some(
                PositionV {
                    amount: net_amount(p.action, orders2),
                    avg_price: avg_price_of(p.action, orders2),
                    avg_value: avg_value_of(p.action, orders2),
                    income: opp_income_sum(p.action, orders2),
                    orders: orders2,
                    ..p
                },
            )
        }
    }
}

/// Replays stored orders one after the other.
pub open spec fn build_from(p: PositionV, models: Seq<OrderStorageModel>) -> Option<PositionV>
    decreases models.len(),
{
    if models.len() == 0 {
        Some(p)
    } else {
        match step_build(p, models[0]) {
            None => None,
            Some(p2) => build_from(p2, models.drop_first()),
        }
    }
}

proof fn lemma_build_extend(p: PositionV, s: Seq<OrderStorageModel>, t: Seq<OrderStorageModel>)
    ensures
        build_from(p, s + t) == (match build_from(p, s) {
            None => None::<PositionV>,
            Some(q) => build_from(q, t),
        }),
    decreases s.len(),
{
    if s.len() == 0 {
        assert(s + t =~= t);
    } else {
        assert((s + t)[0] == s[0]);
        assert((s + t).drop_first() =~= s.drop_first() + t);
        match step_build(p, s[0]) {
            None => {
            },
            Some(p2) => {
                lemma_build_extend(p2, s.drop_first(), t);
            },
        }
    }
}

/// Equality of two position contents in everything but the edit stamp.
pub open spec fn eq_mod_time(a: PositionV, b: PositionV) -> bool {
    &&& a.id == b.id
    &&& a.action == b.action
    &&& a.name == b.name
    &&& a.amount == b.amount
    &&& a.avg_value == b.avg_value
    &&& a.avg_price == b.avg_price
    &&& a.income == b.income
    &&& a.orders == b.orders
}

/// The message for a stored position without orders.
pub open spec fn empty_orders_message(id: int) -> Seq<char> {
    "Failed to parse position "@ + int_str(id) + " orders, perhaps it's empty"@
}

impl PositionStorageModel {
    /// The position content after replaying the earliest stored order
    /// alone (with a zeroed edit stamp; the stamp is set at read time).
    pub open spec fn init_build(self) -> PositionV {
        let sm = sort_models_by_id(self.orders@);
        let first = first_order_of(sm[0]);
        let act = first.action;
        let single = seq![first];
        PositionV {
            id: self.id as int,
            edited_at: 0,
            action: act,
            name: self.name@,
            amount: net_amount(act, single),
            avg_price: avg_price_of(act, single),
            avg_value: avg_value_of(act, single),
            income: opp_income_sum(act, single),
            orders: single,
        }
    }

    /// The position content the whole replay reaches.
    pub open spec fn built(self) -> Option<PositionV> {
        build_from(self.init_build(), sort_models_by_id(self.orders@).drop_first())
    }
}

impl ToModel<Position> for PositionStorageModel {
    open spec fn to_model_ok(&self) -> bool {
        let sm = sort_models_by_id(self.orders@);
        &&& self.orders@.len() >= 1
        &&& fits_units(order_price_units(sm[0].value@, sm[0].amount@))
        &&& aggregates_fit(first_order_of(sm[0]).action, seq![first_order_of(sm[0])])
        &&& self.built() is Some
    }

    open spec fn to_model_rel(&self, m: Position) -> bool {
        self.built() matches Some(b) && eq_mod_time(m@, b)
    }

    open spec fn to_model_err(&self, e: Seq<char>) -> bool {
        if self.orders@.len() == 0 {
            e == empty_orders_message(self.id as int)
        } else {
            e == position_overflow_message()
        }
    }

    fn to_model(&self) -> (r: Result<Position, String>) {
        if self.orders.len() == 0 {
            let mut m = String::from_str("Failed to parse position ");
            let ids = i32_to_string(self.id);
            m.append(ids.as_str());
            m.append(" orders, perhaps it's empty");
            proof {
                assert(m@ =~= empty_orders_message(self.id as int));
            }
            return Err(m);
        }
        let sorted = sorted_models_by_id(&self.orders);
        proof {
            lemma_sort_models_len(self.orders@);
        }
        let m0 = sorted[0];
        let price = div_trunc_i128(m0.value.units as i128 * 10000, m0.amount.units as i128);
        if price < i64::MIN as i128 || price > i64::MAX as i128 {
            return Err(String::from_str("Position figures would overflow"));
        }
        let act0 = match m0.action {
            ActionStorageModel::L => crate::models::Action::Long,
            ActionStorageModel::S => crate::models::Action::Short,
        };
        let first = Order {
            id: m0.id,
            action: act0,
            amount: m0.amount,
            value: m0.value,
            price: Fixed { units: price as i64 },
            income: Fixed { units: 0 },
        };
        let mut single: Vec<Order> = Vec::new();
        single.push(first);
        proof {
            reveal_with_fuel(sort_by_id, 2);
            assert(single@ =~= seq![first]);
            assert(single@.drop_last() =~= Seq::<Order>::empty());
            assert(sort_by_id(single@) =~= seq![first]);
        }
        proof {
            assert(first == first_order_of(sort_models_by_id(self.orders@)[0]));
        }
        if !recompute_check(act0, &single) {
            return Err(String::from_str("Position figures would overflow"));
        }
        let mut pos = Position::new(self.id, self.name.clone(), single);
        proof {
            reveal_with_fuel(build_from, 3);
            assert(eq_mod_time(pos@, self.init_build()));
        }
        let n = sorted.len();
        let mut i: usize = 1;
        proof {
            reveal_with_fuel(build_from, 3);
            assert(sorted@.subrange(1, 1) =~= Seq::<OrderStorageModel>::empty());
        }
        while i < n
            invariant
                1 <= i <= n,
                n == sorted@.len(),
                sorted@ == sort_models_by_id(self.orders@),
                self.orders@.len() >= 1,
                pos.orders@.len() >= 1,
                build_from(self.init_build(), sorted@.subrange(1, i as int)) is Some,
                eq_mod_time(
                    pos@,
                    build_from(self.init_build(), sorted@.subrange(1, i as int))->Some_0,
                ),
            decreases n - i,
        {
            let ghost cur = build_from(self.init_build(), sorted@.subrange(1, i as int))->Some_0;
            let m = sorted[i];
            let act = match m.action {
                ActionStorageModel::L => crate::models::Action::Long,
                ActionStorageModel::S => crate::models::Action::Short,
            };
            proof {
                reveal_with_fuel(build_from, 3);
                lemma_build_extend(
                    self.init_build(),
                    sorted@.subrange(1, i as int),
                    sorted@.subrange(i as int, n as int),
                );
                assert(sorted@.subrange(1, i as int) + sorted@.subrange(i as int, n as int)
                    =~= sorted@.subrange(1, n as int));
                assert(sorted@.subrange(i as int, n as int)[0] == sorted@[i as int]);
                assert(sort_models_by_id(self.orders@).drop_first() =~= sorted@.subrange(
                    1,
                    n as int,
                ));
                lemma_build_extend(
                    self.init_build(),
                    sorted@.subrange(1, i as int),
                    seq![sorted@[i as int]],
                );
                assert(sorted@.subrange(1, i as int) + seq![sorted@[i as int]]
                    =~= sorted@.subrange(1, i as int + 1));
                assert(seq![sorted@[i as int]].drop_first()
                    =~= Seq::<OrderStorageModel>::empty());
            }
            match Order::try_new(&pos, act, m.amount, m.value) {
                None => {
                    proof {
                        assert(step_build(cur, sorted@[i as int]) is None);
                        assert(self.built() is None);
                    }
                    return Err(String::from_str("Position figures would overflow"));
                },
                Some(o) => {
                    proof {
                        let price = order_price_units(m.value@, m.amount@);
                        let income = order_income_units(price, cur.avg_price, m.amount@);
                        assert(o == (Order {
                            id: (max_order_id(cur.orders) + 1) as i32,
                            action: act,
                            amount: m.amount,
                            value: m.value,
                            price: Fixed { units: price as i64 },
                            income: Fixed { units: income as i64 },
                        }));
                    }
                    if pos.try_add_order(o) {
                        proof {
                            assert(step_build(cur, sorted@[i as int]) matches Some(next)
                                && eq_mod_time(pos@, next));
                            assert(build_from(
                                self.init_build(),
                                sorted@.subrange(1, i as int + 1),
                            ) is Some);
                        }
                    } else {
                        proof {
                            assert(step_build(cur, sorted@[i as int]) is None);
                            assert(self.built() is None);
                        }
                        return Err(String::from_str("Position figures would overflow"));
                    }
                },
            }
            i = i + 1;
        }
        proof {
            assert(sort_models_by_id(self.orders@).drop_first() =~= sorted@.subrange(
                1,
                n as int,
            ));
        }
        Ok(pos)
    }
}

impl FromModel<Position> for PositionStorageModel {
    open spec fn from_model_rel(model: Position, r: Self) -> bool {
        &&& r.id == model.id
        &&& r.action == action_to_storage(model.action)
        &&& r.name@ == model.name@
        &&& r.orders@.len() == model.orders@.len()
        &&& forall|k: int|
            0 <= k < model.orders@.len() ==> OrderStorageModel::from_model_rel(
                model.orders@[k],
                #[trigger] r.orders@[k],
            )
    }

    fn from_model(model: Position) -> (r: Self) {
        let mut order_models: Vec<OrderStorageModel> = Vec::new();
        let n = model.orders.len();
        let mut i: usize = 0;
        while i < n
            invariant
                n == model.orders@.len(),
                0 <= i <= n,
                order_models@.len() == i,
                forall|k: int|
                    0 <= k < i ==> OrderStorageModel::from_model_rel(
                        model.orders@[k],
                        #[trigger] order_models@[k],
                    ),
            decreases n - i,
        {
            order_models.push(OrderStorageModel::from_model(model.orders[i]));
            i = i + 1;
        }
        PositionStorageModel {
            id: model.id,
            action: ActionStorageModel::from_model(model.action),
            name: model.name,
            orders: order_models,
        }
    }
}

} // verus!
