//! Operations on the held list of positions: lookup, insertion of a new
//! position, replacement and deletion.

use vstd::prelude::*;
use vstd::string::StringExecFns;
use crate::fixed::{fits_units, Fixed};
use crate::models::action::Action;
use crate::models::order::{order_price_units, Order};
use crate::models::position::{
    aggregates_fit, avg_price_of, avg_value_of, net_amount, opp_income_sum, sort_by_id,
    Position,
};
use crate::text::{i32_to_string, int_str};

verus! {

/// Where a position with the given id first stands in the list.
pub open spec fn find_position_index(s: Seq<Position>, id: int) -> Option<int>
    decreases s.len(),
{
    if s.len() == 0 {
        None
    } else if s[0].id as int == id {
        Some(0)
    } else {
        match find_position_index(s.drop_first(), id) {
            Some(k) => Some(k + 1),
            None => None,
        }
    }
}

proof fn lemma_find_position_index_at(s: Seq<Position>, id: int, i: int)
    requires
        0 <= i < s.len(),
        forall|k: int| 0 <= k < i ==> s[k].id as int != id,
        s[i].id as int == id,
    ensures
        find_position_index(s, id) == Some(i),
    decreases i,
{
    if i > 0 {
        lemma_find_position_index_at(s.drop_first(), id, i - 1);
    }
}

proof fn lemma_find_position_index_none(s: Seq<Position>, id: int)
    requires
        forall|k: int| 0 <= k < s.len() ==> s[k].id as int != id,
    ensures
        find_position_index(s, id) is None,
    decreases s.len(),
{
    if s.len() > 0 {
        lemma_find_position_index_none(s.drop_first(), id);
    }
}

/// Where a position with the given id stands, found by scanning.
pub fn find_position(positions: &Vec<Position>, id: i32) -> (r: Option<usize>)
    ensures
        match r {
            Some(i) => 0 <= i < positions@.len() && find_position_index(positions@, id as int)
                == Some(i as int),
            None => find_position_index(positions@, id as int) is None,
        },
{
    let n = positions.len();
    let mut i: usize = 0;
    while i < n
        invariant
            n == positions@.len(),
            0 <= i <= n,
            forall|k: int| 0 <= k < i ==> positions@[k].id as int != id as int,
        decreases n - i,
    {
        if positions[i].id == id {
            proof {
                lemma_find_position_index_at(positions@, id as int, i as int);
            }
            return Some(i);
        }
        i = i + 1;
    }
    proof {
        lemma_find_position_index_none(positions@, id as int);
    }
    None
}

/// The message for an id that no held position carries.
pub open spec fn position_not_found_message(id: int) -> Seq<char> {
    "Position with id "@ + int_str(id) + " not found"@
}

/// The message for storing a position that the list does not hold.
pub open spec fn position_missing_message(id: int) -> Seq<char> {
    "Position "@ + int_str(id) + " not found"@
}

/// Removes the position with the given id from the list.
pub fn delete_position(positions: &mut Vec<Position>, id: i32) -> (r: Result<(), String>)
    ensures
        match r {
            Ok(()) => find_position_index(old(positions)@, id as int) matches Some(idx)
                && final(positions)@ == old(positions)@.remove(idx),
            Err(m) => {
                &&& find_position_index(old(positions)@, id as int) is None
                &&& final(positions)@ == old(positions)@
                &&& m@ == position_not_found_message(id as int)
            },
        },
{
    match find_position(positions, id) {
        Some(idx) => {
            positions.remove(idx);
            Ok(())
        },
        None => {
            let mut m = String::from_str("Position with id ");
            let ids = i32_to_string(id);
            m.append(ids.as_str());
            m.append(" not found");
            proof {
                assert(m@ =~= position_not_found_message(id as int));
            }
            Err(m)
        },
    }
}

/// Stores a changed position in the slot that carries its id.
pub fn replace_position(positions: &mut Vec<Position>, position: Position) -> (r: Result<
    (),
    String,
>)
    ensures
        match r {
            Ok(()) => find_position_index(old(positions)@, position.id as int) matches Some(idx)
                && final(positions)@ == old(positions)@.update(idx, position),
            Err(m) => {
                &&& find_position_index(old(positions)@, position.id as int) is None
                &&& final(positions)@ == old(positions)@
                &&& m@ == position_missing_message(position.id as int)
            },
        },
{
    match find_position(positions, position.id) {
        Some(idx) => {
            positions.set(idx, position);
            Ok(())
        },
        None => {
            let mut m = String::from_str("Position ");
            let ids = i32_to_string(position.id);
            m.append(ids.as_str());
            m.append(" not found");
            proof {
                assert(m@ =~= position_missing_message(position.id as int));
            }
            Err(m)
        },
    }
}

/// The id a newly added position takes: one past the last position's id,
/// or zero for an empty list.
pub fn next_position_id(positions: &Vec<Position>) -> (r: i32)
    requires
        positions@.len() > 0 ==> positions@.last().id < i32::MAX,
    ensures
        positions@.len() == 0 ==> r == 0,
        positions@.len() > 0 ==> r as int == positions@.last().id as int + 1,
{
    if positions.len() == 0 {
        0
    } else {
        positions[positions.len() - 1].id + 1
    }
}

/// The message for a new position whose figures would not fit.
pub open spec fn position_overflow_message() -> Seq<char> {
    "Position figures would overflow"@
}

/// The message for a list whose position ids are used up.
pub open spec fn ids_exhausted_message() -> Seq<char> {
    "No position id is left"@
}

/// Opens a new position from one first order: the order takes id zero
/// and the price `value / amount`, and the position takes the next free
/// id.
pub fn add_new_position(
    positions: &mut Vec<Position>,
    name: String,
    action: Action,
    amount: Fixed,
    value: Fixed,
) -> (r: Result<(), String>)
    ensures
        ({
            let price = order_price_units(value@, amount@);
            let first = Order {
                id: 0,
                action,
                amount,
                value,
                price: Fixed { units: price as i64 },
                income: Fixed { units: 0 },
            };
            let single = seq![first];
            match r {
                Ok(()) => {
                    &&& old(positions)@.len() > 0 ==> old(positions)@.last().id < i32::MAX
                    &&& fits_units(price)
                    &&& aggregates_fit(action, single)
                    &&& final(positions)@.len() == old(positions)@.len() + 1
                    &&& final(positions)@.subrange(0, old(positions)@.len() as int)
                        == old(positions)@
                    &&& ({
                        let p = final(positions)@.last();
                        &&& p.name@ == name@
                        &&& p.action == action
                        &&& p.orders@ == single
                        &&& (old(positions)@.len() == 0 ==> p.id == 0)
                        &&& (old(positions)@.len() > 0 ==> p.id as int
                            == old(positions)@.last().id as int + 1)
                        &&& p.amount@ == net_amount(action, single)
                        &&& p.avg_price@ == avg_price_of(action, single)
                        &&& p.avg_value@ == avg_value_of(action, single)
                        &&& p.income@ == opp_income_sum(action, single)
                    })
                },
                Err(m) => {
                    &&& final(positions)@ == old(positions)@
                    &&& if old(positions)@.len() > 0 && old(positions)@.last().id == i32::MAX {
                        m@ == ids_exhausted_message()
                    } else {
                        &&& !(fits_units(price) && aggregates_fit(action, single))
                        &&& m@ == position_overflow_message()
                    }
                },
            }
        }),
{
    if positions.len() > 0 && positions[positions.len() - 1].id == i32::MAX {
        return Err(String::from_str("No position id is left"));
    }
    let id = next_position_id(positions);
    let mut single: Vec<Order> = Vec::new();
    let price = crate::fixed::div_trunc_i128(value.units as i128 * 10000, amount.units as i128);
    if price < i64::MIN as i128 || price > i64::MAX as i128 {
        return Err(String::from_str("Position figures would overflow"));
    }
    let first = Order {
        id: 0,
        action,
        amount,
        value,
        price: Fixed { units: price as i64 },
        income: Fixed { units: 0 },
    };
    single.push(first);
    proof {
        reveal_with_fuel(sort_by_id, 2);
        assert(single@ =~= seq![first]);
        assert(single@.drop_last() =~= Seq::<Order>::empty());
        assert(sort_by_id(single@) =~= seq![first]);
    }
    if crate::models::position::recompute_check(action, &single) {
        let position = Position::new(id, name, single);
        positions.push(position);
        Ok(())
    } else {
        Err(String::from_str("Position figures would overflow"))
    }
}

} // verus!
