//! Ordering the positions table: sort keys, directions, and the sorter
//! that arranges positions for display.
//!
//! A quirk of the display pipeline is kept as it stands: the table is
//! rendered in reverse, so a `Descending` direction sorts ascending here
//! (and shows descending on screen), and moving closed positions "to the
//! bottom" places them first here.

use vstd::prelude::*;
use vstd::string::StringExecFns;
use crate::models::position::{Position, PositionV};

verus! {

#[derive(Debug, Clone, Copy)]
pub enum SortDirection {
    Descending,
    Ascending,
}

/// The short name of a direction.
pub open spec fn direction_label(d: SortDirection) -> Seq<char> {
    match d {
        SortDirection::Ascending => "Asc"@,
        SortDirection::Descending => "Desc"@,
    }
}

impl SortDirection {
    /// The direction's short name, shown in the sorting menu.
    pub fn label(&self) -> (r: String)
        ensures
            r@ == direction_label(*self),
    {
        match self {
            SortDirection::Ascending => String::from_str("Asc"),
            SortDirection::Descending => String::from_str("Desc"),
        }
    }
}

#[derive(Debug, Clone, Copy)]
pub enum SortBy {
    Id(SortDirection),
    AvgValue(SortDirection),
    LastChange(SortDirection),
    AvgPrice(SortDirection),
    Income(SortDirection),
}

/// The name of a sort key with its direction.
pub open spec fn sort_by_label(k: SortBy) -> Seq<char> {
    match k {
        SortBy::Id(d) => "Id ("@ + direction_label(d) + ")"@,
        SortBy::AvgValue(d) => "Avg value ("@ + direction_label(d) + ")"@,
        SortBy::LastChange(d) => "Last change ("@ + direction_label(d) + ")"@,
        SortBy::AvgPrice(d) => "Avg price ("@ + direction_label(d) + ")"@,
        SortBy::Income(d) => "Income ("@ + direction_label(d) + ")"@,
    }
}

impl SortBy {
    /// The key's name with its direction, shown in the sorting menu.
    pub fn label(&self) -> (r: String)
        ensures
            r@ == sort_by_label(*self),
    {
        let (mut m, d) = match self {
            SortBy::Id(d) => (String::from_str("Id ("), d),
            SortBy::AvgValue(d) => (String::from_str("Avg value ("), d),
            SortBy::LastChange(d) => (String::from_str("Last change ("), d),
            SortBy::AvgPrice(d) => (String::from_str("Avg price ("), d),
            SortBy::Income(d) => (String::from_str("Income ("), d),
        };
        let dl = d.label();
        m.append(dl.as_str());
        m.append(")");
        proof {
            assert(m@ =~= sort_by_label(*self));
        }
        m
    }
}

/// The comparison the sorter arranges by: a key and its direction.
pub open spec fn key_le(k: SortBy, a: PositionV, b: PositionV) -> bool {
    match k {
        SortBy::Id(SortDirection::Descending) => a.id <= b.id,
        SortBy::Id(SortDirection::Ascending) => a.id >= b.id,
        SortBy::AvgValue(SortDirection::Descending) => a.avg_value <= b.avg_value,
        SortBy::AvgValue(SortDirection::Ascending) => a.avg_value >= b.avg_value,
        SortBy::LastChange(SortDirection::Descending) => a.edited_at <= b.edited_at,
        SortBy::LastChange(SortDirection::Ascending) => a.edited_at >= b.edited_at,
        SortBy::AvgPrice(SortDirection::Descending) => a.avg_price <= b.avg_price,
        SortBy::AvgPrice(SortDirection::Ascending) => a.avg_price >= b.avg_price,
        SortBy::Income(SortDirection::Descending) => a.income <= b.income,
        SortBy::Income(SortDirection::Ascending) => a.income >= b.income,
    }
}

/// The comparison, on held positions.
fn key_le_exec(k: SortBy, a: &Position, b: &Position) -> (r: bool)
    ensures
        r == key_le(k, a@, b@),
{
    match k {
        SortBy::Id(SortDirection::Descending) => a.id <= b.id,
        SortBy::Id(SortDirection::Ascending) => a.id >= b.id,
        SortBy::AvgValue(SortDirection::Descending) => a.avg_value.units <= b.avg_value.units,
        SortBy::AvgValue(SortDirection::Ascending) => a.avg_value.units >= b.avg_value.units,
        SortBy::LastChange(SortDirection::Descending) => a.edited_at <= b.edited_at,
        SortBy::LastChange(SortDirection::Ascending) => a.edited_at >= b.edited_at,
        SortBy::AvgPrice(SortDirection::Descending) => a.avg_price.units <= b.avg_price.units,
        SortBy::AvgPrice(SortDirection::Ascending) => a.avg_price.units >= b.avg_price.units,
        SortBy::Income(SortDirection::Descending) => a.income.units <= b.income.units,
        SortBy::Income(SortDirection::Ascending) => a.income.units >= b.income.units,
    }
}

/// The mathematical content of a held position list.
pub open spec fn views_of(s: Seq<Position>) -> Seq<PositionV> {
    s.map_values(|p: Position| p@)
}

/// Stable insertion under a key: the new element goes after every
/// element it does not order strictly before.
pub open spec fn insert_sorted_by(k: SortBy, x: PositionV, s: Seq<PositionV>) -> Seq<PositionV>
    decreases s.len(),
{
    if s.len() == 0 {
        seq![x]
    } else if key_le(k, s.last(), x) {
        s.push(x)
    } else {
        insert_sorted_by(k, x, s.drop_last()).push(s.last())
    }
}

/// The stable sort of a position list under a key.
pub open spec fn sort_views(k: SortBy, s: Seq<PositionV>) -> Seq<PositionV>
    decreases s.len(),
{
    if s.len() == 0 {
        Seq::empty()
    } else {
        insert_sorted_by(k, s.last(), sort_views(k, s.drop_last()))
    }
}

/// The positions that still hold something, in their given order.
pub open spec fn active_views(s: Seq<PositionV>) -> Seq<PositionV>
    decreases s.len(),
{
    if s.len() == 0 {
        s
    } else {
        let rest = active_views(s.drop_last());
        if s.last().avg_value != 0 {
            rest.push(s.last())
        } else {
            rest
        }
    }
}

/// The closed positions, in their given order.
pub open spec fn closed_views(s: Seq<PositionV>) -> Seq<PositionV>
    decreases s.len(),
{
    if s.len() == 0 {
        s
    } else {
        let rest = closed_views(s.drop_last());
        if s.last().avg_value == 0 {
            rest.push(s.last())
        } else {
            rest
        }
    }
}

proof fn lemma_insert_sorted_at(k: SortBy, x: PositionV, s: Seq<PositionV>, p: int)
    requires
        0 <= p <= s.len(),
        forall|j: int| p <= j < s.len() ==> !key_le(k, s[j], x),
        p > 0 ==> key_le(k, s[p - 1], x),
    ensures
        insert_sorted_by(k, x, s) =~= s.subrange(0, p).push(x) + s.subrange(p, s.len() as int),
    decreases s.len(),
{
    if s.len() == 0 {
    } else if p == s.len() {
        assert(s.subrange(0, p) =~= s);
        assert(s.subrange(p, s.len() as int) =~= Seq::<PositionV>::empty());
    } else {
        lemma_insert_sorted_at(k, x, s.drop_last(), p);
        assert(s.drop_last().subrange(0, p) =~= s.subrange(0, p));
        assert(s.drop_last().subrange(p, s.len() - 1) =~= s.subrange(p, s.len() - 1));
    }
}

/// Splits positions into the still-active and the closed ones, each side
/// keeping its order.
pub fn split_positions_by_status(positions: &Vec<Position>) -> (r: (Vec<Position>, Vec<
    Position,
>))
    ensures
        views_of(r.0@) == active_views(views_of(positions@)),
        views_of(r.1@) == closed_views(views_of(positions@)),
{
    let mut active: Vec<Position> = Vec::new();
    let mut closed: Vec<Position> = Vec::new();
    let n = positions.len();
    let mut i: usize = 0;
    while i < n
        invariant
            n == positions@.len(),
            0 <= i <= n,
            views_of(active@) =~= active_views(views_of(positions@.take(i as int))),
            views_of(closed@) =~= closed_views(views_of(positions@.take(i as int))),
        decreases n - i,
    {
        proof {
            assert(views_of(positions@.take(i as int + 1)).drop_last() =~= views_of(
                positions@.take(i as int),
            ));
            assert(views_of(positions@.take(i as int + 1)).last() == positions@[i as int]@);
        }
        let p = positions[i].clone();
        if p.avg_value.units != 0 {
            active.push(p);
        } else {
            closed.push(p);
        }
        proof {
            assert(views_of(active@) =~= active_views(views_of(positions@.take(i as int + 1))));
            assert(views_of(closed@) =~= closed_views(views_of(positions@.take(i as int + 1))));
        }
        i = i + 1;
    }
    proof {
        assert(positions@.take(n as int) =~= positions@);
    }
    (active, closed)
}

/// How the positions table is arranged: the sort key, and what becomes
/// of closed positions.
pub struct PositionsSorter {
    pub sort_by: SortBy,
    pub hide_closed: bool,
    pub move_closed_to_bottom: bool,
}

impl PositionsSorter {
    /// Arranges positions for the table: a stable sort under the key,
    /// after which closed positions are hidden, or placed before the
    /// active ones (the rendered table is reversed, so they end at its
    /// bottom), or left in place.
    pub fn sort(&self, positions: &Vec<Position>) -> (r: Vec<Position>)
        ensures
            views_of(r@) == ({
                let sorted = sort_views(self.sort_by, views_of(positions@));
                if self.hide_closed {
                    active_views(sorted)
                } else if self.move_closed_to_bottom {
                    closed_views(sorted) + active_views(sorted)
                } else {
                    sorted
                }
            }),
    {
        let mut sorted: Vec<Position> = Vec::new();
        let n = positions.len();
        let mut i: usize = 0;
        while i < n
            invariant
                n == positions@.len(),
                0 <= i <= n,
                views_of(sorted@) =~= sort_views(
                    self.sort_by,
                    views_of(positions@.take(i as int)),
                ),
            decreases n - i,
        {
            let x = positions[i].clone();
            let mut p: usize = sorted.len();
            while p > 0 && !key_le_exec(self.sort_by, &sorted[p - 1], &x)
                invariant
                    0 <= p <= sorted@.len(),
                    forall|j: int|
                        p <= j < sorted@.len() ==> !key_le(
                            self.sort_by,
                            views_of(sorted@)[j],
                            x@,
                        ),
                decreases p,
            {
                p = p - 1;
            }
            proof {
                lemma_insert_sorted_at(self.sort_by, x@, views_of(sorted@), p as int);
                assert(views_of(positions@.take(i as int + 1)).drop_last() =~= views_of(
                    positions@.take(i as int),
                ));
                assert(views_of(positions@.take(i as int + 1)).last() == positions@[i as int]@);
            }
            let ghost before = views_of(sorted@);
            sorted.insert(p, x);
            proof {
                assert(views_of(sorted@) =~= before.subrange(0, p as int).push(x@)
                    + before.subrange(p as int, before.len() as int));
            }
            i = i + 1;
        }
        proof {
            assert(positions@.take(n as int) =~= positions@);
        }
        if self.hide_closed {
            let (active, _closed) = split_positions_by_status(&sorted);
            return active;
        }
        if self.move_closed_to_bottom {
            let (mut active, mut closed) = split_positions_by_status(&sorted);
            closed.append(&mut active);
            proof {
                assert(views_of(closed@) =~= closed_views(sort_views(
                    self.sort_by,
                    views_of(positions@),
                )) + active_views(sort_views(self.sort_by, views_of(positions@))));
            }
            return closed;
        }
        sorted
    }
}

} // verus!
