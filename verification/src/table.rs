//! Computed pieces of the positions table: totals, the colouring of an
//! income figure, and a position's status.

use vstd::prelude::*;
use vstd::string::StringExecFns;
use crate::fixed::{fits_units, Fixed};
use crate::models::position::{unit_bound, Position};

verus! {

/// Sum of the positions' average values.
pub open spec fn value_total(s: Seq<Position>) -> int
    decreases s.len(),
{
    if s.len() == 0 {
        0
    } else {
        value_total(s.drop_last()) + s.last().avg_value@
    }
}

/// Sum of the positions' incomes.
pub open spec fn income_total(s: Seq<Position>) -> int
    decreases s.len(),
{
    if s.len() == 0 {
        0
    } else {
        income_total(s.drop_last()) + s.last().income@
    }
}

proof fn lemma_total_bounds(s: Seq<Position>)
    ensures
        -(s.len() as int) * unit_bound() <= value_total(s) <= (s.len() as int) * unit_bound(),
        -(s.len() as int) * unit_bound() <= income_total(s) <= (s.len() as int) * unit_bound(),
    decreases s.len(),
{
    if s.len() > 0 {
        lemma_total_bounds(s.drop_last());
    }
}

/// The total row of the table: summed average value and summed income,
/// `None` exactly when one of the sums does not fit.
pub fn calculate_total(positions: &Vec<Position>) -> (r: Option<(Fixed, Fixed)>)
    ensures
        r is Some <==> fits_units(value_total(positions@)) && fits_units(
            income_total(positions@),
        ),
        r matches Some(t) ==> t.0@ == value_total(positions@) && t.1@ == income_total(
            positions@,
        ),
{
    let n = positions.len();
    let mut value: i128 = 0;
    let mut income: i128 = 0;
    let mut i: usize = 0;
    while i < n
        invariant
            n == positions@.len(),
            0 <= i <= n,
            value == value_total(positions@.take(i as int)),
            income == income_total(positions@.take(i as int)),
        decreases n - i,
    {
        proof {
            assert(positions@.take(i as int + 1).drop_last() =~= positions@.take(i as int));
            assert(positions@.take(i as int + 1).last() == positions@[i as int]);
            lemma_total_bounds(positions@.take(i as int));
        }
        value = value + positions[i].avg_value.units as i128;
        income = income + positions[i].income.units as i128;
        i = i + 1;
    }
    proof {
        assert(positions@.take(positions@.len() as int) =~= positions@);
    }
    if value < i64::MIN as i128 || value > i64::MAX as i128 {
        return None;
    }
    if income < i64::MIN as i128 || income > i64::MAX as i128 {
        return None;
    }
    Some((Fixed { units: value as i64 }, Fixed { units: income as i64 }))
}

/// How an income figure is coloured: gains, losses and zero stand apart.
#[derive(PartialEq, Eq, Clone, Copy, Debug, Structural)]
pub enum IncomeTone {
    Flat,
    Gain,
    Loss,
}

/// The tone of an income figure.
pub fn income_tone(income: Fixed) -> (r: IncomeTone)
    ensures
        income@ == 0 ==> r == IncomeTone::Flat,
        income@ > 0 ==> r == IncomeTone::Gain,
        income@ < 0 ==> r == IncomeTone::Loss,
{
    if income.units == 0 {
        IncomeTone::Flat
    } else if income.units > 0 {
        IncomeTone::Gain
    } else {
        IncomeTone::Loss
    }
}

/// A position with no amount left is closed.
pub fn status_label(position: &Position) -> (r: String)
    ensures
        position.amount@ == 0 ==> r@ == "Closed"@,
        position.amount@ != 0 ==> r@ == "Active"@,
{
    if position.amount.units == 0 {
        String::from_str("Closed")
    } else {
        String::from_str("Active")
    }
}

} // verus!
