//! What the ledger persists: the stored models, and the in-memory shape
//! they are read into.

pub mod models;

use vstd::prelude::*;
use crate::models::Position;
use crate::sorting::SortBy;

verus! {

/// Everything the storage file holds, in working form.
pub struct Storage {
    pub sort_positions_by: SortBy,
    pub move_closed_positions_to_bottom: bool,
    pub positions: Vec<Position>,
}

} // verus!
