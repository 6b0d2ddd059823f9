//! Fixed settings of the ledger's display and storage.

use vstd::prelude::*;

verus! {

// Amount of positions rendered per one page
pub const POISITIONS_PER_PAGE: i32 = 10;

// Amount of orders rendered per one page
pub const ORDERS_PER_PAGE: i32 = 10;

} // verus!
