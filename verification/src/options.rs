//! The user's settings, read from the options file by the surrounding
//! program.

use vstd::prelude::*;

verus! {

#[derive(Debug)]
pub struct Options {
    pub positions_per_page: i32,
    pub hide_closed_positions: bool,
    pub orders_per_page: i32,
    pub storage_file_path: String,
}

} // verus!
