//! Pagination: slicing a list into pages and stepping between them.

use vstd::prelude::*;
use vstd::pervasive::cloned;
use vstd::string::StringExecFns;

verus! {

/// How many pages a list fills: its length divided by the page size,
/// rounded up.
pub open spec fn spec_pages_count(len: int, per: int) -> int {
    if len % per == 0 {
        len / per
    } else {
        len / per + 1
    }
}

/// The items of one page: up to `items_per_page` of them, starting after
/// the pages before `page`.
pub fn select_items_for_page<T: Clone>(items: Vec<T>, page: i32, items_per_page: i32) -> (r:
    Vec<T>)
    requires
        page >= 1,
        0 <= items_per_page * (page - 1) <= items@.len(),
        items_per_page * (page - 1) <= i32::MAX,
    ensures
        ({
            let start = items_per_page * (page - 1);
            let count = if items_per_page <= 0 {
                0int
            } else if start + items_per_page <= items@.len() {
                items_per_page as int
            } else {
                items@.len() - start
            };
            &&& r@.len() == count
            &&& forall|j: int| 0 <= j < count ==> cloned(items@[start + j], #[trigger] r@[j])
        }),
{
    let n = items.len();
    let start: usize = (items_per_page * (page - 1)) as usize;
    let count: usize = if items_per_page <= 0 {
        0
    } else {
        let per = items_per_page as usize;
        let remaining = n - start;
        if per <= remaining {
            per
        } else {
            remaining
        }
    };
    let mut r: Vec<T> = Vec::new();
    let mut j: usize = 0;
    while j < count
        invariant
            0 <= j <= count,
            n == items@.len(),
            start + count <= n,
            r@.len() == j,
            forall|k: int| 0 <= k < j ==> cloned(items@[start as int + k], #[trigger] r@[k]),
        decreases count - j,
    {
        r.push(items[start + j].clone());
        j = j + 1;
    }
    r
}

/// How many pages the items fill, as [`spec_pages_count`] states.
pub fn get_pages_count(items_length: usize, items_per_page: i32) -> (r: u64)
    requires
        items_per_page >= 1,
    ensures
        r == spec_pages_count(items_length as int, items_per_page as int),
{
    let per = items_per_page as u64;
    let len = items_length as u64;
    let full = len / per;
    let rem = len % per;
    if rem == 0 {
        full
    } else {
        proof {
            vstd::arithmetic::div_mod::lemma_fundamental_div_mod(len as int, per as int);
            assert(full as int <= per as int * full as int) by (nonlinear_arith)
                requires
                    per as int >= 1,
                    full as int >= 0,
            ;
        }
        full + 1
    }
}

/// Steps to the next page, refused on the last one.
pub fn next_page(page: i32, items_length: usize, items_per_page: i32) -> (r: Result<i32, String>)
    requires
        items_per_page >= 1,
        1 <= page < i32::MAX,
    ensures
        match r {
            Ok(p) => p == page + 1 && page + 1 <= spec_pages_count(
                items_length as int,
                items_per_page as int,
            ),
            Err(m) => page + 1 > spec_pages_count(items_length as int, items_per_page as int)
                && m@ == "Already at last page"@,
        },
{
    let max_page = get_pages_count(items_length, items_per_page);
    if (page + 1) as u64 > max_page {
        Err(String::from_str("Already at last page"))
    } else {
        Ok(page + 1)
    }
}

/// Steps to the previous page, refused on the first one.
pub fn previous_page(page: i32) -> (r: Result<i32, String>)
    requires
        page >= 1,
    ensures
        match r {
            Ok(p) => page > 1 && p == page - 1,
            Err(m) => page == 1 && m@ == "Already at first page"@,
        },
{
    if page == 1 {
        Err(String::from_str("Already at first page"))
    } else {
        Ok(page - 1)
    }
}

} // verus!
