//! Paging of a session's findings.

use vstd::prelude::*;

verus! {

/// The page size a request asks for, held between one and a thousand.
pub fn page_limit(limit: u32) -> (n: u32)
    ensures
        n == (if limit < 1 { 1 } else if limit > 1000 { 1000 } else { limit }),
        1 <= n <= 1000,
{
    if limit < 1 {
        1
    } else if limit > 1000 {
        1000
    } else {
        limit
    }
}

/// The cursor for the next page: the last identifier of a full page; none after a short
/// page.
pub fn next_cursor(ids: &Vec<String>, page_limit: u32) -> (c: Option<String>)
    ensures
        ids@.len() == page_limit as nat && ids@.len() > 0 ==> c == Some(ids@.last()),
        !(ids@.len() == page_limit as nat && ids@.len() > 0) ==> c is None,
{
    let n = ids.len();
    if n > 0 && n as u64 == page_limit as u64 {
        Some(ids[n - 1].clone())
    } else {
        None
    }
}

} // verus!
