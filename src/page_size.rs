use vstd::prelude::*;

verus! {

/// Smallest system page size the stacks are laid out for.
pub const MIN_PAGE_SIZE: usize = 4096;

/// Checks the page size the system reports: accepted when it is at least
/// `MIN_PAGE_SIZE` (an error report, a negative number, is not).
pub fn accept(raw: i64) -> (r: Option<usize>)
    ensures
        r is Some <==> MIN_PAGE_SIZE <= raw <= usize::MAX,
        r matches Some(p) ==> p == raw,
{
    if raw < MIN_PAGE_SIZE as i64 || raw as u64 > usize::MAX as u64 {
        None
    } else {
        Some(raw as usize)
    }
}

} // verus!
