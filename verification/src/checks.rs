//! The checks that a request for pages must pass before the system is asked.
use vstd::prelude::*;
use crate::error::Error;

verus! {

/// `n` is a power of two: the alignments the system uses (page size,
/// allocation granularity) always are.
pub open spec fn is_power_of_two(n: usize) -> bool {
    n != 0 && n & ((n - 1) as usize) == 0
}

/// `addr` is aligned to `align`.
pub open spec fn is_aligned(addr: usize, align: usize) -> bool {
    addr % align == 0
}

/// An allocation request: `location` is null (the system picks the place) or
/// aligned to the allocation granularity, and `size` is a non-zero multiple of it.
pub open spec fn alloc_accepted(location: usize, size: usize, granularity: usize) -> bool {
    &&& location == 0 || is_aligned(location, granularity)
    &&& size != 0
    &&& is_aligned(size, granularity)
}

/// A request on existing pages: `location` is aligned to the page size and
/// `size` is a multiple of it.
pub open spec fn pages_accepted(location: usize, size: usize, page_size: usize) -> bool {
    is_aligned(location, page_size) && is_aligned(size, page_size)
}

/// Checks an allocation request.
///
/// Returns [`Error::InvalidInput`] if `location` is non-null and not aligned to
/// the allocation granularity, if `size` is zero, or if `size` is not a
/// multiple of the allocation granularity.
pub fn check_alloc(location: usize, size: usize, granularity: usize) -> (r: Result<(), Error>)
    requires
        is_power_of_two(granularity),
    ensures
        r == (if alloc_accepted(location, size, granularity) {
            Ok(())
        } else {
            Err(Error::InvalidInput)
        }),
{
    if (location != 0 && location % granularity != 0) || size == 0 || size % granularity != 0 {
        return Err(Error::InvalidInput);
    }
    Ok(())
}

/// Checks a request on existing pages.
///
/// Returns [`Error::InvalidInput`] if `location` is not aligned to the page
/// size, or if `size` is not a multiple of the page size.
pub fn check_pages(location: usize, size: usize, page_size: usize) -> (r: Result<(), Error>)
    requires
        is_power_of_two(page_size),
    ensures
        r == (if pages_accepted(location, size, page_size) {
            Ok(())
        } else {
            Err(Error::InvalidInput)
        }),
{
    if location % page_size != 0 || size % page_size != 0 {
        return Err(Error::InvalidInput);
    }
    Ok(())
}

} // verus!
