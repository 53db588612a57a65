//! Low-level page allocation: the checks, the system-call arguments and the
//! interpretation of system-call results behind a cross-platform interface to
//! the operating system's virtual memory (`mmap`, `munmap`, `mprotect`,
//! `madvise` on Unix, in [`unix`]; `VirtualAlloc`, `VirtualFree`,
//! `VirtualProtect` on Windows, in [`windows`]).
//!
//! The `prepare_*` functions check a request and return the Unix calls that
//! carry it out on the given [`UnixPlatform`]; on Windows the same checks ([`checks`]) precede the calls
//! that [`windows`] prepares.
//!
//! The library decides; the caller performs the system calls it prepares and
//! hands their results back to it. The page size and the allocation
//! granularity are the system's; the caller passes them in.
use vstd::prelude::*;

pub mod buffer;
pub mod checks;
pub mod error;
pub mod laws;
pub mod protection;
pub mod unix;
pub mod windows;

pub use crate::checks::{alloc_accepted, is_power_of_two, pages_accepted};
pub use crate::error::{Error, IoErrorSource, OsError, Result};
pub use crate::protection::Protection;
pub use crate::unix::{
    AdviseArgs, ClearArgs, ClearCalls, MapArgs, ProtectArgs, UnixPlatform, UnmapArgs,
};

use crate::checks::{check_alloc, check_pages};
use crate::unix::{
    advise_free_args, advise_free_args_spec, alloc_args, alloc_args_spec, clear_args,
    clear_calls_spec, dealloc_args, distinct_fixed_bit, map_flags, prot_flags, protect_args,
};

verus! {

/// The outcome of an allocation request: [`Error::InvalidInput`] unless the
/// request is accepted, otherwise the `mmap` call that maps it.
pub open spec fn alloc_outcome(
    c: UnixPlatform,
    location: usize,
    size: usize,
    protection: Protection,
    granularity: usize,
) -> Result<MapArgs> {
    if alloc_accepted(location, size, granularity) {
        Ok(alloc_args_spec(c, location, size, protection))
    } else {
        Err(Error::InvalidInput)
    }
}

/// The outcome of a release request: [`Error::InvalidInput`] unless the pages
/// are accepted, otherwise the `munmap` call.
pub open spec fn dealloc_outcome(location: usize, size: usize, page_size: usize) -> Result<UnmapArgs> {
    if pages_accepted(location, size, page_size) {
        Ok(UnmapArgs { addr: location, len: size })
    } else {
        Err(Error::InvalidInput)
    }
}

/// The outcome of a clear request: [`Error::InvalidInput`] unless the pages
/// are accepted, otherwise the calls that clear them on the platform.
pub open spec fn clear_outcome(
    c: UnixPlatform,
    location: usize,
    size: usize,
    protection: Protection,
    page_size: usize,
) -> Result<ClearCalls> {
    if pages_accepted(location, size, page_size) {
        Ok(clear_calls_spec(c, location, size, protection))
    } else {
        Err(Error::InvalidInput)
    }
}

/// The outcome of a protection request: [`Error::InvalidInput`] unless the
/// pages are accepted, otherwise the `mprotect` call.
pub open spec fn protect_outcome(
    c: UnixPlatform,
    location: usize,
    size: usize,
    protection: Protection,
    page_size: usize,
) -> Result<ProtectArgs> {
    if pages_accepted(location, size, page_size) {
        Ok(ProtectArgs { addr: location, len: size, prot: prot_flags(c, protection) })
    } else {
        Err(Error::InvalidInput)
    }
}

/// The outcome of a free advice: [`Error::InvalidInput`] unless the pages are
/// accepted, otherwise the `madvise` call with the platform's free advice.
pub open spec fn advise_free_outcome(
    c: UnixPlatform,
    location: usize,
    size: usize,
    page_size: usize,
) -> Result<AdviseArgs> {
    if pages_accepted(location, size, page_size) {
        Ok(advise_free_args_spec(c, location, size))
    } else {
        Err(Error::InvalidInput)
    }
}

/// Prepares the allocation of virtual pages ("mapping", "committing").
///
/// If `location` is 0, the system chooses the place. When first accessed the
/// memory is all zeros.
///
/// Returns [`Error::InvalidInput`] if `location` is non-null and not aligned
/// to the allocation granularity, if `size` is zero, or if `size` is not a
/// multiple of the allocation granularity. Otherwise returns the `mmap` call
/// to make.
pub fn prepare_alloc(
    c: UnixPlatform,
    location: usize,
    size: usize,
    protection: Protection,
    granularity: usize,
) -> (r: Result<MapArgs>)
    requires
        is_power_of_two(granularity),
    ensures
        r == alloc_outcome(c, location, size, protection, granularity),
{
    match check_alloc(location, size, granularity) {
        Ok(()) => Ok(alloc_args(c, location, size, protection)),
        Err(e) => Err(e),
    }
}

/// Prepares the release of virtual pages to the system ("unmapping").
///
/// Returns [`Error::InvalidInput`] if `location` is not aligned to the page
/// size, or if `size` is not a multiple of the page size. Otherwise returns
/// the `munmap` call to make.
pub fn prepare_dealloc(location: usize, size: usize, page_size: usize) -> (r: Result<UnmapArgs>)
    requires
        is_power_of_two(page_size),
    ensures
        r == dealloc_outcome(location, size, page_size),
{
    match check_pages(location, size, page_size) {
        Ok(()) => Ok(dealloc_args(location, size)),
        Err(e) => Err(e),
    }
}

/// Prepares the recommit of a range of pages, such that they remain
/// allocated, return zero when accessed, and get the given protection.
///
/// Returns [`Error::InvalidInput`] if `location` is not aligned to the page
/// size, or if `size` is not a multiple of the page size. Otherwise returns
/// the calls that clear the pages on the platform.
pub fn prepare_clear(
    c: UnixPlatform,
    location: usize,
    size: usize,
    protection: Protection,
    page_size: usize,
) -> (r: Result<ClearCalls>)
    requires
        is_power_of_two(page_size),
    ensures
        r == clear_outcome(c, location, size, protection, page_size),
{
    match check_pages(location, size, page_size) {
        Ok(()) => Ok(clear_args(c, location, size, protection)),
        Err(e) => Err(e),
    }
}

/// Prepares the change of protection of a range of pages.
///
/// Returns [`Error::InvalidInput`] if `location` is not aligned to the page
/// size, or if `size` is not a multiple of the page size. Otherwise returns
/// the `mprotect` call to make.
pub fn prepare_protect(
    c: UnixPlatform,
    location: usize,
    size: usize,
    protection: Protection,
    page_size: usize,
) -> (r: Result<ProtectArgs>)
    requires
        is_power_of_two(page_size),
    ensures
        r == protect_outcome(c, location, size, protection, page_size),
{
    match check_pages(location, size, page_size) {
        Ok(()) => Ok(protect_args(c, location, size, protection)),
        Err(e) => Err(e),
    }
}

/// Prepares the advice to the system that a range of pages will temporarily
/// not be of interest, so that the system can use the memory. The pages may
/// read zero afterwards.
///
/// Returns [`Error::InvalidInput`] if `location` is not aligned to the page
/// size, or if `size` is not a multiple of the page size. Otherwise returns
/// the `madvise` call to make.
pub fn prepare_advise_free(c: UnixPlatform, location: usize, size: usize, page_size: usize) -> (r:
    Result<AdviseArgs>)
    requires
        is_power_of_two(page_size),
    ensures
        r == advise_free_outcome(c, location, size, page_size),
{
    match check_pages(location, size, page_size) {
        Ok(()) => Ok(advise_free_args(c, location, size)),
        Err(e) => Err(e),
    }
}

/// Clearing pages is accepted exactly when changing their protection, advising
/// their freeing and releasing them are. Where the free advice zeroes pages
/// (`MADV_DONTNEED` on Linux and Android, see
/// [`unix::clearing_by_advice_zeroes`]), clearing is that advice then the
/// protection change of the same pages; elsewhere it is a mapping of the same
/// pages in place, with the requested protection, the same `mmap` call as an
/// allocation at that place.
pub proof fn clear_calls_by_platform(
    c: UnixPlatform,
    location: usize,
    size: usize,
    protection: Protection,
    page_size: usize,
)
    ensures
        clear_outcome(c, location, size, protection, page_size) is Ok <==> protect_outcome(
            c,
            location,
            size,
            protection,
            page_size,
        ) is Ok,
        clear_outcome(c, location, size, protection, page_size) is Ok <==> advise_free_outcome(
            c,
            location,
            size,
            page_size,
        ) is Ok,
        clear_outcome(c, location, size, protection, page_size) is Ok <==> dealloc_outcome(
            location,
            size,
            page_size,
        ) is Ok,
        !c.policy.clear_by_remap ==> (clear_outcome(c, location, size, protection, page_size) matches Ok(
            calls,
        ) ==> {
            &&& calls matches ClearCalls::AdviseThenProtect(a)
            &&& advise_free_outcome(c, location, size, page_size) == Ok::<AdviseArgs, Error>(
                a.advise,
            )
            &&& protect_outcome(c, location, size, protection, page_size) == Ok::<
                ProtectArgs,
                Error,
            >(a.protect)
        }),
        c.policy.clear_by_remap ==> (clear_outcome(c, location, size, protection, page_size) matches Ok(
            calls,
        ) ==> {
            &&& calls == ClearCalls::Remap(alloc_args_spec(c, location, size, protection))
            &&& (location != 0 && distinct_fixed_bit(c) ==> alloc_args_spec(
                c,
                location,
                size,
                protection,
            ).flags & c.map_fixed != 0)
        }),
{
    if distinct_fixed_bit(c) {
        crate::unix::map_flags_bits(c, location != 0);
    }
}

/// Every refused request is refused with [`Error::InvalidInput`] (the system
/// is never asked), and an accepted allocation maps a non-empty region at the
/// given place, with the requested protection, fixed there exactly when a
/// place is given.
pub proof fn refusals_and_allocations(
    c: UnixPlatform,
    location: usize,
    size: usize,
    protection: Protection,
    granularity: usize,
    page_size: usize,
)
    requires
        is_power_of_two(granularity),
    ensures
        alloc_outcome(c, location, size, protection, granularity) matches Err(e) ==> e
            == Error::InvalidInput,
        dealloc_outcome(location, size, page_size) matches Err(e) ==> e == Error::InvalidInput,
        clear_outcome(c, location, size, protection, page_size) matches Err(e) ==> e
            == Error::InvalidInput,
        alloc_outcome(c, location, size, protection, granularity) matches Ok(m) ==> {
            &&& m.addr == location
            &&& m.len == size
            &&& 0 < size
            &&& m.prot == prot_flags(c, protection)
            &&& m.flags == map_flags(c, location != 0)
            &&& (distinct_fixed_bit(c) ==> (m.flags & c.map_fixed != 0 <==> location != 0))
        },
        alloc_outcome(c, 0, size, protection, granularity) is Ok <==> (size != 0 && size
            % granularity == 0),
{
    assert(0usize % granularity == 0);
    if distinct_fixed_bit(c) {
        crate::unix::map_flags_bits(c, location != 0);
    }
}

} // verus!
