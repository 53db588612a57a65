//! What each request does, stated over its inputs and the calls it prepares.
use vstd::prelude::*;
use crate::buffer::{is_buffer_region, selected_pages, RangeBound, Region};
use crate::checks::is_power_of_two;
use crate::error::Error;
use crate::protection::Protection;
use crate::unix::{
    target_policy_spec, ClearCalls, FreeAdvice, UnixPlatform, UnixTarget,
};
use crate::{advise_free_outcome, alloc_outcome, clear_outcome, dealloc_outcome, protect_outcome};

verus! {

/// The protection bits of the rights a protection grants: `PROT_READ` if it
/// can be read, `PROT_WRITE` if written, `PROT_EXEC` if executed.
pub open spec fn rights_bits(c: UnixPlatform, p: Protection) -> i32 {
    (if p.readable() { c.prot_read } else { 0i32 }) | (if p.writable() {
        c.prot_write
    } else {
        0i32
    }) | (if p.executable() { c.prot_exec } else { 0i32 })
}

proof fn unions_in_any_order(r: i32, w: i32, x: i32)
    by (bit_vector)
    ensures
        (0i32 | 0i32) | 0i32 == 0i32,
        (r | 0i32) | 0i32 == r,
        (r | w) | 0i32 == r | w,
        (0i32 | 0i32) | x == x,
        (r | 0i32) | x == x | r,
        (r | w) | x == x | r | w,
{
}

proof fn bits_of_unions(r: i32, w: i32, x: i32, v: i32)
    by (bit_vector)
    requires
        r != 0,
        w != 0,
        x != 0,
        r & w == 0,
        r & x == 0,
        w & x == 0,
    ensures
        v == 0i32 ==> v & r == 0 && v & w == 0 && v & x == 0,
        v == r ==> v & r != 0 && v & w == 0 && v & x == 0,
        v == r | w ==> v & r != 0 && v & w != 0 && v & x == 0,
        v == x ==> v & r == 0 && v & w == 0 && v & x != 0,
        v == x | r ==> v & r != 0 && v & w == 0 && v & x != 0,
        v == x | r | w ==> v & r != 0 && v & w != 0 && v & x != 0,
{
}

/// The protection bits of a protection are exactly its rights' bits (with
/// `PROT_NONE` being 0); where the three rights' bits are distinct, each
/// right shows in its own bit.
pub proof fn protection_bits_are_rights(c: UnixPlatform, p: Protection)
    requires
        c.prot_none == 0,
    ensures
        crate::unix::prot_flags(c, p) == rights_bits(c, p),
        (c.prot_read != 0 && c.prot_write != 0 && c.prot_exec != 0 && c.prot_read & c.prot_write
            == 0 && c.prot_read & c.prot_exec == 0 && c.prot_write & c.prot_exec == 0) ==> {
            &&& (rights_bits(c, p) & c.prot_read != 0 <==> p.readable())
            &&& (rights_bits(c, p) & c.prot_write != 0 <==> p.writable())
            &&& (rights_bits(c, p) & c.prot_exec != 0 <==> p.executable())
        },
{
    unions_in_any_order(c.prot_read, c.prot_write, c.prot_exec);
    if c.prot_read != 0 && c.prot_write != 0 && c.prot_exec != 0 && c.prot_read & c.prot_write
        == 0 && c.prot_read & c.prot_exec == 0 && c.prot_write & c.prot_exec == 0 {
        bits_of_unions(c.prot_read, c.prot_write, c.prot_exec, rights_bits(c, p));
    }
}

/// A request on existing pages (release, clear, protection change, free
/// advice) is accepted exactly when its start is aligned to the page size and
/// its length is a multiple of it, and then its calls name exactly those
/// pages; a protection change, and a clear (whether by advice then protection
/// change, or by remapping), carries exactly the protection's rights' bits.
pub proof fn page_requests_need_alignment(
    c: UnixPlatform,
    location: usize,
    size: usize,
    protection: Protection,
    page_size: usize,
)
    requires
        is_power_of_two(page_size),
    ensures
        dealloc_outcome(location, size, page_size) is Ok <==> (location % page_size == 0 && size
            % page_size == 0),
        clear_outcome(c, location, size, protection, page_size) is Ok <==> (location % page_size
            == 0 && size % page_size == 0),
        protect_outcome(c, location, size, protection, page_size) is Ok <==> (location % page_size
            == 0 && size % page_size == 0),
        advise_free_outcome(c, location, size, page_size) is Ok <==> (location % page_size == 0
            && size % page_size == 0),
        dealloc_outcome(location, size, page_size) matches Err(e) ==> e == Error::InvalidInput,
        protect_outcome(c, location, size, protection, page_size) matches Err(e) ==> e
            == Error::InvalidInput,
        dealloc_outcome(location, size, page_size) matches Ok(u) ==> u.addr == location && u.len
            == size,
        protect_outcome(c, location, size, protection, page_size) matches Ok(a) ==> {
            &&& a.addr == location
            &&& a.len == size
            &&& (c.prot_none == 0 ==> a.prot == rights_bits(c, protection))
        },
        advise_free_outcome(c, location, size, page_size) matches Ok(a) ==> a.addr == location
            && a.len == size,
        clear_outcome(c, location, size, protection, page_size) matches Ok(calls) ==> match calls {
            ClearCalls::AdviseThenProtect(args) => {
                &&& !c.policy.clear_by_remap
                &&& args.advise.addr == location
                &&& args.advise.len == size
                &&& args.protect.addr == location
                &&& args.protect.len == size
                &&& (c.prot_none == 0 ==> args.protect.prot == rights_bits(c, protection))
            },
            ClearCalls::Remap(m) => {
                &&& c.policy.clear_by_remap
                &&& m.addr == location
                &&& m.len == size
                &&& m.fd == -1
                &&& m.offset == 0
                &&& (c.prot_none == 0 ==> m.prot == rights_bits(c, protection))
            },
        },
{
    if c.prot_none == 0 {
        protection_bits_are_rights(c, protection);
    }
}

/// An allocation at a given (non-null) place is accepted exactly when the
/// place is aligned to the allocation granularity and the size is a non-zero
/// multiple of it; a null place only asks the size to be. An accepted
/// allocation maps exactly `size` bytes at the place, as an anonymous
/// mapping (no file, offset 0) with exactly the protection's rights' bits,
/// always private and anonymous, and fixed exactly when the place is given.
pub proof fn allocations_need_granularity(
    c: UnixPlatform,
    location: usize,
    size: usize,
    protection: Protection,
    granularity: usize,
)
    requires
        is_power_of_two(granularity),
    ensures
        alloc_outcome(c, location, size, protection, granularity) is Ok <==> ((location == 0
            || location % granularity == 0) && size != 0 && size % granularity == 0),
        location != 0 ==> (alloc_outcome(c, location, size, protection, granularity) is Ok <==> (
        location % granularity == 0 && size != 0 && size % granularity == 0)),
        alloc_outcome(c, location, size, protection, granularity) matches Err(e) ==> e
            == Error::InvalidInput,
        alloc_outcome(c, location, size, protection, granularity) matches Ok(m) ==> {
            &&& m.addr == location
            &&& m.len == size
            &&& m.fd == -1
            &&& m.offset == 0
            &&& (c.prot_none == 0 ==> m.prot == rights_bits(c, protection))
            &&& m.flags & (c.map_private | c.map_anonymous) == c.map_private | c.map_anonymous
            &&& (c.map_fixed != 0 && c.map_fixed & (c.map_private | c.map_anonymous) == 0 ==> (
            m.flags & c.map_fixed != 0 <==> location != 0))
        },
{
    if c.prot_none == 0 {
        protection_bits_are_rights(c, protection);
    }
    map_bits(c.map_private | c.map_anonymous, c.map_fixed);
}

proof fn map_bits(base: i32, f: i32)
    by (bit_vector)
    ensures
        base & base == base,
        (base | f) & base == base,
        f != 0 && f & base == 0 ==> (base | f) & f != 0 && base & f == 0,
{
}

/// The free advice is the platform's advice on exactly the requested pages,
/// and goes through `posix_madvise` exactly where the platform's advice is
/// `POSIX_MADV_DONTNEED`: on Linux and Android it is `madvise(MADV_DONTNEED)`.
/// Where pages are cleared by advice, the clear's advice is that same call.
pub proof fn free_advice_calls(
    c: UnixPlatform,
    t: UnixTarget,
    location: usize,
    size: usize,
    protection: Protection,
    page_size: usize,
)
    requires
        is_power_of_two(page_size),
    ensures
        advise_free_outcome(c, location, size, page_size) matches Ok(a) ==> {
            &&& a.addr == location
            &&& a.len == size
            &&& a.advice == c.free_advice_value
            &&& (a.posix <==> c.policy.free_advice == FreeAdvice::PosixMadvDontneed)
        },
        c.policy.free_advice == FreeAdvice::MadvDontneed ==> (advise_free_outcome(
            c,
            location,
            size,
            page_size,
        ) matches Ok(a) ==> !a.posix),
        (t == UnixTarget::Linux || t == UnixTarget::Android) ==> (target_policy_spec(t).free_advice
            == FreeAdvice::MadvDontneed && !target_policy_spec(t).clear_by_remap),
        t == UnixTarget::Macos ==> (target_policy_spec(t).free_advice
            == FreeAdvice::MadvFreeReusable && target_policy_spec(t).clear_by_remap),
        t == UnixTarget::Other ==> (target_policy_spec(t).free_advice
            == FreeAdvice::PosixMadvDontneed && target_policy_spec(t).clear_by_remap),
        (t != UnixTarget::Linux && t != UnixTarget::Android && t != UnixTarget::Macos && t
            != UnixTarget::Other) ==> (target_policy_spec(t).free_advice == FreeAdvice::MadvFree
            && target_policy_spec(t).clear_by_remap),
        !c.policy.clear_by_remap ==> (clear_outcome(c, location, size, protection, page_size)
            matches Ok(calls) ==> (calls matches ClearCalls::AdviseThenProtect(args) && Ok::<
            crate::unix::AdviseArgs,
            Error,
        >(args.advise) == advise_free_outcome(c, location, size, page_size) && args.protect.addr
            == location && args.protect.len == size)),
{
}

/// How a range of a buffer resolves: from an included start `a` to an
/// excluded end `b`, it is refused exactly when it reaches past the buffer,
/// ends before it starts, or a bound is not a multiple of the page size;
/// otherwise it is nothing when empty, or the `b - a` bytes from `a`. Every
/// other form of bound resolves as its equivalent: `..` is `0..len`, an
/// unbounded end is an excluded `len` (so a range may end exactly at the end
/// of the buffer), an excluded start `a` is an included `a + 1`, an included
/// end `b` is an excluded `b + 1`; a bound whose offset overflows is refused.
pub proof fn range_resolution(
    buf: Region,
    start: RangeBound,
    end: RangeBound,
    a: usize,
    b: usize,
    page_size: usize,
)
    requires
        is_buffer_region(buf),
        is_power_of_two(page_size),
    ensures
        selected_pages(buf, RangeBound::Included(a), RangeBound::Excluded(b), page_size) == (if b
            > buf.len || a > b || a % page_size != 0 || b % page_size != 0 {
            Err(Error::InvalidInput)
        } else if a == b {
            Ok(None)
        } else {
            Ok(Some(Region { addr: (buf.addr + a) as usize, len: (b - a) as usize }))
        }),
        selected_pages(buf, start, RangeBound::Unbounded, page_size) == selected_pages(
            buf,
            start,
            RangeBound::Excluded(buf.len),
            page_size,
        ),
        selected_pages(buf, RangeBound::Unbounded, end, page_size) == selected_pages(
            buf,
            RangeBound::Included(0),
            end,
            page_size,
        ),
        a < usize::MAX ==> selected_pages(buf, RangeBound::Excluded(a), end, page_size)
            == selected_pages(buf, RangeBound::Included((a + 1) as usize), end, page_size),
        b < usize::MAX ==> selected_pages(buf, start, RangeBound::Included(b), page_size)
            == selected_pages(buf, start, RangeBound::Excluded((b + 1) as usize), page_size),
        selected_pages(buf, RangeBound::Excluded(usize::MAX), end, page_size) is Err,
        selected_pages(buf, start, RangeBound::Included(usize::MAX), page_size) is Err,
{
}

} // verus!
