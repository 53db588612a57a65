//! A buffer of whole pages, and the page ranges of it that requests name.
use vstd::prelude::*;
use crate::checks::{is_power_of_two, pages_accepted};
use crate::error::Error;
use crate::protection::Protection;
use crate::unix::{AdviseArgs, ClearCalls, MapArgs, ProtectArgs, UnixPlatform, UnmapArgs};
use crate::{advise_free_outcome, alloc_outcome, clear_outcome, dealloc_outcome, protect_outcome};

verus! {

/// A range of memory: `len` bytes from address `addr`.
#[derive(Clone, Copy, PartialEq, Eq, Debug, Structural)]
pub struct Region {
    pub addr: usize,
    pub len: usize,
}

/// A region that a buffer can own: it starts at a non-null address and does
/// not wrap around the end of the address space.
pub open spec fn is_buffer_region(r: Region) -> bool {
    r.addr != 0 && r.addr + r.len <= usize::MAX
}

/// One end of a range of byte offsets, as `std::ops::Bound` gives it.
#[derive(Clone, Copy, PartialEq, Eq, Debug, Structural)]
pub enum RangeBound {
    Included(usize),
    Excluded(usize),
    Unbounded,
}

/// The first offset of a range whose start is `b`.
pub open spec fn lower_offset(b: RangeBound) -> int {
    match b {
        RangeBound::Included(s) => s as int,
        RangeBound::Excluded(s) => s + 1,
        RangeBound::Unbounded => 0,
    }
}

/// The offset past the end of a range whose end is `b`, in a buffer of `len` bytes.
pub open spec fn upper_offset(b: RangeBound, len: usize) -> int {
    match b {
        RangeBound::Included(e) => e + 1,
        RangeBound::Excluded(e) => e as int,
        RangeBound::Unbounded => len as int,
    }
}

/// The pages of the buffer `buf` that the range from `start` to `end` names:
/// an error if the range reaches past the buffer (a bound whose offset
/// overflows does), ends before it starts, or has a bound that is not a
/// multiple of the page size; nothing if the range is empty; the region
/// otherwise.
pub open spec fn selected_pages(
    buf: Region,
    start: RangeBound,
    end: RangeBound,
    page_size: usize,
) -> Result<Option<Region>, Error> {
    let s = lower_offset(start);
    let e = upper_offset(end, buf.len);
    if range_refused(buf, start, end, page_size) {
        Err(Error::InvalidInput)
    } else if s == e {
        Ok(None)
    } else {
        Ok(Some(Region { addr: (buf.addr + s) as usize, len: (e - s) as usize }))
    }
}

/// A range refused by the buffer's own rules: it reaches past the buffer,
/// ends before it starts, or a bound is not a multiple of the page size.
pub open spec fn range_refused(buf: Region, start: RangeBound, end: RangeBound, page_size: usize) -> bool {
    ||| upper_offset(end, buf.len) > buf.len
    ||| lower_offset(start) > upper_offset(end, buf.len)
    ||| lower_offset(start) % (page_size as int) != 0
    ||| upper_offset(end, buf.len) % (page_size as int) != 0
}

/// The raw parts of a region: its address and its length.
pub open spec fn raw_parts(r: Region) -> (usize, usize) {
    (r.addr, r.len)
}

/// The region with the given raw parts.
pub open spec fn region_from_raw_parts(parts: (usize, usize)) -> Region {
    Region { addr: parts.0, len: parts.1 }
}

/// The outcome of a request on the pages that a range selects: the
/// selection's error, nothing for an empty selection, or the outcome of the
/// request `op` on the selected region.
pub open spec fn request_outcome<T>(
    selected: Result<Option<Region>, Error>,
    op: spec_fn(Region) -> Result<T, Error>,
) -> Result<Option<T>, Error> {
    match selected {
        Err(e) => Err(e),
        Ok(None) => Ok(None),
        Ok(Some(region)) => match op(region) {
            Ok(call) => Ok(Some(call)),
            Err(e) => Err(e),
        },
    }
}

/// Taking a region apart into its raw parts and putting them together again
/// gives the region back, and the other way round: `from_raw_parts` undoes
/// `into_raw_parts`.
pub proof fn raw_parts_round_trip(r: Region, parts: (usize, usize))
    ensures
        region_from_raw_parts(raw_parts(r)) == r,
        raw_parts(region_from_raw_parts(parts)) == parts,
{
}

/// A region that a range selects lies inside the buffer, starts at the
/// range's first offset, is as long as the range, and is not empty.
pub proof fn selected_region_inside_buffer(
    buf: Region,
    start: RangeBound,
    end: RangeBound,
    page_size: usize,
)
    requires
        is_buffer_region(buf),
        is_power_of_two(page_size),
    ensures
        selected_pages(buf, start, end, page_size) matches Ok(Some(r)) ==> {
            &&& r.addr == buf.addr + lower_offset(start)
            &&& r.len == upper_offset(end, buf.len) - lower_offset(start)
            &&& 0 < r.len
            &&& buf.addr <= r.addr
            &&& r.addr + r.len <= buf.addr + buf.len
            &&& is_buffer_region(r)
        },
        selected_pages(buf, start, end, page_size) is Err <==> range_refused(buf, start, end, page_size),
{
}

/// For a buffer whose start is aligned to the page size (as every buffer
/// that was allocated is), a request on part of it is refused exactly when a
/// bound is not a multiple of the page size, the range reaches past the
/// buffer, or it ends before it starts; every other request is carried out on the selected pages, or is
/// nothing to do when the range is empty.
pub proof fn aligned_buffer_requests(
    c: UnixPlatform,
    buf: Region,
    start: RangeBound,
    end: RangeBound,
    protection: Protection,
    page_size: usize,
)
    requires
        is_buffer_region(buf),
        is_power_of_two(page_size),
        buf.addr % page_size == 0,
    ensures
        request_outcome(
            selected_pages(buf, start, end, page_size),
            |r: Region| clear_outcome(c, r.addr, r.len, protection, page_size),
        ) is Err <==> range_refused(buf, start, end, page_size),
        request_outcome(
            selected_pages(buf, start, end, page_size),
            |r: Region| protect_outcome(c, r.addr, r.len, protection, page_size),
        ) is Err <==> range_refused(buf, start, end, page_size),
        request_outcome(
            selected_pages(buf, start, end, page_size),
            |r: Region| advise_free_outcome(c, r.addr, r.len, page_size),
        ) is Err <==> range_refused(buf, start, end, page_size),
        selected_pages(buf, start, end, page_size) matches Ok(Some(r)) ==> pages_accepted(
            r.addr,
            r.len,
            page_size,
        ),
{
    let p = page_size as int;
    let s = lower_offset(start);
    let e = upper_offset(end, buf.len);
    if !range_refused(buf, start, end, page_size) && s != e {
        assert(0int % p == 0);
        assert((buf.addr as int) % p == 0);
        vstd::arithmetic::div_mod::lemma_add_mod_noop(buf.addr as int, s, p);
        vstd::arithmetic::div_mod::lemma_sub_mod_noop(e, s, p);
        assert((buf.addr + s) % p == 0);
        assert((e - s) % p == 0);
    }
}

/// The whole-buffer range `..` selects the whole buffer when its length is a
/// non-zero multiple of the page size.
pub proof fn unbounded_range_selects_whole_buffer(buf: Region, page_size: usize)
    requires
        is_power_of_two(page_size),
        buf.len % page_size == 0,
        buf.len != 0,
    ensures
        selected_pages(buf, RangeBound::Unbounded, RangeBound::Unbounded, page_size) == Ok::<
            Option<Region>,
            Error,
        >(Some(buf)),
{
    assert(0int % (page_size as int) == 0);
    assert(Region { addr: (buf.addr + 0int) as usize, len: (buf.len - 0int) as usize } == buf);
}

/// A safe handle on a range of whole pages.
pub struct ByteBuffer {
    addr: usize,
    size: usize,
}

impl View for ByteBuffer {
    type V = Region;

    closed spec fn view(&self) -> Region {
        Region { addr: self.addr, len: self.size }
    }
}

impl ByteBuffer {
    #[verifier::type_invariant]
    spec fn inv(self) -> bool {
        is_buffer_region(self@)
    }

    /// Prepares the allocation of the pages of a new buffer of `size` bytes,
    /// placed where the system chooses.
    ///
    /// Returns [`Error::InvalidInput`] if `size` is zero or not a multiple of
    /// the allocation granularity. Otherwise returns the `mmap` call to make;
    /// [`ByteBuffer::from_raw_parts`] then takes the address it returns.
    pub fn prepare_new(c: UnixPlatform, size: usize, protection: Protection, granularity: usize) -> (r:
        Result<MapArgs, Error>)
        requires
            is_power_of_two(granularity),
        ensures
            r == alloc_outcome(c, 0, size, protection, granularity),
    {
        crate::prepare_alloc(c, 0, size, protection, granularity)
    }

    /// Instantiate a [`ByteBuffer`] from an allocated range of memory.
    ///
    /// For portability, `addr` and `size` must exactly match the memory range
    /// allocated, or returned by [`into_raw_parts`](Self::into_raw_parts).
    pub fn from_raw_parts(addr: usize, size: usize) -> (b: ByteBuffer)
        requires
            is_buffer_region(region_from_raw_parts((addr, size))),
        ensures
            b@ == region_from_raw_parts((addr, size)),
    {
        ByteBuffer { addr, size }
    }

    /// Consume the buffer, returning the underlying allocation.
    pub fn into_raw_parts(self) -> (parts: (usize, usize))
        ensures
            parts == raw_parts(self@),
            is_buffer_region(self@),
    {
        proof {
            use_type_invariant(&self);
        }
        (self.addr, self.size)
    }

    /// The underlying allocation, as a region.
    pub fn get_raw(&self) -> (r: Region)
        ensures
            r == self@,
            is_buffer_region(r),
    {
        proof {
            use_type_invariant(self);
        }
        Region { addr: self.addr, len: self.size }
    }

    /// The pages of the buffer that the range from `start` to `end` names.
    ///
    /// Returns [`Error::InvalidInput`] if either bound is not a multiple of
    /// the page size, if the range reaches past the buffer (a bound whose
    /// offset overflows does), or if it ends before it starts; `None` if the
    /// range is empty.
    pub fn select_pages(&self, start: RangeBound, end: RangeBound, page_size: usize) -> (r: Result<
        Option<Region>,
        Error,
    >)
        requires
            is_power_of_two(page_size),
        ensures
            r == selected_pages(self@, start, end, page_size),
            r matches Ok(Some(region)) ==> is_buffer_region(region),
    {
        proof {
            use_type_invariant(self);
        }
        let s = match start {
            RangeBound::Included(s) => s,
            RangeBound::Excluded(s) => {
                if s == usize::MAX {
                    return Err(Error::InvalidInput);
                }
                s + 1
            },
            RangeBound::Unbounded => 0,
        };
        let e = match end {
            RangeBound::Included(e) => {
                if e >= self.size {
                    return Err(Error::InvalidInput);
                }
                e + 1
            },
            RangeBound::Excluded(e) => e,
            RangeBound::Unbounded => self.size,
        };
        if e > self.size || s > e || s % page_size != 0 || e % page_size != 0 {
            return Err(Error::InvalidInput);
        }
        if s == e {
            return Ok(None);
        }
        Ok(Some(Region { addr: self.addr + s, len: e - s }))
    }

    /// Prepares the clearing of part of the buffer, such that it remains
    /// allocated, returns zero when accessed and gets the given protection.
    ///
    /// Returns [`Error::InvalidInput`] if either bound is not a multiple of
    /// the page size, if out of bounds, or if the range ends before it starts;
    /// `None` (nothing to do) if the range
    /// is empty; otherwise the calls that clear the pages on the platform.
    pub fn prepare_clear(
        &self,
        c: UnixPlatform,
        start: RangeBound,
        end: RangeBound,
        protection: Protection,
        page_size: usize,
    ) -> (r: Result<Option<ClearCalls>, Error>)
        requires
            is_power_of_two(page_size),
        ensures
            r == request_outcome(
                selected_pages(self@, start, end, page_size),
                |region: Region| clear_outcome(c, region.addr, region.len, protection, page_size),
            ),
    {
        match self.select_pages(start, end, page_size) {
            Err(e) => Err(e),
            Ok(None) => Ok(None),
            Ok(Some(region)) => match crate::prepare_clear(
                c,
                region.addr,
                region.len,
                protection,
                page_size,
            ) {
                Ok(args) => Ok(Some(args)),
                Err(e) => Err(e),
            },
        }
    }

    /// Prepares the change of protection of part of the buffer.
    ///
    /// Returns [`Error::InvalidInput`] if either bound is not a multiple of
    /// the page size, if out of bounds, or if the range ends before it starts;
    /// `None` (nothing to do) if the range
    /// is empty; otherwise the `mprotect` call to make.
    pub fn prepare_protect(
        &self,
        c: UnixPlatform,
        start: RangeBound,
        end: RangeBound,
        protection: Protection,
        page_size: usize,
    ) -> (r: Result<Option<ProtectArgs>, Error>)
        requires
            is_power_of_two(page_size),
        ensures
            r == request_outcome(
                selected_pages(self@, start, end, page_size),
                |region: Region| protect_outcome(c, region.addr, region.len, protection, page_size),
            ),
    {
        match self.select_pages(start, end, page_size) {
            Err(e) => Err(e),
            Ok(None) => Ok(None),
            Ok(Some(region)) => match crate::prepare_protect(
                c,
                region.addr,
                region.len,
                protection,
                page_size,
            ) {
                Ok(args) => Ok(Some(args)),
                Err(e) => Err(e),
            },
        }
    }

    /// Prepares the advice to the system that part of the buffer will
    /// temporarily not be of interest, so that the system can use the memory.
    ///
    /// Returns [`Error::InvalidInput`] if either bound is not a multiple of
    /// the page size, if out of bounds, or if the range ends before it starts;
    /// `None` (nothing to do) if the range
    /// is empty; otherwise the `madvise` call to make.
    pub fn prepare_advise_free(
        &self,
        c: UnixPlatform,
        start: RangeBound,
        end: RangeBound,
        page_size: usize,
    ) -> (r: Result<Option<AdviseArgs>, Error>)
        requires
            is_power_of_two(page_size),
        ensures
            r == request_outcome(
                selected_pages(self@, start, end, page_size),
                |region: Region| advise_free_outcome(c, region.addr, region.len, page_size),
            ),
    {
        match self.select_pages(start, end, page_size) {
            Err(e) => Err(e),
            Ok(None) => Ok(None),
            Ok(Some(region)) => match crate::prepare_advise_free(
                c,
                region.addr,
                region.len,
                page_size,
            ) {
                Ok(args) => Ok(Some(args)),
                Err(e) => Err(e),
            },
        }
    }

    /// Prepares the release of the buffer's pages when it is dropped: the
    /// `munmap` call of its whole region, or [`Error::InvalidInput`] if the
    /// region is not aligned to the page size or its length not a multiple of it.
    pub fn prepare_drop(self, page_size: usize) -> (r: Result<UnmapArgs, Error>)
        requires
            is_power_of_two(page_size),
        ensures
            r == dealloc_outcome(self@.addr, self@.len, page_size),
    {
        crate::prepare_dealloc(self.addr, self.size, page_size)
    }
}

} // verus!
