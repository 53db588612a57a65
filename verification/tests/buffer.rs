use pagealloc::buffer::{ByteBuffer, RangeBound, Region};
use pagealloc::{ClearCalls, Error, Protection, UnixPlatform};
use pagealloc::unix::{target_policy, UnixTarget};

const GRANULARITY: usize = 4096;
const PAGE_SIZE: usize = 4096;
const MAPPED: usize = 0x7f00_0000_0000;

/// The constants of the Linux target these tests run on, as `libc` gives them.
fn linux() -> UnixPlatform {
    UnixPlatform {
        prot_none: libc::PROT_NONE,
        prot_read: libc::PROT_READ,
        prot_write: libc::PROT_WRITE,
        prot_exec: libc::PROT_EXEC,
        map_private: libc::MAP_PRIVATE,
        map_anonymous: libc::MAP_ANONYMOUS,
        map_fixed: libc::MAP_FIXED,
        map_failed: libc::MAP_FAILED as usize,
        policy: target_policy(UnixTarget::Linux),
        free_advice_value: libc::MADV_DONTNEED,
    }
}

/// The constants of macOS, as the `libc` source defines them there.
fn macos() -> UnixPlatform {
    UnixPlatform {
        prot_none: 0,
        prot_read: 1,
        prot_write: 2,
        prot_exec: 4,
        map_private: 0x0002,
        map_anonymous: 0x1000,
        map_fixed: 0x0010,
        map_failed: usize::MAX,
        policy: target_policy(UnixTarget::Macos),
        free_advice_value: 7,
    }
}

fn buffer(size: usize) -> ByteBuffer {
    ByteBuffer::from_raw_parts(MAPPED, size)
}

#[test]
fn read_only_misaligned() {
    let size = 100 * GRANULARITY;
    assert!(ByteBuffer::prepare_new(linux(), size + 1, Protection::Read, GRANULARITY).is_err());
}

#[test]
fn new_buffer_mapping() {
    let size = 100 * GRANULARITY;
    let map = ByteBuffer::prepare_new(linux(), size, Protection::Read, GRANULARITY).unwrap();
    assert_eq!(map.addr, 0);
    assert_eq!(map.len, size);
    assert_eq!(map.prot, 1);
    assert_eq!(map.flags, 0x22);
    assert_eq!(ByteBuffer::prepare_new(linux(), 0, Protection::Read, GRANULARITY), Err(Error::InvalidInput));
}

#[test]
fn protect_calls() {
    let size = 100 * GRANULARITY;
    let buf = buffer(size);
    let args = buf
        .prepare_protect(
            linux(),
            RangeBound::Included(0),
            RangeBound::Excluded(GRANULARITY),
            Protection::Read,
            PAGE_SIZE,
        )
        .unwrap()
        .unwrap();
    assert_eq!(args.addr, MAPPED);
    assert_eq!(args.len, GRANULARITY);
    assert_eq!(args.prot, 1);
}

#[test]
fn clear_calls() {
    let size = 100 * GRANULARITY;
    let buf = buffer(size);
    let args = buf
        .prepare_clear(
            linux(),
            RangeBound::Included(0),
            RangeBound::Excluded(GRANULARITY),
            Protection::ReadWrite,
            PAGE_SIZE,
        )
        .unwrap()
        .unwrap();
    let ClearCalls::AdviseThenProtect(args) = args else { panic!("Linux clears with madvise") };
    assert_eq!(args.advise.addr, MAPPED);
    assert_eq!(args.advise.len, GRANULARITY);
    assert_eq!(args.advise.advice, 4);
    assert_eq!(args.protect.prot, 3);
}

#[test]
fn protect_misaligned() {
    let size = 100 * GRANULARITY;
    let buf = buffer(size);
    assert!(buf
        .prepare_protect(
            linux(),
            RangeBound::Included(1),
            RangeBound::Excluded(GRANULARITY),
            Protection::Read,
            PAGE_SIZE
        )
        .is_err());
}

#[test]
fn advise_free_calls() {
    let size = 100 * GRANULARITY;
    let buf = buffer(size);
    let args = buf
        .prepare_advise_free(
            linux(),RangeBound::Included(0), RangeBound::Excluded(GRANULARITY), PAGE_SIZE)
        .unwrap()
        .unwrap();
    assert_eq!(args.addr, MAPPED);
    assert_eq!(args.len, GRANULARITY);
}

#[test]
fn advise_free_misaligned() {
    let size = 100 * GRANULARITY;
    let buf = buffer(size);
    assert!(buf
        .prepare_advise_free(
            linux(),RangeBound::Included(1), RangeBound::Excluded(GRANULARITY), PAGE_SIZE)
        .is_err());
}

#[test]
fn raw_parts_round_trip() {
    let size = 100 * GRANULARITY;
    let buf = buffer(size);
    let (ptr, len) = buf.into_raw_parts();
    assert_eq!((ptr, len), (MAPPED, size));
    let buf = ByteBuffer::from_raw_parts(ptr, len);
    assert_eq!(buf.get_raw(), Region { addr: MAPPED, len: size });
}

#[test]
fn whole_buffer_range() {
    let size = 3 * PAGE_SIZE;
    let buf = buffer(size);
    assert_eq!(
        buf.select_pages(RangeBound::Unbounded, RangeBound::Unbounded, PAGE_SIZE),
        Ok(Some(Region { addr: MAPPED, len: size }))
    );
    let args = buf
        .prepare_clear(
            linux(),RangeBound::Unbounded, RangeBound::Unbounded, Protection::ReadWrite, PAGE_SIZE)
        .unwrap()
        .unwrap();
    let ClearCalls::AdviseThenProtect(args) = args else { panic!("Linux clears with madvise") };
    assert_eq!(args.protect.len, size);
}

#[test]
fn out_of_bounds_and_overflowing_ranges() {
    let size = 4 * PAGE_SIZE;
    let buf = buffer(size);
    // Starts past the end.
    assert_eq!(
        buf.select_pages(RangeBound::Included(size + PAGE_SIZE), RangeBound::Unbounded, PAGE_SIZE),
        Err(Error::InvalidInput)
    );
    // `..=usize::MAX`: the end overflows.
    assert_eq!(
        buf.prepare_protect(
            linux(),
            RangeBound::Unbounded,
            RangeBound::Included(usize::MAX),
            Protection::Read,
            PAGE_SIZE
        ),
        Err(Error::InvalidInput)
    );
    // Excluded start `usize::MAX`.
    assert_eq!(
        buf.select_pages(RangeBound::Excluded(usize::MAX), RangeBound::Unbounded, PAGE_SIZE),
        Err(Error::InvalidInput)
    );
    // Ends before it starts.
    assert_eq!(
        buf.select_pages(
            RangeBound::Included(2 * PAGE_SIZE),
            RangeBound::Excluded(PAGE_SIZE),
            PAGE_SIZE
        ),
        Err(Error::InvalidInput)
    );
}

#[test]
fn clear_remaps_range_off_linux() {
    let buf = buffer(4 * PAGE_SIZE);
    let calls = buf
        .prepare_clear(
            macos(),
            RangeBound::Included(PAGE_SIZE),
            RangeBound::Excluded(3 * PAGE_SIZE),
            Protection::ReadWrite,
            PAGE_SIZE,
        )
        .unwrap()
        .unwrap();
    let ClearCalls::Remap(map) = calls else { panic!("macOS clears by remapping") };
    assert_eq!((map.addr, map.len, map.flags, map.prot), (MAPPED + PAGE_SIZE, 2 * PAGE_SIZE, 0x1012, 3));
}

#[test]
fn range_bounds_resolution() {
    let size = 4 * PAGE_SIZE;
    let buf = buffer(size);
    // ..=8191 is 0..8192.
    assert_eq!(
        buf.select_pages(RangeBound::Unbounded, RangeBound::Included(2 * PAGE_SIZE - 1), PAGE_SIZE),
        Ok(Some(Region { addr: MAPPED, len: 2 * PAGE_SIZE }))
    );
    // (4095, 8192) excluded start is 4096..8192.
    assert_eq!(
        buf.select_pages(
            RangeBound::Excluded(PAGE_SIZE - 1),
            RangeBound::Excluded(2 * PAGE_SIZE),
            PAGE_SIZE
        ),
        Ok(Some(Region { addr: MAPPED + PAGE_SIZE, len: PAGE_SIZE }))
    );
    // 8192.. reaches the end.
    assert_eq!(
        buf.select_pages(RangeBound::Included(2 * PAGE_SIZE), RangeBound::Unbounded, PAGE_SIZE),
        Ok(Some(Region { addr: MAPPED + 2 * PAGE_SIZE, len: 2 * PAGE_SIZE }))
    );
}

#[test]
fn empty_and_out_of_bounds_ranges() {
    let size = 4 * PAGE_SIZE;
    let buf = buffer(size);
    assert_eq!(
        buf.select_pages(RangeBound::Included(PAGE_SIZE), RangeBound::Excluded(PAGE_SIZE), PAGE_SIZE),
        Ok(None)
    );
    assert_eq!(
        buf.prepare_protect(
            linux(),
            RangeBound::Included(PAGE_SIZE),
            RangeBound::Excluded(PAGE_SIZE),
            Protection::Read,
            PAGE_SIZE
        ),
        Ok(None)
    );
    assert_eq!(
        buf.prepare_protect(
            linux(),
            RangeBound::Included(0),
            RangeBound::Excluded(5 * PAGE_SIZE),
            Protection::Read,
            PAGE_SIZE
        ),
        Err(Error::InvalidInput)
    );
    assert_eq!(
        buf.select_pages(RangeBound::Included(0), RangeBound::Excluded(PAGE_SIZE + 1), PAGE_SIZE),
        Err(Error::InvalidInput)
    );
}

#[test]
fn unaligned_buffer_start_is_refused() {
    let buf = ByteBuffer::from_raw_parts(MAPPED + 16, 2 * PAGE_SIZE);
    assert_eq!(
        buf.prepare_advise_free(
            linux(),RangeBound::Unbounded, RangeBound::Unbounded, PAGE_SIZE),
        Err(Error::InvalidInput)
    );
}

#[test]
fn drop_releases_whole_buffer() {
    let buf = buffer(3 * PAGE_SIZE);
    let unmap = buf.prepare_drop(PAGE_SIZE).unwrap();
    assert_eq!(unmap.addr, MAPPED);
    assert_eq!(unmap.len, 3 * PAGE_SIZE);
}
