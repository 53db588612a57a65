//! The Windows backend: the arguments of `VirtualAlloc`, `VirtualFree` and
//! `VirtualProtect`, and what their results mean.
//!
//! The constant values stated below are those that the `windows-sys` crate
//! defines.
use vstd::prelude::*;
use crate::checks::{alloc_accepted, check_alloc, check_pages, is_power_of_two, pages_accepted};
use crate::error::{last_os_error, Error, Result};
use crate::protection::Protection;

verus! {

/// `PAGE_NOACCESS`, which `windows-sys` defines as 0x01.
#[verifier::external_body]
fn page_noaccess() -> (r: u32)
    ensures
        r == 0x01,
{
    windows_sys::Win32::System::Memory::PAGE_NOACCESS
}

/// `PAGE_READONLY`, which `windows-sys` defines as 0x02.
#[verifier::external_body]
fn page_readonly() -> (r: u32)
    ensures
        r == 0x02,
{
    windows_sys::Win32::System::Memory::PAGE_READONLY
}

/// `PAGE_READWRITE`, which `windows-sys` defines as 0x04.
#[verifier::external_body]
fn page_readwrite() -> (r: u32)
    ensures
        r == 0x04,
{
    windows_sys::Win32::System::Memory::PAGE_READWRITE
}

/// `PAGE_EXECUTE`, which `windows-sys` defines as 0x10.
#[verifier::external_body]
fn page_execute() -> (r: u32)
    ensures
        r == 0x10,
{
    windows_sys::Win32::System::Memory::PAGE_EXECUTE
}

/// `PAGE_EXECUTE_READ`, which `windows-sys` defines as 0x20.
#[verifier::external_body]
fn page_execute_read() -> (r: u32)
    ensures
        r == 0x20,
{
    windows_sys::Win32::System::Memory::PAGE_EXECUTE_READ
}

/// `PAGE_EXECUTE_READWRITE`, which `windows-sys` defines as 0x40.
#[verifier::external_body]
fn page_execute_readwrite() -> (r: u32)
    ensures
        r == 0x40,
{
    windows_sys::Win32::System::Memory::PAGE_EXECUTE_READWRITE
}

/// `MEM_COMMIT`, which `windows-sys` defines as 0x1000.
#[verifier::external_body]
fn mem_commit() -> (r: u32)
    ensures
        r == 0x1000,
{
    windows_sys::Win32::System::Memory::MEM_COMMIT
}

/// `MEM_RESERVE`, which `windows-sys` defines as 0x2000.
#[verifier::external_body]
fn mem_reserve() -> (r: u32)
    ensures
        r == 0x2000,
{
    windows_sys::Win32::System::Memory::MEM_RESERVE
}

/// `MEM_DECOMMIT`, which `windows-sys` defines as 0x4000.
#[verifier::external_body]
fn mem_decommit() -> (r: u32)
    ensures
        r == 0x4000,
{
    windows_sys::Win32::System::Memory::MEM_DECOMMIT
}

/// `MEM_RELEASE`, which `windows-sys` defines as 0x8000.
#[verifier::external_body]
fn mem_release() -> (r: u32)
    ensures
        r == 0x8000,
{
    windows_sys::Win32::System::Memory::MEM_RELEASE
}

/// `MEM_RESET`, which `windows-sys` defines as 0x80000.
#[verifier::external_body]
fn mem_reset() -> (r: u32)
    ensures
        r == 0x80000,
{
    windows_sys::Win32::System::Memory::MEM_RESET
}

/// The page protection constant of a protection: one constant per protection.
pub open spec fn page_protection(protection: Protection) -> u32 {
    match protection {
        Protection::NoAccess => 0x01,
        Protection::Read => 0x02,
        Protection::ReadWrite => 0x04,
        Protection::Exec => 0x10,
        Protection::ExecRead => 0x20,
        Protection::ExecReadWrite => 0x40,
    }
}

/// Every protection has its own page protection constant, a single bit.
pub proof fn page_protection_distinct(p: Protection, q: Protection)
    ensures
        page_protection(p) == page_protection(q) <==> p == q,
        page_protection(p) & ((page_protection(p) - 1) as u32) == 0,
        page_protection(p) != 0,
{
    assert(0x01u32 & 0x00u32 == 0) by (bit_vector);
    assert(0x02u32 & 0x01u32 == 0) by (bit_vector);
    assert(0x04u32 & 0x03u32 == 0) by (bit_vector);
    assert(0x10u32 & 0x0fu32 == 0) by (bit_vector);
    assert(0x20u32 & 0x1fu32 == 0) by (bit_vector);
    assert(0x40u32 & 0x3fu32 == 0) by (bit_vector);
}

/// The page protection flag for `VirtualAlloc` and `VirtualProtect`.
pub fn protection_flag(protection: Protection) -> (flag: u32)
    ensures
        flag == page_protection(protection),
{
    match protection {
        Protection::NoAccess => page_noaccess(),
        Protection::Read => page_readonly(),
        Protection::ReadWrite => page_readwrite(),
        Protection::Exec => page_execute(),
        Protection::ExecRead => page_execute_read(),
        Protection::ExecReadWrite => page_execute_readwrite(),
    }
}

/// The arguments of `VirtualAlloc(addr, size, allocation_type, protect)`.
#[derive(Clone, Copy, PartialEq, Eq, Debug, Structural)]
pub struct VirtualAllocArgs {
    pub addr: usize,
    pub size: usize,
    pub allocation_type: u32,
    pub protect: u32,
}

/// The arguments of `VirtualFree(addr, size, free_type)`.
#[derive(Clone, Copy, PartialEq, Eq, Debug, Structural)]
pub struct VirtualFreeArgs {
    pub addr: usize,
    pub size: usize,
    pub free_type: u32,
}

/// The arguments of `VirtualProtect(addr, size, protect, &mut old)`.
#[derive(Clone, Copy, PartialEq, Eq, Debug, Structural)]
pub struct VirtualProtectArgs {
    pub addr: usize,
    pub size: usize,
    pub protect: u32,
}

/// The two calls that clear pages: decommit them, then commit them again
/// with the requested protection (committed pages read zero). Both name the
/// same range.
#[derive(Clone, Copy, PartialEq, Eq, Debug, Structural)]
pub struct ClearCalls {
    pub decommit: VirtualFreeArgs,
    pub commit: VirtualAllocArgs,
}

/// The `VirtualAlloc` call that reserves and commits (`MEM_RESERVE | MEM_COMMIT`)
/// `size` bytes at
/// `location` (or where the system chooses, when `location` is 0).
pub fn alloc_args(location: usize, size: usize, protection: Protection) -> (args: VirtualAllocArgs)
    ensures
        args == (VirtualAllocArgs {
            addr: location,
            size,
            allocation_type: 0x3000,
            protect: page_protection(protection),
        }),
{
    let reserve = mem_reserve();
    let commit = mem_commit();
    assert(0x2000u32 | 0x1000u32 == 0x3000u32) by (bit_vector);
    VirtualAllocArgs {
        addr: location,
        size,
        allocation_type: reserve | commit,
        protect: protection_flag(protection),
    }
}

/// What the address returned by `VirtualAlloc` means: null is a failure
/// reported through `GetLastError`; any other address is the allocation.
pub fn alloc_result(ret: usize) -> (res: Result<usize>)
    ensures
        ret != 0 ==> res == Ok::<usize, Error>(ret),
        ret == 0 ==> (res matches Err(e) && e is Os),
{
    if ret == 0 {
        return Err(last_os_error());
    }
    Ok(ret)
}

/// What a call's success means: `Ok`, or the error reported through
/// `GetLastError`.
pub fn status_result(succeeded: bool) -> (res: Result<()>)
    ensures
        succeeded <==> res is Ok,
        res matches Err(e) ==> e is Os,
{
    if succeeded {
        Ok(())
    } else {
        Err(last_os_error())
    }
}

/// The `VirtualFree` call that releases the whole allocation starting at
/// `start`: the size must be 0 for a release, so the given size is not used.
pub fn dealloc_args(start: usize, size: usize) -> (args: VirtualFreeArgs)
    ensures
        args == (VirtualFreeArgs { addr: start, size: 0, free_type: 0x8000 }),
{
    VirtualFreeArgs { addr: start, size: 0, free_type: mem_release() }
}

/// The calls that clear the pages: `VirtualFree(MEM_DECOMMIT)` of exactly the
/// `size` bytes from `start` (no other page of the allocation is touched),
/// then `VirtualAlloc(MEM_COMMIT)` of the same bytes with the requested
/// protection.
pub fn clear_args(start: usize, size: usize, protection: Protection) -> (calls: ClearCalls)
    ensures
        calls == (ClearCalls {
            decommit: VirtualFreeArgs { addr: start, size, free_type: 0x4000 },
            commit: VirtualAllocArgs {
                addr: start,
                size,
                allocation_type: 0x1000,
                protect: page_protection(protection),
            },
        }),
{
    ClearCalls {
        decommit: VirtualFreeArgs { addr: start, size, free_type: mem_decommit() },
        commit: VirtualAllocArgs {
            addr: start,
            size,
            allocation_type: mem_commit(),
            protect: protection_flag(protection),
        },
    }
}

/// The `VirtualProtect` call that changes the protection of the pages.
pub fn protect_args(start: usize, size: usize, protection: Protection) -> (args:
    VirtualProtectArgs)
    ensures
        args == (VirtualProtectArgs { addr: start, size, protect: page_protection(protection) }),
{
    VirtualProtectArgs { addr: start, size, protect: protection_flag(protection) }
}

/// The `VirtualAlloc(MEM_RESET, PAGE_NOACCESS)` call that lets the system
/// take the pages back.
pub fn advise_free_args(start: usize, size: usize) -> (args: VirtualAllocArgs)
    ensures
        args == (VirtualAllocArgs {
            addr: start,
            size,
            allocation_type: 0x80000,
            protect: 0x01,
        }),
{
    VirtualAllocArgs {
        addr: start,
        size,
        allocation_type: mem_reset(),
        protect: page_noaccess(),
    }
}

/// Prepares the allocation of virtual pages: [`Error::InvalidInput`] if
/// `location` is non-null and not aligned to the allocation granularity, if
/// `size` is zero, or if `size` is not a multiple of the allocation
/// granularity; otherwise the `VirtualAlloc` call to make.
pub fn prepare_alloc(location: usize, size: usize, protection: Protection, granularity: usize) -> (r:
    Result<VirtualAllocArgs>)
    requires
        is_power_of_two(granularity),
    ensures
        r == (if alloc_accepted(location, size, granularity) {
            Ok(
                VirtualAllocArgs {
                    addr: location,
                    size,
                    allocation_type: 0x3000,
                    protect: page_protection(protection),
                },
            )
        } else {
            Err(Error::InvalidInput)
        }),
{
    match check_alloc(location, size, granularity) {
        Ok(()) => Ok(alloc_args(location, size, protection)),
        Err(e) => Err(e),
    }
}

/// Prepares the release of virtual pages: [`Error::InvalidInput`] if
/// `location` is not aligned to the page size or `size` is not a multiple of
/// it; otherwise the `VirtualFree(MEM_RELEASE)` call of the allocation.
pub fn prepare_dealloc(location: usize, size: usize, page_size: usize) -> (r: Result<VirtualFreeArgs>)
    requires
        is_power_of_two(page_size),
    ensures
        r == (if pages_accepted(location, size, page_size) {
            Ok(VirtualFreeArgs { addr: location, size: 0, free_type: 0x8000 })
        } else {
            Err(Error::InvalidInput)
        }),
{
    match check_pages(location, size, page_size) {
        Ok(()) => Ok(dealloc_args(location, size)),
        Err(e) => Err(e),
    }
}

/// Prepares the clearing of pages: [`Error::InvalidInput`] if `location` is
/// not aligned to the page size or `size` is not a multiple of it; otherwise
/// the decommit and commit of exactly those pages.
pub fn prepare_clear(location: usize, size: usize, protection: Protection, page_size: usize) -> (r:
    Result<ClearCalls>)
    requires
        is_power_of_two(page_size),
    ensures
        r == (if pages_accepted(location, size, page_size) {
            Ok(
                ClearCalls {
                    decommit: VirtualFreeArgs { addr: location, size, free_type: 0x4000 },
                    commit: VirtualAllocArgs {
                        addr: location,
                        size,
                        allocation_type: 0x1000,
                        protect: page_protection(protection),
                    },
                },
            )
        } else {
            Err(Error::InvalidInput)
        }),
{
    match check_pages(location, size, page_size) {
        Ok(()) => Ok(clear_args(location, size, protection)),
        Err(e) => Err(e),
    }
}

/// Prepares the change of protection of pages: [`Error::InvalidInput`] if
/// `location` is not aligned to the page size or `size` is not a multiple of
/// it; otherwise the `VirtualProtect` call to make.
pub fn prepare_protect(location: usize, size: usize, protection: Protection, page_size: usize) -> (r:
    Result<VirtualProtectArgs>)
    requires
        is_power_of_two(page_size),
    ensures
        r == (if pages_accepted(location, size, page_size) {
            Ok(VirtualProtectArgs { addr: location, size, protect: page_protection(protection) })
        } else {
            Err(Error::InvalidInput)
        }),
{
    match check_pages(location, size, page_size) {
        Ok(()) => Ok(protect_args(location, size, protection)),
        Err(e) => Err(e),
    }
}

/// Prepares the advice that pages will temporarily not be of interest:
/// [`Error::InvalidInput`] if `location` is not aligned to the page size or
/// `size` is not a multiple of it; otherwise the `VirtualAlloc(MEM_RESET)` call.
pub fn prepare_advise_free(location: usize, size: usize, page_size: usize) -> (r: Result<
    VirtualAllocArgs,
>)
    requires
        is_power_of_two(page_size),
    ensures
        r == (if pages_accepted(location, size, page_size) {
            Ok(
                VirtualAllocArgs {
                    addr: location,
                    size,
                    allocation_type: 0x80000,
                    protect: 0x01,
                },
            )
        } else {
            Err(Error::InvalidInput)
        }),
{
    match check_pages(location, size, page_size) {
        Ok(()) => Ok(advise_free_args(location, size)),
        Err(e) => Err(e),
    }
}

} // verus!
