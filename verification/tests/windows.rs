use pagealloc::windows::{
    advise_free_args, alloc_args, alloc_result, clear_args, dealloc_args, protect_args,
    protection_flag, status_result,
};
use pagealloc::{Error, OsError, Protection};
use pagealloc::windows::{prepare_advise_free, prepare_alloc, prepare_clear, prepare_dealloc, prepare_protect};
use windows_sys::Win32::System::Memory;

#[test]
fn windows_protection_flags() {
    assert_eq!(protection_flag(Protection::NoAccess), Memory::PAGE_NOACCESS);
    assert_eq!(protection_flag(Protection::Read), Memory::PAGE_READONLY);
    assert_eq!(protection_flag(Protection::ReadWrite), Memory::PAGE_READWRITE);
    assert_eq!(protection_flag(Protection::Exec), Memory::PAGE_EXECUTE);
    assert_eq!(protection_flag(Protection::ExecRead), Memory::PAGE_EXECUTE_READ);
    assert_eq!(protection_flag(Protection::ExecReadWrite), Memory::PAGE_EXECUTE_READWRITE);
    assert_eq!(protection_flag(Protection::ReadWrite), 4);
}

#[test]
fn windows_alloc_and_release() {
    let args = alloc_args(0, 65536, Protection::ReadWrite);
    assert_eq!(args.addr, 0);
    assert_eq!(args.size, 65536);
    assert_eq!(args.allocation_type, Memory::MEM_RESERVE | Memory::MEM_COMMIT);
    assert_eq!(args.protect, Memory::PAGE_READWRITE);
    let free = dealloc_args(0x10000, 65536);
    assert_eq!(free.addr, 0x10000);
    assert_eq!(free.size, 0);
    assert_eq!(free.free_type, Memory::MEM_RELEASE);
}

#[test]
fn windows_clear_protect_advise() {
    let calls = clear_args(0x10000, 4096, Protection::Read);
    assert_eq!(calls.decommit.free_type, Memory::MEM_DECOMMIT);
    assert_eq!(calls.decommit.size, 4096);
    assert_eq!(calls.decommit.addr, 0x10000);
    assert_eq!(calls.commit.allocation_type, Memory::MEM_COMMIT);
    assert_eq!(calls.commit.size, 4096);
    assert_eq!(calls.commit.protect, Memory::PAGE_READONLY);
    let p = protect_args(0x10000, 8192, Protection::ExecRead);
    assert_eq!((p.addr, p.size, p.protect), (0x10000, 8192, 0x20));
    let a = advise_free_args(0x10000, 4096);
    assert_eq!(a.allocation_type, Memory::MEM_RESET);
    assert_eq!(a.protect, Memory::PAGE_NOACCESS);
}

#[test]
fn windows_results() {
    assert_eq!(alloc_result(0x10000), Ok(0x10000));
    errno::set_errno(errno::Errno(8));
    assert_eq!(alloc_result(0), Err(Error::Os(OsError(8))));
    assert_eq!(status_result(true), Ok(()));
    assert_eq!(status_result(false), Err(Error::Os(OsError(8))));
}

#[test]
fn windows_requests() {
    assert_eq!(prepare_alloc(0, 4096, Protection::Read, 65536), Err(Error::InvalidInput));
    let a = prepare_alloc(0, 65536, Protection::Read, 65536).unwrap();
    assert_eq!(a, alloc_args(0, 65536, Protection::Read));
    assert_eq!(prepare_dealloc(0x10008, 4096, 4096), Err(Error::InvalidInput));
    assert_eq!(prepare_dealloc(0x10000, 4096, 4096).unwrap().size, 0);
    let c = prepare_clear(0x11000, 8192, Protection::ReadWrite, 4096).unwrap();
    assert_eq!((c.decommit.addr, c.decommit.size), (0x11000, 8192));
    assert_eq!((c.commit.addr, c.commit.size), (0x11000, 8192));
    assert_eq!(prepare_clear(0x11000, 100, Protection::ReadWrite, 4096), Err(Error::InvalidInput));
    assert_eq!(prepare_protect(0x11000, 4096, Protection::Exec, 4096).unwrap().protect, 0x10);
    assert_eq!(prepare_advise_free(0x11000, 4096, 4096).unwrap().allocation_type, 0x80000);
    assert!(prepare_advise_free(0x11001, 4096, 4096).is_err());
}
