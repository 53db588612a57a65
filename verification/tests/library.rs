use pagealloc::error::last_os_error;
use pagealloc::unix::{alloc_result, cvt, mmap_flags, protection_libc};
use pagealloc::{Error, IoErrorSource, OsError, Protection, UnixPlatform};
use pagealloc::unix::{target_policy, ClearPolicy, FreeAdvice, UnixTarget};

/// The constants of the Linux target these tests run on, as `libc` gives them.
fn linux() -> UnixPlatform {
    UnixPlatform {
        prot_none: libc::PROT_NONE,
        prot_read: libc::PROT_READ,
        prot_write: libc::PROT_WRITE,
        prot_exec: libc::PROT_EXEC,
        map_private: libc::MAP_PRIVATE,
        map_anonymous: libc::MAP_ANONYMOUS,
        map_fixed: libc::MAP_FIXED,
        map_failed: libc::MAP_FAILED as usize,
        policy: target_policy(UnixTarget::Linux),
        free_advice_value: libc::MADV_DONTNEED,
    }
}

/// The constants of macOS, as the `libc` source defines them there.
fn macos() -> UnixPlatform {
    UnixPlatform {
        prot_none: 0,
        prot_read: 1,
        prot_write: 2,
        prot_exec: 4,
        map_private: 0x0002,
        map_anonymous: 0x1000,
        map_fixed: 0x0010,
        map_failed: usize::MAX,
        policy: target_policy(UnixTarget::Macos),
        free_advice_value: 7,
    }
}

#[test]
fn protection_flags() {
    assert_eq!(protection_libc(linux(), Protection::NoAccess), 0);
    assert_eq!(protection_libc(linux(), Protection::Read), 1);
    assert_eq!(protection_libc(linux(), Protection::ReadWrite), 3);
    assert_eq!(protection_libc(linux(), Protection::Exec), 4);
    assert_eq!(protection_libc(linux(), Protection::ExecRead), 5);
    assert_eq!(protection_libc(linux(), Protection::ExecReadWrite), 7);
    assert_eq!(protection_libc(linux(), Protection::ReadWrite), libc::PROT_READ | libc::PROT_WRITE);
}

#[test]
fn default_protection() {
    assert_eq!(Protection::default(), Protection::NoAccess);
}

#[test]
fn map_flags_values() {
    assert_eq!(mmap_flags(linux(), false), libc::MAP_PRIVATE | libc::MAP_ANONYMOUS);
    assert_eq!(mmap_flags(linux(), true), libc::MAP_PRIVATE | libc::MAP_ANONYMOUS | libc::MAP_FIXED);
}

#[test]
fn map_flags_follow_the_platform() {
    assert_eq!(mmap_flags(macos(), false), 0x1002);
    assert_eq!(mmap_flags(macos(), true), 0x1012);
    assert_eq!(protection_libc(macos(), Protection::ExecReadWrite), 7);
}

#[test]
fn target_policies() {
    let linux = ClearPolicy { free_advice: FreeAdvice::MadvDontneed, clear_by_remap: false };
    assert_eq!(target_policy(UnixTarget::Linux), linux);
    assert_eq!(target_policy(UnixTarget::Android), linux);
    assert_eq!(
        target_policy(UnixTarget::Macos),
        ClearPolicy { free_advice: FreeAdvice::MadvFreeReusable, clear_by_remap: true }
    );
    for t in [
        UnixTarget::Ios,
        UnixTarget::Solaris,
        UnixTarget::Dragonfly,
        UnixTarget::Freebsd,
        UnixTarget::Fuchsia,
        UnixTarget::Haiku,
        UnixTarget::Illumos,
        UnixTarget::L4re,
        UnixTarget::Netbsd,
        UnixTarget::Openbsd,
    ] {
        assert_eq!(
            target_policy(t),
            ClearPolicy { free_advice: FreeAdvice::MadvFree, clear_by_remap: true }
        );
    }
    assert_eq!(
        target_policy(UnixTarget::Other),
        ClearPolicy { free_advice: FreeAdvice::PosixMadvDontneed, clear_by_remap: true }
    );
}

#[test]
fn cvt_reads_errno() {
    assert_eq!(cvt(0), Ok(()));
    errno::set_errno(errno::Errno(12));
    assert_eq!(cvt(-1), Err(Error::Os(OsError(12))));
    errno::set_errno(errno::Errno(22));
    assert_eq!(last_os_error(), Error::Os(OsError(22)));
}

#[test]
fn mmap_results() {
    assert_eq!(alloc_result(linux(), 0x7f00_0000_0000), Ok(0x7f00_0000_0000));
    errno::set_errno(errno::Errno(12));
    assert_eq!(alloc_result(linux(), usize::MAX), Err(Error::Os(OsError(12))));
    assert_eq!(alloc_result(linux(), 0), Err(Error::Os(OsError(12))));
}

#[test]
fn os_error_code_and_conversion() {
    let e = OsError(13);
    assert_eq!(e.code(), 13);
    assert_eq!(Error::from(e), Error::Os(OsError(13)));
    assert_ne!(Error::from(e), Error::InvalidInput);
}

#[test]
fn into_io_errors() {
    assert_eq!(Error::InvalidInput.io_source(), IoErrorSource::InvalidInput);
    assert_eq!(Error::Os(OsError(2)).io_source(), IoErrorSource::RawOs(2));
    assert_eq!(Error::InvalidInput.into_io().kind(), std::io::ErrorKind::InvalidInput);
    assert_eq!(Error::Os(OsError(2)).into_io().raw_os_error(), Some(2));
    assert_eq!(OsError(13).into_io().raw_os_error(), Some(13));
    assert_eq!(Error::InvalidInput.into_io().raw_os_error(), None);
    let io: std::io::Error = std::io::Error::from(OsError(5));
    assert_eq!(io.raw_os_error(), Some(5));
}

#[test]
fn error_messages() {
    assert_eq!(Error::InvalidInput.to_string(), "invalid input");
    assert_eq!(OsError(12).to_string(), "system error code 0xC");
    assert_eq!(Error::Os(OsError(0x1F4)).to_string(), "system error code 0x1F4");
    assert_eq!(OsError(0).to_string(), "system error code 0x0");
    assert_eq!(OsError(-1).to_string(), "system error code 0xFFFFFFFF");
    assert_eq!(OsError(-1).to_string(), format!("system error code 0x{:X}", -1i32));
    assert_eq!(OsError(255).debug_string(), "OsError(0xFF)");
    assert_eq!(OsError(0).debug_string(), "OsError(0x0)");
    assert_eq!(Error::Os(OsError(255)).debug_string(), "Os(OsError(0xFF))");
    assert_eq!(Error::InvalidInput.debug_string(), "InvalidInput");
}
