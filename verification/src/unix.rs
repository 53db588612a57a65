//! The Unix backend: the arguments of `mmap`, `munmap`, `mprotect` and
//! `madvise`, and what their results mean.
//!
//! The flag values differ from one Unix to another; the caller hands them in
//! as a [`UnixPlatform`], as its target's `libc` defines them.
use vstd::prelude::*;
use crate::error::{last_os_error, Error};
use crate::protection::Protection;

verus! {

/// The Unix systems whose memory calls differ in how pages are freed and cleared.
#[derive(Clone, Copy, PartialEq, Eq, Debug, Structural)]
pub enum UnixTarget {
    Android,
    Linux,
    Macos,
    Ios,
    Solaris,
    Dragonfly,
    Freebsd,
    Fuchsia,
    Haiku,
    Illumos,
    L4re,
    Netbsd,
    Openbsd,
    /// Any other Unix.
    Other,
}

/// The advice that lets the system take pages back.
#[derive(Clone, Copy, PartialEq, Eq, Debug, Structural)]
pub enum FreeAdvice {
    /// `madvise(MADV_DONTNEED)`; on Linux and Android private anonymous pages
    /// read zero afterwards.
    MadvDontneed,
    /// `madvise(MADV_FREE)`.
    MadvFree,
    /// `madvise(MADV_FREE_REUSABLE)`.
    MadvFreeReusable,
    /// `posix_madvise(POSIX_MADV_DONTNEED)`.
    PosixMadvDontneed,
}

/// How a target frees and clears pages.
#[derive(Clone, Copy, PartialEq, Eq, Debug, Structural)]
pub struct ClearPolicy {
    /// The advice that lets the system take pages back.
    pub free_advice: FreeAdvice,
    /// Whether pages are cleared by mapping them again in place (`mmap` with
    /// `MAP_FIXED`) rather than by the free advice followed by `mprotect`.
    pub clear_by_remap: bool,
}

/// The policy of each target: Linux and Android free with `MADV_DONTNEED`
/// (not `MADV_FREE`, whose lazy freeing causes trouble) and clear with it,
/// as their pages read zero afterwards; every other target clears by
/// remapping, and frees with `MADV_FREE_REUSABLE` on macOS, `MADV_FREE` on
/// the BSDs, Solaris-like systems, iOS, Fuchsia, Haiku and L4Re, and
/// `POSIX_MADV_DONTNEED` elsewhere.
pub open spec fn target_policy_spec(t: UnixTarget) -> ClearPolicy {
    match t {
        UnixTarget::Android | UnixTarget::Linux => ClearPolicy {
            free_advice: FreeAdvice::MadvDontneed,
            clear_by_remap: false,
        },
        UnixTarget::Macos => ClearPolicy {
            free_advice: FreeAdvice::MadvFreeReusable,
            clear_by_remap: true,
        },
        UnixTarget::Other => ClearPolicy {
            free_advice: FreeAdvice::PosixMadvDontneed,
            clear_by_remap: true,
        },
        _ => ClearPolicy { free_advice: FreeAdvice::MadvFree, clear_by_remap: true },
    }
}

/// How the target frees and clears pages.
pub fn target_policy(t: UnixTarget) -> (policy: ClearPolicy)
    ensures
        policy == target_policy_spec(t),
{
    match t {
        UnixTarget::Android | UnixTarget::Linux => ClearPolicy {
            free_advice: FreeAdvice::MadvDontneed,
            clear_by_remap: false,
        },
        UnixTarget::Macos => ClearPolicy {
            free_advice: FreeAdvice::MadvFreeReusable,
            clear_by_remap: true,
        },
        UnixTarget::Other => ClearPolicy {
            free_advice: FreeAdvice::PosixMadvDontneed,
            clear_by_remap: true,
        },
        _ => ClearPolicy { free_advice: FreeAdvice::MadvFree, clear_by_remap: true },
    }
}

/// Only where the free advice zeroes pages (`MADV_DONTNEED` on Linux and
/// Android) are pages cleared by it; everywhere else they are remapped.
pub proof fn clearing_by_advice_zeroes(t: UnixTarget)
    ensures
        !target_policy_spec(t).clear_by_remap <==> (t == UnixTarget::Linux || t
            == UnixTarget::Android),
        !target_policy_spec(t).clear_by_remap ==> target_policy_spec(t).free_advice
            == FreeAdvice::MadvDontneed,
{
}

/// The target's constants for the memory calls, and how it frees and clears pages.
#[derive(Clone, Copy, PartialEq, Eq, Debug, Structural)]
pub struct UnixPlatform {
    /// `PROT_NONE`.
    pub prot_none: i32,
    /// `PROT_READ`.
    pub prot_read: i32,
    /// `PROT_WRITE`.
    pub prot_write: i32,
    /// `PROT_EXEC`.
    pub prot_exec: i32,
    /// `MAP_PRIVATE`.
    pub map_private: i32,
    /// `MAP_ANONYMOUS`.
    pub map_anonymous: i32,
    /// `MAP_FIXED`.
    pub map_fixed: i32,
    /// The address of `MAP_FAILED`.
    pub map_failed: usize,
    /// How the target frees and clears pages.
    pub policy: ClearPolicy,
    /// The target's value of the constant that `policy.free_advice` names.
    pub free_advice_value: i32,
}

/// The protection flags are distinct single-purpose bits: `PROT_NONE` is 0,
/// and `PROT_READ`, `PROT_WRITE`, `PROT_EXEC` are non-zero and share no bit.
pub open spec fn distinct_protection_bits(c: UnixPlatform) -> bool {
    &&& c.prot_none == 0
    &&& c.prot_read != 0
    &&& c.prot_write != 0
    &&& c.prot_exec != 0
    &&& c.prot_read & c.prot_write == 0
    &&& c.prot_read & c.prot_exec == 0
    &&& c.prot_write & c.prot_exec == 0
}

/// `MAP_FIXED` is non-zero and shares no bit with `MAP_PRIVATE | MAP_ANONYMOUS`.
pub open spec fn distinct_fixed_bit(c: UnixPlatform) -> bool {
    c.map_fixed != 0 && c.map_fixed & (c.map_private | c.map_anonymous) == 0
}

/// The `mmap`/`mprotect` protection flags of a protection: `PROT_NONE`, or
/// the union of `PROT_READ`, `PROT_WRITE` and `PROT_EXEC` for the rights it grants.
pub open spec fn prot_flags(c: UnixPlatform, protection: Protection) -> i32 {
    match protection {
        Protection::NoAccess => c.prot_none,
        Protection::Read => c.prot_read,
        Protection::ReadWrite => c.prot_read | c.prot_write,
        Protection::Exec => c.prot_exec,
        Protection::ExecRead => c.prot_exec | c.prot_read,
        Protection::ExecReadWrite => c.prot_exec | c.prot_read | c.prot_write,
    }
}

/// The `mmap` flags of an anonymous private mapping, `MAP_PRIVATE |
/// MAP_ANONYMOUS`, with `MAP_FIXED` added when the place is given.
pub open spec fn map_flags(c: UnixPlatform, fixed: bool) -> i32 {
    if fixed {
        c.map_private | c.map_anonymous | c.map_fixed
    } else {
        c.map_private | c.map_anonymous
    }
}

proof fn union_of_distinct_bits(r: i32, w: i32, x: i32)
    by (bit_vector)
    requires
        r != 0,
        w != 0,
        x != 0,
        r & w == 0,
        r & x == 0,
        w & x == 0,
    ensures
        r & r != 0,
        r & w == 0,
        r & x == 0,
        (r | w) & r != 0,
        (r | w) & w != 0,
        (r | w) & x == 0,
        x & r == 0,
        x & w == 0,
        x & x != 0,
        (x | r) & r != 0,
        (x | r) & w == 0,
        (x | r) & x != 0,
        (x | r | w) & r != 0,
        (x | r | w) & w != 0,
        (x | r | w) & x != 0,
        0i32 & r == 0,
        0i32 & w == 0,
        0i32 & x == 0,
{
}

/// Where the protection bits are distinct, each right of a protection shows
/// in its own bit of the protection flags, so different protections get
/// different flags.
pub proof fn prot_flags_bits(c: UnixPlatform, p: Protection, q: Protection)
    requires
        distinct_protection_bits(c),
    ensures
        prot_flags(c, p) & c.prot_read != 0 <==> p.readable(),
        prot_flags(c, p) & c.prot_write != 0 <==> p.writable(),
        prot_flags(c, p) & c.prot_exec != 0 <==> p.executable(),
        prot_flags(c, p) == prot_flags(c, q) <==> p == q,
{
    union_of_distinct_bits(c.prot_read, c.prot_write, c.prot_exec);
    crate::protection::protection_determined_by_rights(p, q);
    if prot_flags(c, p) == prot_flags(c, q) {
        assert(p.readable() == q.readable());
        assert(p.writable() == q.writable());
        assert(p.executable() == q.executable());
    }
}

proof fn fixed_bit(base: i32, f: i32)
    by (bit_vector)
    requires
        f != 0,
        f & base == 0,
    ensures
        (base | f) & f != 0,
        base & f == 0,
{
}

/// Where `MAP_FIXED` is a bit of its own, the mapping flags hold it exactly
/// when the place is given.
pub proof fn map_flags_bits(c: UnixPlatform, fixed: bool)
    requires
        distinct_fixed_bit(c),
    ensures
        map_flags(c, fixed) & c.map_fixed != 0 <==> fixed,
{
    fixed_bit(c.map_private | c.map_anonymous, c.map_fixed);
}

/// The protection flags for `mmap` and `mprotect`.
pub fn protection_libc(c: UnixPlatform, protection: Protection) -> (flags: i32)
    ensures
        flags == prot_flags(c, protection),
{
    match protection {
        Protection::NoAccess => c.prot_none,
        Protection::Read => c.prot_read,
        Protection::ReadWrite => c.prot_read | c.prot_write,
        Protection::Exec => c.prot_exec,
        Protection::ExecRead => c.prot_exec | c.prot_read,
        Protection::ExecReadWrite => c.prot_exec | c.prot_read | c.prot_write,
    }
}

/// The flags of an anonymous private mapping, with `MAP_FIXED` when `fixed`.
pub fn mmap_flags(c: UnixPlatform, fixed: bool) -> (flags: i32)
    ensures
        flags == map_flags(c, fixed),
{
    let base = c.map_private | c.map_anonymous;
    if fixed {
        base | c.map_fixed
    } else {
        base
    }
}

/// The result of a system call that returns 0 on success and sets `errno`
/// on failure.
pub fn cvt(r: i32) -> (res: Result<(), Error>)
    ensures
        r == 0 <==> res is Ok,
        res matches Err(e) ==> e is Os,
{
    if r == 0 {
        Ok(())
    } else {
        Err(last_os_error())
    }
}

/// The arguments of `mmap(addr, len, prot, flags, fd, offset)`.
#[derive(Clone, Copy, PartialEq, Eq, Debug, Structural)]
pub struct MapArgs {
    pub addr: usize,
    pub len: usize,
    pub prot: i32,
    pub flags: i32,
    /// The file descriptor: -1, as an anonymous mapping has no file (some
    /// systems require -1 there).
    pub fd: i32,
    /// The offset in the file: 0.
    pub offset: i64,
}

/// The arguments of `munmap(addr, len)`.
#[derive(Clone, Copy, PartialEq, Eq, Debug, Structural)]
pub struct UnmapArgs {
    pub addr: usize,
    pub len: usize,
}

/// The arguments of `mprotect(addr, len, prot)`.
#[derive(Clone, Copy, PartialEq, Eq, Debug, Structural)]
pub struct ProtectArgs {
    pub addr: usize,
    pub len: usize,
    pub prot: i32,
}

/// The arguments of `madvise(addr, len, advice)`, or of
/// `posix_madvise(addr, len, advice)` when `posix`.
#[derive(Clone, Copy, PartialEq, Eq, Debug, Structural)]
pub struct AdviseArgs {
    pub addr: usize,
    pub len: usize,
    pub advice: i32,
    pub posix: bool,
}

/// The two calls that clear pages where the free advice zeroes them: first
/// the advice (`MADV_DONTNEED` on Linux and Android, after which the pages
/// read zero), then `mprotect` (the pages get the requested protection).
#[derive(Clone, Copy, PartialEq, Eq, Debug, Structural)]
pub struct ClearArgs {
    pub advise: AdviseArgs,
    pub protect: ProtectArgs,
}

/// How pages are cleared.
#[derive(Clone, Copy, PartialEq, Eq, Debug, Structural)]
pub enum ClearCalls {
    /// The free advice, then `mprotect`.
    AdviseThenProtect(ClearArgs),
    /// A new mapping in place of the pages (`mmap` with `MAP_FIXED`); its
    /// result is read with [`alloc_result`].
    Remap(MapArgs),
}

/// The `mmap` call that maps `size` bytes at `location`: an anonymous
/// private mapping, with no file.
pub open spec fn alloc_args_spec(
    c: UnixPlatform,
    location: usize,
    size: usize,
    protection: Protection,
) -> MapArgs {
    MapArgs {
        addr: location,
        len: size,
        prot: prot_flags(c, protection),
        flags: map_flags(c, location != 0),
        fd: -1i32,
        offset: 0,
    }
}

/// The advice call that lets the system take the pages back.
pub open spec fn advise_free_args_spec(c: UnixPlatform, start: usize, size: usize) -> AdviseArgs {
    AdviseArgs {
        addr: start,
        len: size,
        advice: c.free_advice_value,
        posix: c.policy.free_advice == FreeAdvice::PosixMadvDontneed,
    }
}

/// The calls that clear the pages: a remap, or the free advice then
/// `mprotect`, as the platform clears.
pub open spec fn clear_calls_spec(
    c: UnixPlatform,
    start: usize,
    size: usize,
    protection: Protection,
) -> ClearCalls {
    if c.policy.clear_by_remap {
        ClearCalls::Remap(alloc_args_spec(c, start, size, protection))
    } else {
        ClearCalls::AdviseThenProtect(
            ClearArgs {
                advise: advise_free_args_spec(c, start, size),
                protect: ProtectArgs { addr: start, len: size, prot: prot_flags(c, protection) },
            },
        )
    }
}

/// The `mmap` call that maps `size` bytes at `location` (or where the system
/// chooses, when `location` is 0) with the given protection.
pub fn alloc_args(c: UnixPlatform, location: usize, size: usize, protection: Protection) -> (args:
    MapArgs)
    ensures
        args == alloc_args_spec(c, location, size, protection),
{
    MapArgs {
        addr: location,
        len: size,
        prot: protection_libc(c, protection),
        flags: mmap_flags(c, location != 0),
        fd: -1,
        offset: 0,
    }
}

/// What the address returned by `mmap` means: `MAP_FAILED` (and null) is a
/// failure reported through `errno`; any other address is the mapping.
pub fn alloc_result(c: UnixPlatform, ret: usize) -> (res: Result<usize, Error>)
    ensures
        ret != c.map_failed && ret != 0 ==> res == Ok::<usize, Error>(ret),
        ret == c.map_failed || ret == 0 ==> (res matches Err(e) && e is Os),
{
    if ret == c.map_failed || ret == 0 {
        return Err(last_os_error());
    }
    Ok(ret)
}

/// The `munmap` call that releases the pages.
pub fn dealloc_args(start: usize, size: usize) -> (args: UnmapArgs)
    ensures
        args == (UnmapArgs { addr: start, len: size }),
{
    UnmapArgs { addr: start, len: size }
}

/// The `mprotect` call that changes the protection of the pages.
pub fn protect_args(c: UnixPlatform, start: usize, size: usize, protection: Protection) -> (args:
    ProtectArgs)
    ensures
        args == (ProtectArgs { addr: start, len: size, prot: prot_flags(c, protection) }),
{
    ProtectArgs { addr: start, len: size, prot: protection_libc(c, protection) }
}

/// The advice call that lets the system take the pages back, with the
/// platform's free advice.
pub fn advise_free_args(c: UnixPlatform, start: usize, size: usize) -> (args: AdviseArgs)
    ensures
        args == advise_free_args_spec(c, start, size),
{
    let posix = match c.policy.free_advice {
        FreeAdvice::PosixMadvDontneed => true,
        _ => false,
    };
    AdviseArgs { addr: start, len: size, advice: c.free_advice_value, posix }
}

/// The calls that clear the pages, as the platform clears them.
pub fn clear_args(c: UnixPlatform, start: usize, size: usize, protection: Protection) -> (calls:
    ClearCalls)
    ensures
        calls == clear_calls_spec(c, start, size, protection),
{
    if c.policy.clear_by_remap {
        ClearCalls::Remap(alloc_args(c, start, size, protection))
    } else {
        ClearCalls::AdviseThenProtect(
            ClearArgs {
                advise: advise_free_args(c, start, size),
                protect: protect_args(c, start, size, protection),
            },
        )
    }
}

} // verus!
