# pagealloc

Low-level, cross-platform page allocation, verified with Verus.

The library (`src/`) holds the logic: the checks that a request for pages
must pass, the arguments of the system calls that carry it out (`mmap`,
`munmap`, `mprotect`, `madvise` on Unix; `VirtualAlloc`, `VirtualFree`,
`VirtualProtect` on Windows), what their results mean, and a buffer of whole
pages with the page ranges that requests on it name. The contracts state
each function's result exactly, except where it comes from the operating
system or std (the thread's last error code; the inside of a
`std::io::Error`), and the laws that relate the functions are proved as
proof functions beside them.

The Unix flag values differ between systems, so the caller hands in its
target's values (`UnixPlatform`). How each system frees and clears pages
is the library's `target_policy`: `madvise(MADV_DONTNEED)` on Linux and
Android, a fresh `MAP_FIXED` mapping elsewhere. The `windows` module prepares
the Windows calls in the same way.

- `checks`: the alignment and size rules.
- `lib.rs`: the preparation of each request (`prepare_alloc`, `prepare_dealloc`,
  `prepare_clear`, `prepare_protect`, `prepare_advise_free`).
- `unix`, `windows`: the system-call arguments and results of each backend.
- `buffer`: `ByteBuffer` and the resolution of ranges over it.
- `error`, `protection`: the error and protection types.

`app/` performs the system calls: it asks the system for the page size and
the allocation granularity, gives the library the target's `libc` constants, calls the operating system with what the library
prepares, and owns buffers, releasing their pages when they are dropped.
