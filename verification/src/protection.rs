//! The access rights of a page.
use vstd::prelude::*;

verus! {

/// The rights the user will have for a page.
#[derive(Clone, Copy, Debug, Hash, PartialEq, Eq, Structural)]
#[non_exhaustive]
pub enum Protection {
    /// The page cannot be used.
    NoAccess,
    /// The page can be read.
    Read,
    /// The page can be read, or written to.
    ReadWrite,
    /// The page can be executed.
    Exec,
    /// The page can be executed, or read.
    ExecRead,
    /// The page can be executed, read, or written to.
    ExecReadWrite,
}

impl Protection {
    /// Whether the page can be read.
    pub open spec fn readable(self) -> bool {
        match self {
            Protection::Read | Protection::ReadWrite | Protection::ExecRead
            | Protection::ExecReadWrite => true,
            _ => false,
        }
    }

    /// Whether the page can be written to.
    pub open spec fn writable(self) -> bool {
        match self {
            Protection::ReadWrite | Protection::ExecReadWrite => true,
            _ => false,
        }
    }

    /// Whether the page can be executed.
    pub open spec fn executable(self) -> bool {
        match self {
            Protection::Exec | Protection::ExecRead | Protection::ExecReadWrite => true,
            _ => false,
        }
    }
}

/// A protection is determined by the three rights it grants, and no
/// protection grants writing without reading.
pub proof fn protection_determined_by_rights(p: Protection, q: Protection)
    ensures
        (p.readable() == q.readable() && p.writable() == q.writable() && p.executable()
            == q.executable()) <==> p == q,
        p.writable() ==> p.readable(),
{
}

impl Default for Protection {
    /// The default protection grants no rights.
    fn default() -> (p: Protection)
        ensures
            p == Protection::NoAccess,
    {
        Protection::NoAccess
    }
}

} // verus!
