use vstd::prelude::*;

verus! {

/// Right to synchronise the data of a handle.
pub const FD_DATASYNC: u64 = 0x1;

/// Right to read from a handle.
pub const FD_READ: u64 = 0x2;

/// Right to change the flags of a handle.
pub const FD_FDSTAT_SET_FLAGS: u64 = 0x8;

/// Right to synchronise data and metadata of a handle.
pub const FD_SYNC: u64 = 0x10;

/// Right to write to a handle.
pub const FD_WRITE: u64 = 0x40;

/// Right to read the attributes of a handle.
pub const FD_FILESTAT_GET: u64 = 0x200000;

/// Right to wait for a handle to become readable or writable.
pub const POLL_FD_READWRITE: u64 = 0x8000000;

/// The base rights that a freshly accepted socket handle carries.
pub const SOCKET_BASE_RIGHTS: u64 = 0x820005b;

/// The rights of one handle: what it may do itself (`base`), and what
/// handles opened through it may be given (`inheriting`).
#[derive(Clone, Copy, Debug, PartialEq, Eq, Structural)]
pub struct HandleRights {
    pub base: u64,
    pub inheriting: u64,
}

impl HandleRights {
    /// Rights built from both bit masks, verbatim.
    pub fn new(base: u64, inheriting: u64) -> (r: HandleRights)
        ensures
            r.base == base,
            r.inheriting == inheriting,
    {
        HandleRights { base, inheriting }
    }

    /// Rights with the given base and nothing to inherit.
    pub fn from_base(base: u64) -> (r: HandleRights)
        ensures
            r.base == base,
            r.inheriting == 0,
    {
        HandleRights { base, inheriting: 0 }
    }

    /// Whether every right of `other` is among these, base and inheriting.
    pub open spec fn spec_contains(self, other: HandleRights) -> bool {
        self.base & other.base == other.base && self.inheriting & other.inheriting
            == other.inheriting
    }

    /// Whether every right of `other` is among these, base and inheriting.
    pub fn contains(&self, other: &HandleRights) -> (r: bool)
        ensures
            r == self.spec_contains(*other),
    {
        self.base & other.base == other.base && self.inheriting & other.inheriting
            == other.inheriting
    }
}

/// The rights a socket handle starts with: data sync, flags, read, sync,
/// write, stat and poll; nothing to inherit.
pub fn socket_rights() -> (r: HandleRights)
    ensures
        r.base == FD_DATASYNC | FD_FDSTAT_SET_FLAGS | FD_READ | FD_SYNC | FD_WRITE
            | FD_FILESTAT_GET | POLL_FD_READWRITE,
        r.base == SOCKET_BASE_RIGHTS,
        r.inheriting == 0,
{
    let base: u64 = FD_DATASYNC | FD_FDSTAT_SET_FLAGS | FD_READ | FD_SYNC | FD_WRITE
        | FD_FILESTAT_GET | POLL_FD_READWRITE;
    assert(base == SOCKET_BASE_RIGHTS) by (bit_vector)
        requires
            base == 0x1u64 | 0x8u64 | 0x2u64 | 0x10u64 | 0x40u64 | 0x200000u64 | 0x8000000u64,
    ;
    HandleRights::from_base(base)
}

} // verus!
