use vstd::prelude::*;
use crate::errno::Errno;
use crate::iov::{iov_bytes, iov_capacity, same_shape};
use crate::rights::{socket_rights, HandleRights, SOCKET_BASE_RIGHTS};
use crate::session::TlsSession;

verus! {

/// The kind of resource behind a handle.
#[derive(Clone, Copy, Debug, PartialEq, Eq, Structural)]
pub enum Filetype {
    Unknown,
    BlockDevice,
    CharacterDevice,
    Directory,
    RegularFile,
    SocketDgram,
    SocketStream,
    SymbolicLink,
}

/// Advice on how a range of a file will be used.
#[derive(Clone, Copy, Debug, PartialEq, Eq, Structural)]
pub enum Advice {
    Normal,
    Sequential,
    Random,
    Willneed,
    Dontneed,
    Noreuse,
}

/// Where a seek counts from, and by how much.
#[derive(Clone, Copy, Debug, PartialEq, Eq, Structural)]
pub enum SeekFrom {
    Start(u64),
    End(i64),
    Current(i64),
}

/// The attributes of a handle.
#[derive(Clone, Copy, Debug, PartialEq, Eq, Structural)]
pub struct Filestat {
    pub dev: u64,
    pub ino: u64,
    pub filetype: Filetype,
    pub nlink: u64,
    pub size: u64,
    pub atim: u64,
    pub mtim: u64,
    pub ctim: u64,
}

/// One capability view over an established TLS connection: the rights
/// that this view carries. The connection's session is handed to each
/// transfer, so that views of one connection share it.
pub struct SocketHandle {
    rights: HandleRights,
}

impl SocketHandle {
    /// The rights this handle carries now.
    pub closed spec fn rights_view(&self) -> HandleRights {
        self.rights
    }

    /// A handle over `session`, whose handshake has completed, with the
    /// socket's base rights and nothing to inherit.
    pub fn new(session: &TlsSession) -> (r: SocketHandle)
        requires
            !session.handshaking(),
        ensures
            r.rights_view().base == SOCKET_BASE_RIGHTS,
            r.rights_view().inheriting == 0,
    {
        SocketHandle { rights: socket_rights() }
    }

    /// A second view with a copy of this one's rights; the two change
    /// their rights apart from then on.
    pub fn clone(&self) -> (r: SocketHandle)
        ensures
            r.rights_view() == self.rights_view(),
    {
        SocketHandle { rights: self.rights }
    }

    /// A second view, as `clone` makes it.
    pub fn try_clone(&self) -> (r: Result<SocketHandle, Errno>)
        ensures
            r is Ok,
            r->Ok_0.rights_view() == self.rights_view(),
    {
        Ok(self.clone())
    }

    /// A socket's type is reported as unknown.
    pub fn get_file_type(&self) -> (r: Filetype)
        ensures
            r == Filetype::Unknown,
    {
        Filetype::Unknown
    }

    /// The rights this handle carries now.
    pub fn get_rights(&self) -> (r: HandleRights)
        ensures
            r == self.rights_view(),
    {
        self.rights
    }

    /// Replaces the rights with `rights`, verbatim.
    pub fn set_rights(&mut self, rights: HandleRights)
        ensures
            final(self).rights_view() == rights,
    {
        self.rights = rights;
    }

    /// A stream takes no advice.
    pub fn advise(&self, advice: Advice, offset: u64, len: u64) -> (r: Result<(), Errno>)
        ensures
            r == Err::<(), Errno>(Errno::Spipe),
    {
        Err(Errno::Spipe)
    }

    /// A stream has no space to allocate.
    pub fn allocate(&self, offset: u64, len: u64) -> (r: Result<(), Errno>)
        ensures
            r == Err::<(), Errno>(Errno::Spipe),
    {
        Err(Errno::Spipe)
    }

    /// Flags change nothing on a socket; they are accepted.
    pub fn fdstat_set_flags(&self, fdflags: u16) -> (r: Result<(), Errno>)
        ensures
            r == Ok::<(), Errno>(()),
    {
        Ok(())
    }

    /// Attributes with every number zero and the type unknown.
    pub fn filestat_get(&self) -> (r: Result<Filestat, Errno>)
        ensures
            r is Ok,
            r->Ok_0.dev == 0 && r->Ok_0.ino == 0 && r->Ok_0.nlink == 0,
            r->Ok_0.size == 0 && r->Ok_0.atim == 0 && r->Ok_0.mtim == 0 && r->Ok_0.ctim == 0,
            r->Ok_0.filetype == Filetype::Unknown,
    {
        let stat = Filestat {
            dev: 0,
            ino: 0,
            filetype: self.get_file_type(),
            nlink: 0,
            size: 0,
            atim: 0,
            mtim: 0,
            ctim: 0,
        };
        Ok(stat)
    }

    /// A stream has no size to set.
    pub fn filestat_set_size(&self, st_size: u64) -> (r: Result<(), Errno>)
        ensures
            r == Err::<(), Errno>(Errno::Spipe),
    {
        Err(Errno::Spipe)
    }

    /// A stream has no position to seek to.
    pub fn seek(&self, offset: SeekFrom) -> (r: Result<u64, Errno>)
        ensures
            r == Err::<u64, Errno>(Errno::Spipe),
    {
        Err(Errno::Spipe)
    }

    /// Reads plaintext at `offset`, which must be 0: moves the plaintext
    /// that `session` holds into the front of `bufs`, as much as fits, and
    /// returns how many bytes moved (0 at the end of the stream). Ciphertext
    /// is taken in beforehand, and records flushed afterwards, by the
    /// caller that owns the connection (see `pump`).
    pub fn preadv(&self, session: &mut TlsSession, bufs: &mut Vec<Vec<u8>>, offset: u64) -> (r:
        Result<usize, Errno>)
        requires
            old(session).wf(),
        ensures
            offset != 0 ==> r == Err::<usize, Errno>(Errno::Spipe) && *final(session) == *old(
                session,
            ) && *final(bufs) == *old(bufs),
            offset == 0 ==> r is Ok,
            r is Ok ==> r->Ok_0 <= iov_capacity(old(bufs)@),
            r is Ok ==> r->Ok_0 == vstd::math::min(
                vstd::math::min(iov_capacity(old(bufs)@) as int, isize::MAX as int),
                old(session).plaintext().len() as int,
            ),
            r is Ok ==> same_shape(final(bufs)@, old(bufs)@),
            r is Ok ==> iov_bytes(final(bufs)@) == old(session).plaintext().take(r->Ok_0 as int)
                + iov_bytes(old(bufs)@).skip(r->Ok_0 as int),
            r is Ok ==> final(session).plaintext() == old(session).plaintext().skip(
                r->Ok_0 as int,
            ),
            final(session).outgoing() == old(session).outgoing(),
            final(session).handshaking() == old(session).handshaking(),
            final(session).rejected() == old(session).rejected(),
            final(session).sent() == old(session).sent(),
            final(session).wf(),
    {
        if offset != 0 {
            return Err(Errno::Spipe);
        }
        Ok(session.read_into(bufs))
    }

    /// Writes plaintext at `offset`, which must be 0: hands all the bytes of
    /// `bufs`, in order, to `session` to encrypt, and returns their count.
    pub fn pwritev(&self, session: &mut TlsSession, bufs: &Vec<Vec<u8>>, offset: u64) -> (r:
        Result<usize, Errno>)
        requires
            old(session).wf(),
        ensures
            offset != 0 ==> r == Err::<usize, Errno>(Errno::Spipe) && *final(session) == *old(
                session,
            ),
            offset == 0 ==> r == Ok::<usize, Errno>(iov_capacity(bufs@) as usize),
            offset == 0 ==> final(session).sent() == old(session).sent() + iov_bytes(bufs@),
            final(session).plaintext() == old(session).plaintext(),
            final(session).rejected() == old(session).rejected(),
            final(session).wf(),
    {
        if offset != 0 {
            return Err(Errno::Spipe);
        }
        Ok(session.write_from(bufs))
    }

    /// Reads plaintext at the stream's own position: `preadv` at offset 0.
    pub fn read_vectored(&self, session: &mut TlsSession, bufs: &mut Vec<Vec<u8>>) -> (r: usize)
        requires
            old(session).wf(),
        ensures
            r == vstd::math::min(
                vstd::math::min(iov_capacity(old(bufs)@) as int, isize::MAX as int),
                old(session).plaintext().len() as int,
            ),
            same_shape(final(bufs)@, old(bufs)@),
            iov_bytes(final(bufs)@) == old(session).plaintext().take(r as int) + iov_bytes(
                old(bufs)@,
            ).skip(r as int),
            final(session).plaintext() == old(session).plaintext().skip(r as int),
            final(session).outgoing() == old(session).outgoing(),
            final(session).handshaking() == old(session).handshaking(),
            final(session).rejected() == old(session).rejected(),
            final(session).sent() == old(session).sent(),
            final(session).wf(),
    {
        session.read_into(bufs)
    }

    /// Writes plaintext at the stream's own position: `pwritev` at offset 0.
    pub fn write_vectored(&self, session: &mut TlsSession, bufs: &Vec<Vec<u8>>) -> (r: Result<
        usize,
        Errno,
    >)
        requires
            old(session).wf(),
        ensures
            r == Ok::<usize, Errno>(iov_capacity(bufs@) as usize),
            final(session).sent() == old(session).sent() + iov_bytes(bufs@),
            final(session).plaintext() == old(session).plaintext(),
            final(session).rejected() == old(session).rejected(),
            final(session).wf(),
    {
        Ok(session.write_from(bufs))
    }

    /// A socket holds no directory.
    pub fn create_directory(&self, path: &str) -> (r: Result<(), Errno>)
        ensures
            r == Err::<(), Errno>(Errno::Notdir),
    {
        Err(Errno::Notdir)
    }

    /// A socket holds nothing to open.
    pub fn openat(&self, path: &str, read: bool, write: bool, oflags: u16, fd_flags: u16) -> (r:
        Result<(), Errno>)
        ensures
            r == Err::<(), Errno>(Errno::Notdir),
    {
        Err(Errno::Notdir)
    }

    /// A socket holds nothing to link.
    pub fn link(&self, old_path: &str, new_path: &str, follow: bool) -> (r: Result<(), Errno>)
        ensures
            r == Err::<(), Errno>(Errno::Notdir),
    {
        Err(Errno::Notdir)
    }

    /// A socket holds no link to read.
    pub fn readlink(&self, path: &str, buf: &mut Vec<u8>) -> (r: Result<usize, Errno>)
        ensures
            r == Err::<usize, Errno>(Errno::Notdir),
            *final(buf) == *old(buf),
    {
        Err(Errno::Notdir)
    }

    /// A socket holds no link to read.
    pub fn readlinkat(&self, path: &str) -> (r: Result<String, Errno>)
        ensures
            r is Err && r->Err_0 == Errno::Notdir,
    {
        Err(Errno::Notdir)
    }

    /// A socket holds nothing to rename.
    pub fn rename(&self, old_path: &str, new_path: &str) -> (r: Result<(), Errno>)
        ensures
            r == Err::<(), Errno>(Errno::Notdir),
    {
        Err(Errno::Notdir)
    }

    /// A socket holds no directory to remove.
    pub fn remove_directory(&self, path: &str) -> (r: Result<(), Errno>)
        ensures
            r == Err::<(), Errno>(Errno::Notdir),
    {
        Err(Errno::Notdir)
    }

    /// A socket holds nothing to link to.
    pub fn symlink(&self, old_path: &str, new_path: &str) -> (r: Result<(), Errno>)
        ensures
            r == Err::<(), Errno>(Errno::Notdir),
    {
        Err(Errno::Notdir)
    }

    /// A socket holds no file to unlink.
    pub fn unlink_file(&self, path: &str) -> (r: Result<(), Errno>)
        ensures
            r == Err::<(), Errno>(Errno::Notdir),
    {
        Err(Errno::Notdir)
    }
}

} // verus!
