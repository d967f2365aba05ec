//! A TLS-terminating socket handle: one accepted connection, its server
//! handshake driven to completion before any handle exists, and a uniform
//! handle surface (scatter/gather read and write, stat, seek, rights) whose
//! reads and writes move application data through the encrypted session.
//!
//! The library makes every decision; the owner of the TCP stream performs
//! the reads and sends that the pump steps in `pump` ask for.
use vstd::prelude::*;

pub mod errno;
pub mod handle;
pub mod iov;
pub mod pump;
pub mod rights;
pub mod session;
pub mod tls;

verus! {

} // verus!
