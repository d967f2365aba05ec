use vstd::prelude::*;

verus! {

/// The error kinds that a socket handle reports.
#[derive(Clone, Copy, Debug, PartialEq, Eq, Structural)]
pub enum Errno {
    /// Generic failure: a failed accept, a failed transport operation.
    Inval,
    /// An operation that needs absolute positioning, on a stream.
    Spipe,
    /// A filesystem-namespace operation, on a handle that is no directory.
    Notdir,
    /// The TLS layer rejected the records it received.
    Proto,
}

} // verus!
