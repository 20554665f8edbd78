use vstd::prelude::*;

verus! {

/// An owned, non-shareable wrapper around a raw OS handle: an opaque integer
/// naming an open bidirectional byte stream.
///
/// Claiming a raw handle transfers exclusive ownership of the underlying OS
/// resource to the resulting `ConnectionHandle`. The type is deliberately
/// neither `Clone` nor `Copy`, so within this crate exactly one owner exists
/// at a time and ownership moves, never duplicates. The caller of [`adapt`]
/// is responsible for passing each live raw handle at most once and for not
/// using the raw value again afterwards; that precondition is documented, not
/// checked, since the raw value carries no evidence of its own validity.
///
/// No I/O is performed by this type. The embedding program turns the raw
/// value back into a stream object when a worker runs the connection, and
/// closing that stream closes the OS resource exactly once.
#[derive(PartialEq, Eq, Structural, Debug)]
pub struct ConnectionHandle {
    raw: u64,
}

impl ConnectionHandle {
    /// The raw OS handle this connection wraps.
    pub closed spec fn raw_spec(&self) -> u64 {
        self.raw
    }

    /// Claim an externally accepted raw handle as an exclusively owned
    /// connection. Precondition (caller's responsibility, not checked): the
    /// handle refers to a live, connected stream and is not owned elsewhere.
    pub fn adapt(raw: u64) -> (h: ConnectionHandle)
        ensures
            h.raw_spec() == raw,
    {
        ConnectionHandle { raw }
    }

    /// Read the raw handle without giving up ownership.
    pub fn raw(&self) -> (r: u64)
        ensures
            r == self.raw_spec(),
    {
        self.raw
    }

    /// Give up ownership of the connection, returning the raw handle so that
    /// its new owner can operate on, and eventually close, the OS resource.
    pub fn release(self) -> (r: u64)
        ensures
            r == self.raw_spec(),
    {
        self.raw
    }
}

} // verus!
