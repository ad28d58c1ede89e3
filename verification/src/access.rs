//! The synchronous surface of one open storage resource.

use vstd::prelude::*;
use crate::error::HostError;

verus! {

/// What the bridge asks of an open storage resource: reads and writes at
/// absolute offsets, its size, and a flush.
///
/// A resource may say what its answers are by defining the four relations
/// below. The bridge's contracts pass them on. A resource that defines none
/// keeps the defaults, which hold of every answer and so say nothing: the
/// bridge's own guarantees are then all there is.
pub trait SyncAccess: Sized {
    /// Whether a read at `offset` into a buffer holding `buf` may leave the
    /// resource as `after` and the buffer holding `filled`, and answer `r`.
    open spec fn reads(
        before: Self,
        offset: u64,
        buf: Seq<u8>,
        after: Self,
        filled: Seq<u8>,
        r: Result<u64, HostError>,
    ) -> bool {
        true
    }

    /// Whether a write of `data` at `offset` may leave the resource as
    /// `after` and answer `r`.
    open spec fn writes(
        before: Self,
        offset: u64,
        data: Seq<u8>,
        after: Self,
        r: Result<u64, HostError>,
    ) -> bool {
        true
    }

    /// Whether a size query may answer `r`.
    open spec fn sizes(&self, r: Result<u64, HostError>) -> bool {
        true
    }

    /// Whether a flush may answer `r`.
    open spec fn flushes(&self, r: Result<(), HostError>) -> bool {
        true
    }

    /// Reads at `offset` into the front of `buf` and reports how many bytes
    /// it filled.
    fn read_at(&mut self, offset: u64, buf: &mut Vec<u8>) -> (r: Result<u64, HostError>)
        ensures
            Self::reads(*old(self), offset, old(buf)@, *final(self), final(buf)@, r),
    ;

    /// Writes `data` at `offset` and reports how many bytes it committed.
    fn write_at(&mut self, offset: u64, data: &[u8]) -> (r: Result<u64, HostError>)
        ensures
            Self::writes(*old(self), offset, data@, *final(self), r),
    ;

    /// The resource's length in bytes.
    fn size(&self) -> (r: Result<u64, HostError>)
        ensures
            self.sizes(r),
    ;

    /// Commits buffered writes.
    fn flush(&self) -> (r: Result<(), HostError>)
        ensures
            self.flushes(r),
    ;
}

} // verus!
