//! The storage bridge: what each operation answers.
//!
//! Reads, writes, size queries and flushes resolve the identifier and ask the
//! open file's resource themselves. Opening a path and the namespace
//! operations suspend in the host, so the caller makes the host call and
//! hands its outcome in; the bridge decides what that outcome means.

use vstd::prelude::*;
use crate::access::SyncAccess;
use crate::device::OpfsVirtioDevice;
use crate::error::{io_failure, namespace_failure, open_failure, FsError, HostError,
    HostErrorKind, NamespaceOp};
use crate::handles::Request;
use crate::records::{first_failure_at, lists_all, HostDirEntry, HostMetadata, JsDirEntry, JsStat};

verus! {

/// The bytes that a read delivers: the first `reported` bytes of the buffer,
/// or all of it where the host reports more than the buffer holds.
pub open spec fn delivered(buf: Seq<u8>, reported: u64) -> Seq<u8> {
    if reported <= buf.len() {
        buf.subrange(0, reported as int)
    } else {
        buf
    }
}

/// The count that a write reports: what the host committed, held to the
/// range of the reply.
pub open spec fn committed(written: u64) -> u32 {
    if written <= u32::MAX {
        written as u32
    } else {
        u32::MAX
    }
}

/// `count` zero bytes: the buffer that a read hands to the resource.
pub open spec fn zeros(count: nat) -> Seq<u8> {
    Seq::new(count, |i: int| 0u8)
}

/// The first `count` bytes of `buf`, or all of it where it holds fewer.
pub open spec fn clip(buf: Seq<u8>, count: nat) -> Seq<u8> {
    if buf.len() > count {
        buf.subrange(0, count as int)
    } else {
        buf
    }
}

/// Whether `r` answers a read into `buf` that the host completed with
/// `outcome`.
pub open spec fn read_answer(
    buf: Seq<u8>,
    outcome: Result<u64, HostError>,
    r: Result<Vec<u8>, FsError>,
) -> bool {
    match outcome {
        Ok(reported) => r is Ok && r->Ok_0@ == delivered(buf, reported),
        Err(e) => r == Err::<Vec<u8>, FsError>(io_failure(e)),
    }
}

/// The answer to a write that the host completed with `outcome`.
pub open spec fn write_answer(outcome: Result<u64, HostError>) -> Result<u32, FsError> {
    match outcome {
        Ok(written) => Ok(committed(written)),
        Err(e) => Err(io_failure(e)),
    }
}

/// The answer to a size query that the host completed with `outcome`.
pub open spec fn size_answer(outcome: Result<u64, HostError>) -> Result<u64, FsError> {
    match outcome {
        Ok(len) => Ok(len),
        Err(e) => Err(io_failure(e)),
    }
}

/// The answer to a flush that the host completed with `outcome`.
pub open spec fn flush_answer(outcome: Result<(), HostError>) -> Result<(), FsError> {
    match outcome {
        Ok(_) => Ok(()),
        Err(e) => Err(io_failure(e)),
    }
}

/// Whether a read of `count` bytes at `offset` may leave the resource as
/// `after` and answer `r`: the resource was handed `count` zero bytes, and `r`
/// answers what it left of them and what it reported.
pub open spec fn read_outcome<R: SyncAccess>(
    before: R,
    offset: u64,
    count: u32,
    after: R,
    r: Result<Vec<u8>, FsError>,
) -> bool {
    exists|filled: Seq<u8>, outcome: Result<u64, HostError>| #[trigger]
        R::reads(before, offset, zeros(count as nat), after, filled, outcome) && read_answer(
            clip(filled, count as nat),
            outcome,
            r,
        )
}

/// Whether a write of `data` at `offset` may leave the resource as `after` and
/// answer `r`.
pub open spec fn write_outcome<R: SyncAccess>(
    before: R,
    offset: u64,
    data: Seq<u8>,
    after: R,
    r: Result<u32, FsError>,
) -> bool {
    exists|outcome: Result<u64, HostError>| #[trigger]
        R::writes(before, offset, data, after, outcome) && r == write_answer(outcome)
}

/// A buffer of `count` zero bytes, for the host to read into.
pub fn read_buffer(count: u32) -> (buf: Vec<u8>)
    ensures
        buf@ == zeros(count as nat),
{
    let mut buf: Vec<u8> = Vec::new();
    let mut i: u32 = 0;
    while i < count
        invariant
            i <= count,
            buf@ == Seq::new(i as nat, |j: int| 0u8),
        decreases count - i,
    {
        buf.push(0u8);
        i = i + 1;
        assert(buf@ =~= Seq::new(i as nat, |j: int| 0u8));
    }
    buf
}

impl<R> OpfsVirtioDevice<R> {
    /// Completes an open. A resource that the host opened is registered under
    /// a fresh identifier; a host failure leaves the table as it was.
    pub fn open(&mut self, outcome: Result<R, HostError>) -> (r: Result<u64, FsError>)
        requires
            old(self).wf(),
            outcome is Ok ==> old(self).next_id() < u64::MAX,
        ensures
            final(self).wf(),
            match outcome {
                Ok(resource) => {
                    &&& r == Ok::<u64, FsError>(old(self).next_id())
                    &&& old(self).next_id() != 0
                    &&& !old(self)@.contains_key(old(self).next_id())
                    &&& final(self)@ == old(self)@.insert(old(self).next_id(), resource)
                    &&& final(self).next_id() == old(self).next_id() + 1
                    &&& final(self).handles() == old(self).handles().step(Request::Open)
                },
                Err(e) => {
                    &&& r == Err::<u64, FsError>(open_failure(e))
                    &&& final(self)@ == old(self)@
                    &&& final(self).next_id() == old(self).next_id()
                    &&& final(self).handles() == old(self).handles()
                },
            },
    {
        match outcome {
            Ok(resource) => Ok(self.allocate(resource)),
            Err(e) => Err(FsError::from_open(e)),
        }
    }

    /// Closes a live identifier and drops its resource. An unknown identifier
    /// is refused and the table stays as it was.
    pub fn close(&mut self, fid: u64) -> (r: Result<(), FsError>)
        ensures
            final(self).next_id() == old(self).next_id(),
            old(self).wf() ==> final(self).wf(),
            final(self).handles() == old(self).handles().step(Request::Close(fid)),
            r is Ok <==> old(self).handles().succeeds(Request::Close(fid)),
            old(self)@.contains_key(fid) ==> r == Ok::<(), FsError>(()) && final(self)@ == old(
                self,
            )@.remove(fid),
            !old(self)@.contains_key(fid) ==> r == Err::<(), FsError>(FsError::InvalidHandle)
                && final(self)@ == old(self)@,
    {
        self.release(fid)
    }

    /// Completes a metadata query.
    pub fn stat(&self, outcome: Result<HostMetadata, HostError>) -> (r: Result<JsStat, FsError>)
        ensures
            match outcome {
                Ok(meta) => r == Ok::<JsStat, FsError>(
                    (JsStat { size: meta.len, is_directory: meta.is_dir, mtime: 0 }),
                ),
                Err(e) => r == Err::<JsStat, FsError>(namespace_failure(NamespaceOp::Stat, e)),
            },
    {
        match outcome {
            Ok(meta) => Ok(JsStat { size: meta.len, is_directory: meta.is_dir, mtime: 0 }),
            Err(e) => Err(FsError::from_namespace(NamespaceOp::Stat, e)),
        }
    }

    /// Completes the creation of a directory.
    pub fn mkdir(&self, outcome: Result<(), HostError>) -> (r: Result<(), FsError>)
        ensures
            r == done(NamespaceOp::Mkdir, outcome),
    {
        finish(NamespaceOp::Mkdir, outcome)
    }

    /// Completes the removal of a file.
    pub fn unlink(&self, outcome: Result<(), HostError>) -> (r: Result<(), FsError>)
        ensures
            r == done(NamespaceOp::Unlink, outcome),
    {
        finish(NamespaceOp::Unlink, outcome)
    }

    /// Completes the removal of a directory.
    pub fn rmdir(&self, outcome: Result<(), HostError>) -> (r: Result<(), FsError>)
        ensures
            r == done(NamespaceOp::Rmdir, outcome),
    {
        finish(NamespaceOp::Rmdir, outcome)
    }

    /// Completes a rename.
    pub fn rename(&self, outcome: Result<(), HostError>) -> (r: Result<(), FsError>)
        ensures
            r == done(NamespaceOp::Rename, outcome),
    {
        finish(NamespaceOp::Rename, outcome)
    }

    /// Completes a directory listing: the host's entries one for one and in
    /// the host's order, or the failure that the host reported first.
    pub fn readdir(&self, outcome: Result<Vec<Result<HostDirEntry, HostError>>, HostError>) -> (r:
        Result<Vec<JsDirEntry>, FsError>)
        ensures
            match outcome {
                Err(e) => r == Err::<Vec<JsDirEntry>, FsError>(
                    namespace_failure(NamespaceOp::Readdir, e),
                ),
                Ok(items) => listed(items@, r),
            },
    {
        match outcome {
            Err(e) => Err(FsError::from_namespace(NamespaceOp::Readdir, e)),
            Ok(items) => list_entries(&items),
        }
    }

    /// Completes an existence check. That the host finds nothing is the
    /// answer `false`, never a failure.
    pub fn try_exists(&self, outcome: Result<bool, HostError>) -> (r: Result<bool, FsError>)
        ensures
            r == exists_answer(outcome),
    {
        match outcome {
            Ok(found) => Ok(found),
            Err(e) => match e.kind {
                HostErrorKind::NotFound => Ok(false),
                _ => Err(FsError::from_io(e)),
            },
        }
    }
}

/// The answer to a read into `buf`, of which the host reports to have filled
/// the first `outcome` bytes.
pub fn read_reply(buf: Vec<u8>, outcome: Result<u64, HostError>) -> (r: Result<Vec<u8>, FsError>)
    ensures
        read_answer(buf@, outcome, r),
{
    match outcome {
        Ok(reported) => {
            let mut bytes = buf;
            if reported < bytes.len() as u64 {
                bytes.truncate(reported as usize);
            } else {
                assert(reported == buf@.len() ==> buf@.subrange(0, reported as int) =~= buf@);
            }
            Ok(bytes)
        },
        Err(e) => Err(FsError::from_io(e)),
    }
}

/// The answer to a write, of which the host reports to have committed
/// `outcome` bytes.
pub fn write_reply(outcome: Result<u64, HostError>) -> (r: Result<u32, FsError>)
    ensures
        r == write_answer(outcome),
{
    match outcome {
        Ok(written) => if written <= u32::MAX as u64 {
            Ok(written as u32)
        } else {
            Ok(u32::MAX)
        },
        Err(e) => Err(FsError::from_io(e)),
    }
}

/// The answer to a size query.
pub fn size_reply(outcome: Result<u64, HostError>) -> (r: Result<u64, FsError>)
    ensures
        r == size_answer(outcome),
{
    match outcome {
        Ok(len) => Ok(len),
        Err(e) => Err(FsError::from_io(e)),
    }
}

/// The answer to a flush.
pub fn flush_reply(outcome: Result<(), HostError>) -> (r: Result<(), FsError>)
    ensures
        r == flush_answer(outcome),
{
    match outcome {
        Ok(_) => Ok(()),
        Err(e) => Err(FsError::from_io(e)),
    }
}

impl<R: SyncAccess> OpfsVirtioDevice<R> {
    /// Reads up to `count` bytes at `offset` from an open file. An unknown
    /// identifier is refused before the resource is touched. Otherwise the
    /// resource is handed `count` zero bytes to fill, and the answer is the
    /// part that it reports to have filled, or its failure as an `IoFailure`.
    /// Whatever the resource answers, the table keeps its identifiers and
    /// its other resources, and the answer is never longer than `count`.
    pub fn read(&mut self, fid: u64, offset: u64, count: u32) -> (r: Result<Vec<u8>, FsError>)
        ensures
            final(self).handles() == old(self).handles(),
            final(self)@.remove(fid) == old(self)@.remove(fid),
            !old(self)@.contains_key(fid) ==> r == Err::<Vec<u8>, FsError>(FsError::InvalidHandle)
                && final(self)@ == old(self)@,
            old(self)@.contains_key(fid) ==> read_outcome(
                old(self)@[fid],
                offset,
                count,
                final(self)@[fid],
                r,
            ),
            old(self)@.contains_key(fid) ==> match r {
                Ok(bytes) => bytes@.len() <= count,
                Err(e) => e is IoFailure,
            },
    {
        let ghost before = self@;
        let file = match self.lookup_mut(fid) {
            Ok(file) => file,
            Err(e) => {
                assert(before.remove(fid) =~= before);
                return Err(e);
            },
        };
        let mut buf = read_buffer(count);
        let outcome = file.read_at(offset, &mut buf);
        let ghost filled = buf@;
        proof {
            assert(before.insert(fid, *file).remove(fid) =~= before.remove(fid));
            assert(R::reads(before[fid], offset, zeros(count as nat), *file, filled, outcome));
        }
        if buf.len() > count as usize {
            buf.truncate(count as usize);
        }
        assert(buf@ == clip(filled, count as nat));
        read_reply(buf, outcome)
    }

    /// Writes `data` at `offset` to an open file. An unknown identifier is
    /// refused before the resource is touched. Otherwise the answer is the
    /// count that the resource reports to have committed, or its failure as an
    /// `IoFailure`. Whatever the resource answers, the table keeps its
    /// identifiers and its other resources.
    pub fn write(&mut self, fid: u64, offset: u64, data: &[u8]) -> (r: Result<u32, FsError>)
        ensures
            final(self).handles() == old(self).handles(),
            final(self)@.remove(fid) == old(self)@.remove(fid),
            !old(self)@.contains_key(fid) ==> r == Err::<u32, FsError>(FsError::InvalidHandle)
                && final(self)@ == old(self)@,
            old(self)@.contains_key(fid) ==> write_outcome(
                old(self)@[fid],
                offset,
                data@,
                final(self)@[fid],
                r,
            ),
            old(self)@.contains_key(fid) && r is Err ==> r->Err_0 is IoFailure,
    {
        let ghost before = self@;
        let file = match self.lookup_mut(fid) {
            Ok(file) => file,
            Err(e) => {
                assert(before.remove(fid) =~= before);
                return Err(e);
            },
        };
        let outcome = file.write_at(offset, data);
        proof {
            assert(before.insert(fid, *file).remove(fid) =~= before.remove(fid));
            assert(R::writes(before[fid], offset, data@, *file, outcome));
        }
        write_reply(outcome)
    }

    /// The length in bytes of an open file. An unknown identifier is refused
    /// before the resource is asked; a failure of the resource is an
    /// `IoFailure`.
    pub fn size(&self, fid: u64) -> (r: Result<u64, FsError>)
        ensures
            !self@.contains_key(fid) ==> r == Err::<u64, FsError>(FsError::InvalidHandle),
            self@.contains_key(fid) ==> exists|outcome: Result<u64, HostError>| #[trigger]
                self@[fid].sizes(outcome) && r == size_answer(outcome),
    {
        match self.lookup(fid) {
            Ok(file) => size_reply(file.size()),
            Err(e) => Err(e),
        }
    }

    /// Asks an open file to commit its buffered writes. An unknown identifier
    /// is refused before the resource is asked; a failure of the resource is
    /// an `IoFailure`. The file stays open either way.
    pub fn flush(&self, fid: u64) -> (r: Result<(), FsError>)
        ensures
            !self@.contains_key(fid) ==> r == Err::<(), FsError>(FsError::InvalidHandle),
            self@.contains_key(fid) ==> exists|outcome: Result<(), HostError>| #[trigger]
                self@[fid].flushes(outcome) && r == flush_answer(outcome),
    {
        match self.lookup(fid) {
            Ok(file) => flush_reply(file.flush()),
            Err(e) => Err(e),
        }
    }
}

/// The answer to an existence check that the host completed with `outcome`.
pub open spec fn exists_answer(outcome: Result<bool, HostError>) -> Result<bool, FsError> {
    match outcome {
        Ok(found) => Ok(found),
        Err(e) => if e.kind == HostErrorKind::NotFound {
            Ok(false)
        } else {
            Err(io_failure(e))
        },
    }
}

/// The answer of a namespace operation that returns nothing.
pub open spec fn done(op: NamespaceOp, outcome: Result<(), HostError>) -> Result<(), FsError> {
    match outcome {
        Ok(_) => Ok(()),
        Err(e) => Err(namespace_failure(op, e)),
    }
}

/// `r` is the listing owed for the host's `items`.
pub open spec fn listed(
    items: Seq<Result<HostDirEntry, HostError>>,
    r: Result<Vec<JsDirEntry>, FsError>,
) -> bool {
    match r {
        Ok(out) => lists_all(out@, items),
        Err(failure) => exists|i: int|
            #[trigger] first_failure_at(items, i) && failure == namespace_failure(
                NamespaceOp::Readdir,
                items[i]->Err_0,
            ),
    }
}

fn list_entries(items: &Vec<Result<HostDirEntry, HostError>>) -> (r: Result<
    Vec<JsDirEntry>,
    FsError,
>)
    ensures
        listed(items@, r),
{
    let mut out: Vec<JsDirEntry> = Vec::new();
    let mut i: usize = 0;
    while i < items.len()
        invariant
            i <= items.len(),
            out.len() == i,
            forall|j: int|
                0 <= j < i ==> (#[trigger] items@[j]) is Ok && out@[j].lists(items@[j]->Ok_0),
        decreases items.len() - i,
    {
        match &items[i] {
            Ok(entry) => {
                out.push(JsDirEntry::of_host(entry));
            },
            Err(e) => {
                let failure = HostError { kind: e.kind, detail: e.detail.clone() };
                let r = Err(FsError::from_namespace(NamespaceOp::Readdir, failure));
                assert(items@[i as int]->Err_0 == failure);
                assert(first_failure_at(items@, i as int));
                return r;
            },
        }
        i = i + 1;
    }
    Ok(out)
}

fn finish(op: NamespaceOp, outcome: Result<(), HostError>) -> (r: Result<(), FsError>)
    ensures
        r == done(op, outcome),
{
    match outcome {
        Ok(_) => Ok(()),
        Err(e) => Err(FsError::from_namespace(op, e)),
    }
}

} // verus!
