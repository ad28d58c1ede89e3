//! A storage resource held in memory: a run of bytes that is read and written
//! at absolute offsets. It stands in for the host's storage where none is at
//! hand, and it fixes what the bridge's answers are over such a resource.

use vstd::prelude::*;
use crate::access::SyncAccess;
use crate::bridge::{read_outcome, write_outcome};
use crate::error::FsError;
use crate::error::{HostError, HostErrorKind};

verus! {

/// The bytes that a read of `count` bytes at `offset` finds in `content`:
/// none at or beyond the end, and no more than are left before it.
pub open spec fn read_span(content: Seq<u8>, offset: u64, count: nat) -> Seq<u8> {
    if offset >= content.len() {
        Seq::empty()
    } else if offset + count <= content.len() {
        content.subrange(offset as int, offset + count)
    } else {
        content.subrange(offset as int, content.len() as int)
    }
}

/// The content after `data` was written at `offset`: the bytes under `data`
/// are replaced, the content grows where `data` reaches beyond its end, and a
/// gap between the old end and `offset` is filled with zeros. Writing nothing
/// changes nothing.
pub open spec fn written(content: Seq<u8>, offset: u64, data: Seq<u8>) -> Seq<u8> {
    if data.len() == 0 {
        content
    } else {
        Seq::new(
            if content.len() >= offset + data.len() {
                content.len()
            } else {
                (offset + data.len()) as nat
            },
            |k: int|
                if offset <= k < offset + data.len() {
                    data[k - offset]
                } else if k < content.len() {
                    content[k]
                } else {
                    0u8
                },
        )
    }
}

/// An open file whose bytes live in memory.
pub struct MemoryFile {
    bytes: Vec<u8>,
}

impl View for MemoryFile {
    type V = Seq<u8>;

    /// The file's content.
    closed spec fn view(&self) -> Seq<u8> {
        self.bytes@
    }
}

impl MemoryFile {
    /// An empty file.
    pub fn new() -> (f: MemoryFile)
        ensures
            f@ == Seq::<u8>::empty(),
    {
        MemoryFile { bytes: Vec::new() }
    }
}

impl SyncAccess for MemoryFile {
    /// A read never fails and leaves the file as it was. It fills the front
    /// of the buffer with what it finds and reports how much that is.
    open spec fn reads(
        before: Self,
        offset: u64,
        buf: Seq<u8>,
        after: Self,
        filled: Seq<u8>,
        r: Result<u64, HostError>,
    ) -> bool {
        let span = read_span(before@, offset, buf.len());
        &&& after@ == before@
        &&& r == Ok::<u64, HostError>(span.len() as u64)
        &&& filled == span + buf.subrange(span.len() as int, buf.len() as int)
    }

    /// A write commits all of `data`, unless no index can address its end:
    /// then it fails and changes nothing.
    open spec fn writes(
        before: Self,
        offset: u64,
        data: Seq<u8>,
        after: Self,
        r: Result<u64, HostError>,
    ) -> bool {
        if offset + data.len() <= usize::MAX {
            r == Ok::<u64, HostError>(data.len() as u64) && after@ == written(
                before@,
                offset,
                data,
            )
        } else {
            r is Err && r->Err_0.kind == HostErrorKind::Other && after@ == before@
        }
    }

    /// A size query never fails.
    open spec fn sizes(&self, r: Result<u64, HostError>) -> bool {
        r == Ok::<u64, HostError>(self@.len() as u64)
    }

    /// A flush never fails.
    open spec fn flushes(&self, r: Result<(), HostError>) -> bool {
        r == Ok::<(), HostError>(())
    }

    /// Reads at `offset` into the front of `buf`, as many bytes as `buf`
    /// holds or as the file has left, and reports how many that was. The rest
    /// of `buf` is left as it was. This never fails.
    fn read_at(&mut self, offset: u64, buf: &mut Vec<u8>) -> (r: Result<u64, HostError>) {
        let size = self.bytes.len();
        if offset >= size as u64 {
            assert(buf@ =~= Seq::<u8>::empty() + buf@.subrange(0, buf@.len() as int));
            return Ok(0);
        }
        let start = offset as usize;
        let left = size - start;
        let n = if buf.len() <= left {
            buf.len()
        } else {
            left
        };
        let mut i: usize = 0;
        while i < n
            invariant
                i <= n,
                start + n <= size,
                size == self.bytes@.len(),
                n <= buf@.len(),
                buf@.len() == old(buf)@.len(),
                forall|k: int| 0 <= k < i ==> buf@[k] == self.bytes@[start + k],
                forall|k: int| i <= k < buf@.len() ==> buf@[k] == old(buf)@[k],
            decreases n - i,
        {
            buf.set(i, self.bytes[start + i]);
            i = i + 1;
        }
        assert(buf@ =~= read_span(self@, offset, old(buf)@.len()) + old(buf)@.subrange(
            n as int,
            old(buf)@.len() as int,
        ));
        Ok(n as u64)
    }

    /// Writes `data` at `offset` and reports how many bytes were committed:
    /// all of them. A write whose end no index can address fails and changes
    /// nothing.
    fn write_at(&mut self, offset: u64, data: &[u8]) -> (r: Result<u64, HostError>) {
        if offset > (usize::MAX - data.len()) as u64 {
            return Err(
                HostError { kind: HostErrorKind::Other, detail: "offset out of range".to_string() },
            );
        }
        if data.len() == 0 {
            return Ok(0);
        }
        let start = offset as usize;
        while self.bytes.len() < start
            invariant
                old(self).bytes@.len() <= self.bytes@.len(),
                self.bytes@.len() <= start || self.bytes@.len() == old(self).bytes@.len(),
                forall|k: int|
                    0 <= k < self.bytes@.len() ==> self.bytes@[k] == if k < old(self).bytes@.len() {
                        old(self).bytes@[k]
                    } else {
                        0u8
                    },
            decreases start - self.bytes@.len(),
        {
            self.bytes.push(0u8);
        }
        let mut i: usize = 0;
        while i < data.len()
            invariant
                i <= data@.len(),
                start == offset,
                start + data@.len() <= usize::MAX,
                self.bytes@.len() >= start,
                self.bytes@.len() >= old(self).bytes@.len(),
                self.bytes@.len() >= start + i,
                self.bytes@.len() > old(self).bytes@.len() ==> self.bytes@.len() == start + i
                    || self.bytes@.len() == start,
                forall|k: int|
                    0 <= k < self.bytes@.len() ==> self.bytes@[k] == if start <= k < start + i {
                        data@[k - start]
                    } else if k < old(self).bytes@.len() {
                        old(self).bytes@[k]
                    } else {
                        0u8
                    },
            decreases data@.len() - i,
        {
            if start + i < self.bytes.len() {
                self.bytes.set(start + i, data[i]);
            } else {
                self.bytes.push(data[i]);
            }
            i = i + 1;
        }
        assert(self.bytes@ =~= written(old(self)@, offset, data@));
        Ok(data.len() as u64)
    }

    /// The file's length in bytes. This never fails.
    fn size(&self) -> (r: Result<u64, HostError>) {
        Ok(self.bytes.len() as u64)
    }

    /// Commits the content. Memory holds nothing back, so there is nothing to
    /// do and nothing to fail.
    fn flush(&self) -> (r: Result<(), HostError>) {
        Ok(())
    }
}

/// A read at or beyond the end finds nothing, and a read that reaches across
/// the end finds exactly the bytes that are left.
pub proof fn lemma_short_read(content: Seq<u8>, offset: u64, count: nat)
    ensures
        offset >= content.len() ==> read_span(content, offset, count).len() == 0,
        offset < content.len() < offset + count ==> read_span(content, offset, count).len()
            == content.len() - offset,
        read_span(content, offset, count).len() <= count,
{
}

/// What was written is read back: a read of as many bytes as were written, at
/// the offset where they were written, finds them unchanged.
pub proof fn lemma_write_read_round_trip(content: Seq<u8>, offset: u64, data: Seq<u8>)
    ensures
        read_span(written(content, offset, data), offset, data.len()) == data,
{
    assert(read_span(written(content, offset, data), offset, data.len()) =~= data);
}

/// A write elsewhere does not disturb what a read finds: where the write's
/// range and the read's range do not overlap, and the read's range lies
/// within the content, the read finds the same bytes after the write as
/// before it.
pub proof fn lemma_write_elsewhere_keeps_span(
    content: Seq<u8>,
    offset: u64,
    data: Seq<u8>,
    at: u64,
    count: nat,
)
    requires
        at + count <= content.len(),
        at + count <= offset || offset + data.len() <= at,
    ensures
        read_span(written(content, offset, data), at, count) == read_span(content, at, count),
{
    assert(read_span(written(content, offset, data), at, count) =~= read_span(
        content,
        at,
        count,
    ));
}

/// Through the bridge, a read of a file in memory never fails, leaves the
/// file as it was and answers exactly what the read finds: nothing at or
/// beyond the end, and only the bytes that are left where it reaches across
/// the end.
pub proof fn lemma_bridge_read(
    file: MemoryFile,
    offset: u64,
    count: u32,
    after: MemoryFile,
    r: Result<Vec<u8>, FsError>,
)
    requires
        read_outcome(file, offset, count, after, r),
    ensures
        after@ == file@,
        r is Ok,
        r->Ok_0@ == read_span(file@, offset, count as nat),
        offset >= file@.len() ==> r->Ok_0@.len() == 0,
        offset < file@.len() < offset + count ==> r->Ok_0@.len() == file@.len() - offset,
{
    let span = read_span(file@, offset, count as nat);
    let buf = crate::bridge::zeros(count as nat);
    let filled = span + buf.subrange(span.len() as int, buf.len() as int);
    assert(filled.len() == count);
    assert(filled.subrange(0, span.len() as int) =~= span);
}

/// Through the bridge, a write to a file in memory commits all of `data`,
/// and a read of as many bytes at the same offset answers `data` unchanged.
/// This is stated for data that one read can ask for and whose end an index
/// can address.
pub proof fn lemma_bridge_round_trip(
    file: MemoryFile,
    offset: u64,
    data: Seq<u8>,
    mid: MemoryFile,
    w: Result<u32, FsError>,
    after: MemoryFile,
    r: Result<Vec<u8>, FsError>,
)
    requires
        data.len() <= u32::MAX,
        offset + data.len() <= usize::MAX,
        write_outcome(file, offset, data, mid, w),
        read_outcome(mid, offset, data.len() as u32, after, r),
    ensures
        w == Ok::<u32, FsError>(data.len() as u32),
        mid@ == written(file@, offset, data),
        after@ == mid@,
        r is Ok,
        r->Ok_0@ == data,
{
    lemma_bridge_read(mid, offset, data.len() as u32, after, r);
    lemma_write_read_round_trip(file@, offset, data);
}

} // verus!
