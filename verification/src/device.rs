//! The handle table.

use vstd::prelude::*;
use std::collections::HashMap;
use std::collections::hash_map::Entry;
use crate::error::FsError;
use crate::handles::{Handles, Request};

verus! {

broadcast use vstd::std_specs::hash::group_hash_axioms;

/// The table of open storage resources, keyed by the identifiers it issued.
pub struct OpfsVirtioDevice<R> {
    files: HashMap<u64, R>,
    next_fid: u64,
}

impl<R> View for OpfsVirtioDevice<R> {
    type V = Map<u64, R>;

    /// The live handles: each open identifier with its resource.
    closed spec fn view(&self) -> Map<u64, R> {
        self.files@
    }
}

impl<R> OpfsVirtioDevice<R> {
    /// The identifier that the next successful open will get.
    pub closed spec fn next_id(&self) -> u64 {
        self.next_fid
    }

    /// The table's identifiers, without the resources.
    pub open spec fn handles(&self) -> Handles {
        Handles { live: self@.dom(), next: self.next_id() }
    }

    /// Every live identifier was issued: it is not 0 and lies below the next
    /// one to be issued.
    pub open spec fn wf(&self) -> bool {
        self.handles().wf()
    }

    /// An empty table, whose first identifier will be 1.
    pub fn new() -> (d: Self)
        ensures
            d.wf(),
            d@ == Map::<u64, R>::empty(),
            d.next_id() == 1,
    {
        OpfsVirtioDevice { files: HashMap::new(), next_fid: 1 }
    }

    /// Whether an identifier is left to issue.
    pub fn can_allocate(&self) -> (b: bool)
        ensures
            b == (self.next_id() < u64::MAX),
    {
        self.next_fid < u64::MAX
    }

    /// Registers `resource` under a fresh identifier and returns it.
    pub fn allocate(&mut self, resource: R) -> (id: u64)
        requires
            old(self).wf(),
            old(self).next_id() < u64::MAX,
        ensures
            final(self).wf(),
            id == old(self).next_id(),
            id != 0,
            !old(self)@.contains_key(id),
            final(self)@ == old(self)@.insert(id, resource),
            final(self).next_id() == id + 1,
            final(self).handles() == old(self).handles().step(Request::Open),
    {
        let fid = self.next_fid;
        self.next_fid = fid + 1;
        self.files.insert(fid, resource);
        proof {
            assert(old(self).handles().live.contains(fid) ==> fid < old(self).next_id());
            assert(final(self)@.dom() =~= old(self)@.dom().insert(fid));
            assert forall|k: u64| #[trigger]
                final(self).handles().live.contains(k) implies 1 <= k < final(self).next_id() by {
                if k != fid {
                    assert(old(self).handles().live.contains(k));
                }
            }
        }
        fid
    }

    /// The resource of a live identifier, for reading.
    pub fn lookup(&self, id: u64) -> (r: Result<&R, FsError>)
        ensures
            self@.contains_key(id) ==> r == Ok::<&R, FsError>(&self@[id]),
            !self@.contains_key(id) ==> r == Err::<&R, FsError>(FsError::InvalidHandle),
    {
        match self.files.get(&id) {
            Some(resource) => Ok(resource),
            None => Err(FsError::InvalidHandle),
        }
    }

    /// The resource of a live identifier, for writing. What the caller leaves
    /// in it is what the table holds afterwards; nothing else changes.
    pub fn lookup_mut(&mut self, id: u64) -> (r: Result<&mut R, FsError>)
        ensures
            final(self).next_id() == old(self).next_id(),
            final(self).handles() == old(self).handles(),
            match r {
                Ok(resource) => {
                    &&& old(self)@.contains_key(id)
                    &&& *resource == old(self)@[id]
                    &&& final(self)@ == old(self)@.insert(id, *final(resource))
                },
                Err(e) => {
                    &&& !old(self)@.contains_key(id)
                    &&& e == FsError::InvalidHandle
                    &&& final(self)@ == old(self)@
                },
            },
    {
        proof {
            let before = old(self).files@;
            assert forall|v: R| before.contains_key(id) implies (#[trigger] before.insert(
                id,
                v,
            )).dom() == before.dom() by {
                assert(before.insert(id, v).dom() =~= before.dom());
            }
            assert(!before.contains_key(id) ==> before.remove(id).dom() =~= before.dom());
        }
        match self.files.entry(id) {
            Entry::Occupied(slot) => Ok(slot.into_mut()),
            Entry::Vacant(_) => Err(FsError::InvalidHandle),
        }
    }

    /// Removes a live identifier and drops its resource.
    pub fn release(&mut self, id: u64) -> (r: Result<(), FsError>)
        ensures
            final(self).next_id() == old(self).next_id(),
            old(self).wf() ==> final(self).wf(),
            final(self).handles() == old(self).handles().step(Request::Close(id)),
            r is Ok <==> old(self).handles().succeeds(Request::Close(id)),
            old(self)@.contains_key(id) ==> r == Ok::<(), FsError>(()) && final(self)@ == old(
                self,
            )@.remove(id),
            !old(self)@.contains_key(id) ==> r == Err::<(), FsError>(FsError::InvalidHandle)
                && final(self)@ == old(self)@,
    {
        proof {
            let before = old(self).files@;
            assert(before.remove(id).dom() =~= before.dom().remove(id));
            assert(!before.contains_key(id) ==> before.dom().remove(id) =~= before.dom());
            assert forall|k: u64|
                old(self).wf() && #[trigger] before.remove(id).dom().contains(k) implies 1 <= k
                < old(self).next_id() by {
                assert(old(self).handles().live.contains(k));
            }
        }
        match self.files.remove(&id) {
            Some(_) => Ok(()),
            None => Err(FsError::InvalidHandle),
        }
    }
}

} // verus!
