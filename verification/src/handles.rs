//! The identifier discipline of the table, as a state machine over the set of
//! live identifiers, and what holds of every run of it.

use vstd::prelude::*;

verus! {

/// What the table's identifier discipline depends on: which identifiers are
/// live, and which one is issued next.
pub struct Handles {
    pub live: Set<u64>,
    pub next: u64,
}

/// A request that changes the table.
pub enum Request {
    /// Register a resource that the host opened.
    Open,
    /// Close an identifier.
    Close(u64),
}

impl Handles {
    /// Every live identifier was issued: it is not 0 and lies below the next
    /// one to be issued.
    pub open spec fn wf(self) -> bool {
        &&& self.next >= 1
        &&& forall|id: u64| #[trigger] self.live.contains(id) ==> 1 <= id < self.next
    }

    /// Whether `id` was issued and has been closed since.
    pub open spec fn retired(self, id: u64) -> bool {
        1 <= id < self.next && !self.live.contains(id)
    }

    /// Whether the table can serve `req`: an open needs an identifier left to
    /// issue.
    pub open spec fn admits(self, req: Request) -> bool {
        req is Open ==> self.next < u64::MAX
    }

    /// Whether `req` succeeds: an open always does, a close on a live
    /// identifier only.
    pub open spec fn succeeds(self, req: Request) -> bool {
        match req {
            Request::Open => true,
            Request::Close(id) => self.live.contains(id),
        }
    }

    /// The table after `req`.
    pub open spec fn step(self, req: Request) -> Handles {
        match req {
            Request::Open => Handles {
                live: self.live.insert(self.next),
                next: (self.next + 1) as u64,
            },
            Request::Close(id) => Handles { live: self.live.remove(id), next: self.next },
        }
    }

    /// Whether the table can serve `reqs` one after the other.
    pub open spec fn admits_all(self, reqs: Seq<Request>) -> bool
        decreases reqs.len(),
    {
        reqs.len() == 0 || (self.admits(reqs[0]) && self.step(reqs[0]).admits_all(
            reqs.drop_first(),
        ))
    }

    /// The table after `reqs`, served one after the other.
    pub open spec fn after(self, reqs: Seq<Request>) -> Handles
        decreases reqs.len(),
    {
        if reqs.len() == 0 {
            self
        } else {
            self.step(reqs[0]).after(reqs.drop_first())
        }
    }

    /// The identifiers that the opens among `reqs` return, in order.
    pub open spec fn issued(self, reqs: Seq<Request>) -> Seq<u64>
        decreases reqs.len(),
    {
        if reqs.len() == 0 {
            Seq::empty()
        } else {
            let rest = self.step(reqs[0]).issued(reqs.drop_first());
            if reqs[0] is Open {
                seq![self.next] + rest
            } else {
                rest
            }
        }
    }
}

/// One request keeps the table well formed, never lowers the next identifier
/// and never revives a retired one.
pub proof fn lemma_step(h: Handles, req: Request)
    requires
        h.wf(),
        h.admits(req),
    ensures
        h.step(req).wf(),
        h.next <= h.step(req).next,
        forall|id: u64| h.retired(id) ==> h.step(req).retired(id),
{
}

proof fn lemma_run(h: Handles, reqs: Seq<Request>)
    requires
        h.wf(),
        h.admits_all(reqs),
    ensures
        h.after(reqs).wf(),
        h.next <= h.after(reqs).next,
        forall|id: u64| h.retired(id) ==> h.after(reqs).retired(id),
        forall|k: int|
            0 <= k < h.issued(reqs).len() ==> h.next <= (#[trigger] h.issued(reqs)[k]) < h.after(
                reqs,
            ).next,
        forall|j: int, k: int|
            0 <= j < k < h.issued(reqs).len() ==> h.issued(reqs)[j] < h.issued(reqs)[k],
    decreases reqs.len(),
{
    if reqs.len() > 0 {
        let mid = h.step(reqs[0]);
        let rest = reqs.drop_first();
        lemma_step(h, reqs[0]);
        lemma_run(mid, rest);
        assert forall|id: u64| h.retired(id) implies h.after(reqs).retired(id) by {
            assert(mid.retired(id));
        }
        if reqs[0] is Open {
            assert(h.issued(reqs) == seq![h.next] + mid.issued(rest));
            assert forall|k: int| 0 <= k < h.issued(reqs).len() implies h.next <= (
            #[trigger] h.issued(reqs)[k]) < h.after(reqs).next by {
                if k > 0 {
                    assert(h.issued(reqs)[k] == mid.issued(rest)[k - 1]);
                }
            }
            assert forall|j: int, k: int| 0 <= j < k < h.issued(reqs).len() implies h.issued(
                reqs,
            )[j] < h.issued(reqs)[k] by {
                assert(h.issued(reqs)[k] == mid.issued(rest)[k - 1]);
                if j > 0 {
                    assert(h.issued(reqs)[j] == mid.issued(rest)[j - 1]);
                }
            }
        }
    }
}

/// Whatever requests a well-formed table serves, it stays well formed and
/// its next identifier never falls.
pub proof fn lemma_run_keeps_wf(h: Handles, reqs: Seq<Request>)
    requires
        h.wf(),
        h.admits_all(reqs),
    ensures
        h.after(reqs).wf(),
        h.next <= h.after(reqs).next,
{
    lemma_run(h, reqs);
}

/// Identifiers are unique: over any run of opens and closes, no identifier is
/// issued twice, none is 0, and none was live or retired when the run began.
pub proof fn lemma_issued_distinct(h: Handles, reqs: Seq<Request>)
    requires
        h.wf(),
        h.admits_all(reqs),
    ensures
        h.issued(reqs).no_duplicates(),
        forall|k: int|
            0 <= k < h.issued(reqs).len() ==> {
                let id = #[trigger] h.issued(reqs)[k];
                id != 0 && !h.live.contains(id) && !h.retired(id)
            },
{
    lemma_run(h, reqs);
    assert forall|j: int, k: int|
        0 <= j < h.issued(reqs).len() && 0 <= k < h.issued(reqs).len() && j != k implies h.issued(
        reqs,
    )[j] != h.issued(reqs)[k] by {
        if j < k {
            assert(h.issued(reqs)[j] < h.issued(reqs)[k]);
        } else {
            assert(h.issued(reqs)[k] < h.issued(reqs)[j]);
        }
    }
}

/// An open adds one identifier, which differs from every live one.
pub proof fn lemma_open_adds_fresh(h: Handles)
    requires
        h.wf(),
        h.admits(Request::Open),
    ensures
        !h.live.contains(h.next),
        h.step(Request::Open).live == h.live.insert(h.next),
        forall|id: u64| h.live.contains(id) ==> id != h.next,
{
}

/// Identifiers are never reused: once a close of `id` has succeeded, `id` is
/// not live after any further run of opens and closes.
pub proof fn lemma_closed_never_live(h: Handles, id: u64, reqs: Seq<Request>)
    requires
        h.wf(),
        h.succeeds(Request::Close(id)),
        h.step(Request::Close(id)).admits_all(reqs),
    ensures
        !h.step(Request::Close(id)).after(reqs).live.contains(id),
        !h.issued(seq![Request::Close(id)] + reqs).contains(id),
{
    let closed = h.step(Request::Close(id));
    lemma_step(h, Request::Close(id));
    assert(closed.retired(id));
    lemma_run(closed, reqs);
    assert(closed.after(reqs).retired(id));
    let all = seq![Request::Close(id)] + reqs;
    assert(all.drop_first() =~= reqs);
    assert(all[0] == Request::Close(id));
    assert(h.issued(all) == closed.issued(reqs));
    if closed.issued(reqs).contains(id) {
        let k = choose|k: int| 0 <= k < closed.issued(reqs).len() && closed.issued(reqs)[k] == id;
        assert(closed.next <= closed.issued(reqs)[k]);
    }
}

/// A second close of the same identifier is refused: the first succeeds, the
/// second does not, and it leaves the table as the first left it.
pub proof fn lemma_double_close(h: Handles, id: u64)
    requires
        h.live.contains(id),
    ensures
        h.succeeds(Request::Close(id)),
        !h.step(Request::Close(id)).succeeds(Request::Close(id)),
        h.step(Request::Close(id)).step(Request::Close(id)) == h.step(Request::Close(id)),
{
    let once = h.step(Request::Close(id));
    assert(once.live.remove(id) =~= once.live);
}

} // verus!
