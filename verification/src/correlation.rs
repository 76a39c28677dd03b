//! Request/response correlation for transports whose responses arrive
//! asynchronously and possibly out of order.
//!
//! The table tracks every in-flight request by its id, and each entry is
//! the request's single-fire completion slot itself: a receive loop fires
//! the slot with [`PendingTable::fulfill`], and the caller that issued the
//! request collects the fired slot with [`PendingTable::take_response`], or
//! abandons its entry when its wait times out. An entry therefore lives from
//! send until collection or abandonment — fulfillment fires the slot but the
//! id stays tracked until the waiter has taken the response, and only then
//! may the id be reused. At most one entry exists per id at any instant, and
//! a response is only ever stored under the entry whose id it carries.

use vstd::prelude::*;
use crate::error::{McpError, McpResult};
use crate::types::{spec_id_eq, JsonRpcResponse, RequestId};

verus! {

/// Delivery state of one in-flight request: the single-fire slot is empty
/// until the matching response arrives.
#[derive(Debug)]
pub enum PendingState {
    /// The caller is still waiting; no response has arrived.
    Waiting,
    /// The matching response arrived and waits to be collected.
    Fulfilled(JsonRpcResponse),
}

/// One in-flight request awaiting its response.
#[derive(Debug)]
pub struct PendingRequest {
    /// Correlation id of the request.
    pub id: RequestId,
    /// Delivery state of its single-fire slot.
    pub state: PendingState,
}

/// The set of in-flight requests of one connection.
#[derive(Debug)]
pub struct PendingTable {
    /// The entries, at most one per id.
    pub entries: Vec<PendingRequest>,
}

/// Two ids that both match a third match each other.
proof fn lemma_id_eq_trans(a: RequestId, b: RequestId, c: RequestId)
    requires
        spec_id_eq(a, c),
        spec_id_eq(b, c),
    ensures
        spec_id_eq(a, b),
{
}

impl PendingTable {
    /// Well-formedness: ids are pairwise distinct, and a stored response
    /// always carries the id of its own entry.
    pub open spec fn wf(self) -> bool {
        &&& forall|i: int, j: int|
            0 <= i < j < self.entries@.len() ==> !spec_id_eq(
                self.entries@[i].id,
                self.entries@[j].id,
            )
        &&& forall|i: int|
            0 <= i < self.entries@.len() ==> match (#[trigger] self.entries@[i]).state {
                PendingState::Fulfilled(resp) => resp.id == self.entries@[i].id,
                PendingState::Waiting => true,
            }
    }

    /// Whether some entry tracks the given id.
    pub open spec fn tracks(self, id: RequestId) -> bool {
        exists|i: int|
            0 <= i < self.entries@.len() && spec_id_eq(#[trigger] self.entries@[i].id, id)
    }

    /// An empty table.
    pub fn new() -> (r: Self)
        ensures
            r.wf(),
            r.entries@.len() == 0,
    {
        PendingTable { entries: Vec::new() }
    }

    /// How many requests are in flight.
    pub fn len(&self) -> (n: usize)
        ensures
            n == self.entries@.len(),
    {
        self.entries.len()
    }

    /// Index of the entry tracking the given id, if any.
    fn find(&self, id: &RequestId) -> (r: Option<usize>)
        ensures
            match r {
                Some(i) => i < self.entries@.len() && spec_id_eq(self.entries@[i as int].id, *id),
                None => forall|i: int|
                    0 <= i < self.entries@.len() ==> !spec_id_eq(
                        #[trigger] self.entries@[i].id,
                        *id,
                    ),
            },
    {
        let mut i: usize = 0;
        while i < self.entries.len()
            invariant
                i <= self.entries@.len(),
                forall|j: int|
                    0 <= j < i ==> !spec_id_eq(#[trigger] self.entries@[j].id, *id),
            decreases self.entries@.len() - i,
        {
            if self.entries[i].id == *id {
                return Some(i);
            }
            i = i + 1;
        }
        None
    }

    /// Whether the given id is currently tracked.
    pub fn contains(&self, id: &RequestId) -> (r: bool)
        ensures
            r == self.tracks(*id),
    {
        match self.find(id) {
            Some(_) => true,
            None => false,
        }
    }

    /// Track a freshly sent request. Rejected as a protocol violation when
    /// the id is already outstanding, so that no two entries ever share an
    /// id.
    pub fn register(&mut self, id: RequestId) -> (r: McpResult<()>)
        requires
            old(self).wf(),
        ensures
            final(self).wf(),
            r is Ok <==> !old(self).tracks(id),
            r is Ok ==> final(self).entries@ == old(self).entries@.push(
                PendingRequest { id, state: PendingState::Waiting },
            ),
            r is Err ==> final(self).entries@ == old(self).entries@ && r matches Err(
                McpError::ProtocolViolation(_),
            ),
            final(self).tracks(id),
    {
        match self.find(&id) {
            Some(i) => {
                assert(self.tracks(id));
                Err(McpError::ProtocolViolation("duplicate request id".to_owned()))
            },
            None => {
                self.entries.push(PendingRequest { id, state: PendingState::Waiting });
                assert(spec_id_eq(
                    self.entries@[self.entries@.len() - 1].id,
                    self.entries@[self.entries@.len() - 1].id,
                ));
                Ok(())
            },
        }
    }

    /// Hand an inbound response to the table: the slot of the waiting entry
    /// that carries the response's own id fires, exactly once. The entry
    /// stays tracked — still holding the response — until its waiter
    /// collects it, so the id cannot be reused before collection. A response
    /// nobody waits for is reported back (`false`) and the table is left
    /// unchanged, since an unknown correlation is dropped rather than
    /// treated as fatal.
    pub fn fulfill(&mut self, resp: JsonRpcResponse) -> (accepted: bool)
        requires
            old(self).wf(),
        ensures
            final(self).wf(),
            accepted <==> exists|i: int|
                0 <= i < old(self).entries@.len() && spec_id_eq(
                    #[trigger] old(self).entries@[i].id,
                    resp.id,
                ) && old(self).entries@[i].state is Waiting,
            accepted ==> exists|i: int|
                {
                    &&& 0 <= i < old(self).entries@.len()
                    &&& spec_id_eq(#[trigger] old(self).entries@[i].id, resp.id)
                    &&& final(self).entries@ == old(self).entries@.update(
                        i,
                        PendingRequest { id: resp.id, state: PendingState::Fulfilled(resp) },
                    )
                },
            !accepted ==> final(self).entries@ == old(self).entries@,
    {
        match self.find(&resp.id) {
            Some(i) => {
                match &self.entries[i].state {
                    PendingState::Waiting => {
                        proof {
                            assert(spec_id_eq(old(self).entries@[i as int].id, resp.id)
                                && old(self).entries@[i as int].state is Waiting);
                        }
                        let id = resp.id.clone();
                        self.entries.set(i, PendingRequest {
                            id,
                            state: PendingState::Fulfilled(resp),
                        });
                        proof {
                            assert forall|p: int, q: int|
                                0 <= p < q < self.entries@.len() implies !spec_id_eq(
                                self.entries@[p].id,
                                self.entries@[q].id,
                            ) by {
                                if p == i || q == i {
                                    let other = if p == i { q } else { p };
                                    if spec_id_eq(old(self).entries@[other].id, resp.id) {
                                        lemma_id_eq_trans(
                                            old(self).entries@[other].id,
                                            old(self).entries@[i as int].id,
                                            resp.id,
                                        );
                                        lemma_id_eq_trans(
                                            old(self).entries@[i as int].id,
                                            old(self).entries@[other].id,
                                            resp.id,
                                        );
                                    }
                                }
                            }
                        }
                        true
                    },
                    PendingState::Fulfilled(_) => {
                        proof {
                            if exists|j: int|
                                0 <= j < old(self).entries@.len() && spec_id_eq(
                                    #[trigger] old(self).entries@[j].id,
                                    resp.id,
                                ) && old(self).entries@[j].state is Waiting {
                                let j = choose|j: int|
                                    0 <= j < old(self).entries@.len() && spec_id_eq(
                                        #[trigger] old(self).entries@[j].id,
                                        resp.id,
                                    ) && old(self).entries@[j].state is Waiting;
                                lemma_id_eq_trans(
                                    old(self).entries@[j].id,
                                    old(self).entries@[i as int].id,
                                    resp.id,
                                );
                                lemma_id_eq_trans(
                                    old(self).entries@[i as int].id,
                                    old(self).entries@[j].id,
                                    resp.id,
                                );
                                assert(false);
                            }
                        }
                        false
                    },
                }
            },
            None => false,
        }
    }

    /// Collect the response stored for the given id, removing the entry.
    /// A response comes back exactly when one has arrived for the id: the
    /// caller cannot be left waiting once its slot was fired. The returned
    /// response always carries an id matching the one asked for, and the id
    /// is no longer tracked afterwards — from here on it may be reused.
    /// `None` means no response has arrived yet (or the id is unknown); the
    /// table is then unchanged.
    pub fn take_response(&mut self, id: &RequestId) -> (r: Option<JsonRpcResponse>)
        requires
            old(self).wf(),
        ensures
            final(self).wf(),
            r is Some <==> exists|i: int|
                0 <= i < old(self).entries@.len() && spec_id_eq(
                    #[trigger] old(self).entries@[i].id,
                    *id,
                ) && old(self).entries@[i].state is Fulfilled,
            match r {
                Some(resp) => {
                    &&& spec_id_eq(resp.id, *id)
                    &&& old(self).tracks(*id)
                    &&& !final(self).tracks(*id)
                    &&& exists|i: int|
                        {
                            &&& 0 <= i < old(self).entries@.len()
                            &&& spec_id_eq(#[trigger] old(self).entries@[i].id, *id)
                            &&& old(self).entries@[i].state == PendingState::Fulfilled(resp)
                            &&& final(self).entries@ == old(self).entries@.remove(i)
                        }
                },
                None => final(self).entries@ == old(self).entries@,
            },
    {
        match self.find(id) {
            Some(i) => {
                match &self.entries[i].state {
                    PendingState::Waiting => {
                        proof {
                            if exists|j: int|
                                0 <= j < old(self).entries@.len() && spec_id_eq(
                                    #[trigger] old(self).entries@[j].id,
                                    *id,
                                ) && old(self).entries@[j].state is Fulfilled {
                                let j = choose|j: int|
                                    0 <= j < old(self).entries@.len() && spec_id_eq(
                                        #[trigger] old(self).entries@[j].id,
                                        *id,
                                    ) && old(self).entries@[j].state is Fulfilled;
                                lemma_id_eq_trans(
                                    old(self).entries@[j].id,
                                    old(self).entries@[i as int].id,
                                    *id,
                                );
                                lemma_id_eq_trans(
                                    old(self).entries@[i as int].id,
                                    old(self).entries@[j].id,
                                    *id,
                                );
                                assert(false);
                            }
                        }
                        None
                    },
                    PendingState::Fulfilled(_) => {
                        proof {
                            assert(spec_id_eq(old(self).entries@[i as int].id, *id)
                                && old(self).entries@[i as int].state is Fulfilled);
                        }
                        let entry = self.entries.remove(i);
                        proof {
                            assert forall|j: int|
                                0 <= j < self.entries@.len() implies !spec_id_eq(
                                self.entries@[j].id,
                                *id,
                            ) by {
                                let oldj = if j < i as int {
                                    j
                                } else {
                                    j + 1
                                };
                                assert(self.entries@[j] == old(self).entries@[oldj]);
                                if spec_id_eq(old(self).entries@[oldj].id, *id) {
                                    lemma_id_eq_trans(
                                        old(self).entries@[oldj].id,
                                        old(self).entries@[i as int].id,
                                        *id,
                                    );
                                    lemma_id_eq_trans(
                                        old(self).entries@[i as int].id,
                                        old(self).entries@[oldj].id,
                                        *id,
                                    );
                                }
                            }
                        }
                        match entry.state {
                            PendingState::Fulfilled(resp) => Some(resp),
                            PendingState::Waiting => {
                                proof {
                                    assert(false);
                                }
                                None
                            },
                        }
                    },
                }
            },
            None => None,
        }
    }

    /// Drop the entry for the given id, whatever its state: the cleanup a
    /// caller performs when its wait times out. Afterwards the id is no
    /// longer tracked; a late response for it will be dropped as an unknown
    /// correlation.
    pub fn abandon(&mut self, id: &RequestId) -> (was_tracked: bool)
        requires
            old(self).wf(),
        ensures
            final(self).wf(),
            was_tracked == old(self).tracks(*id),
            !final(self).tracks(*id),
            was_tracked ==> exists|i: int|
                {
                    &&& 0 <= i < old(self).entries@.len()
                    &&& spec_id_eq(#[trigger] old(self).entries@[i].id, *id)
                    &&& final(self).entries@ == old(self).entries@.remove(i)
                },
            !was_tracked ==> final(self).entries@ == old(self).entries@,
    {
        match self.find(id) {
            Some(i) => {
                self.entries.remove(i);
                proof {
                    assert forall|j: int|
                        0 <= j < self.entries@.len() implies !spec_id_eq(
                        self.entries@[j].id,
                        *id,
                    ) by {
                        let oldj = if j < i as int {
                            j
                        } else {
                            j + 1
                        };
                        assert(self.entries@[j] == old(self).entries@[oldj]);
                        if spec_id_eq(old(self).entries@[oldj].id, *id) {
                            lemma_id_eq_trans(
                                old(self).entries@[oldj].id,
                                old(self).entries@[i as int].id,
                                *id,
                            );
                            lemma_id_eq_trans(
                                old(self).entries@[i as int].id,
                                old(self).entries@[oldj].id,
                                *id,
                            );
                        }
                    }
                }
                true
            },
            None => false,
        }
    }

    /// Close the connection's table: every entry is destroyed and its id
    /// returned, so each still-waiting caller can be failed with a
    /// connection-closed error rather than left dangling.
    pub fn close(&mut self) -> (ids: Vec<RequestId>)
        requires
            old(self).wf(),
        ensures
            final(self).wf(),
            final(self).entries@.len() == 0,
            ids@.len() == old(self).entries@.len(),
            forall|i: int| 0 <= i < ids@.len() ==> ids@[i] == old(self).entries@[i].id,
    {
        let mut ids: Vec<RequestId> = Vec::new();
        let mut k: usize = 0;
        while k < self.entries.len()
            invariant
                k <= self.entries@.len(),
                self.entries@ == old(self).entries@,
                ids@.len() == k,
                forall|i: int| 0 <= i < k ==> ids@[i] == old(self).entries@[i].id,
            decreases self.entries@.len() - k,
        {
            ids.push(self.entries[k].id.clone());
            k = k + 1;
        }
        self.entries = Vec::new();
        ids
    }
}

/// A response that matches one id can never be delivered for a different id:
/// two callers whose requests are both in flight always receive their own
/// responses, whatever order the responses arrived in.
pub proof fn lemma_no_cross_delivery(resp: JsonRpcResponse, id1: RequestId, id2: RequestId)
    requires
        spec_id_eq(resp.id, id1),
        !spec_id_eq(id1, id2),
    ensures
        !spec_id_eq(resp.id, id2),
{
}

} // verus!
