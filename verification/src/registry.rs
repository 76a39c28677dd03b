//! The server's registry of live peer connections, and the broadcast step.
//!
//! Each accepted connection gets a fresh id and is tracked until it
//! disconnects. Broadcasting offers a notification to every registered
//! peer; a peer whose send fails is removed and the rest still receive the
//! notification — one bad peer never blocks delivery to the others.
//! Removal is idempotent: whichever of two concurrent paths removes a peer
//! first wins, and the second finds nothing left to remove.

use vstd::prelude::*;

verus! {

/// How many of the given send outcomes succeeded.
pub open spec fn count_delivered(results: Seq<bool>) -> int
    decreases results.len(),
{
    if results.len() == 0 {
        0
    } else {
        count_delivered(results.drop_last()) + if results.last() {
            1int
        } else {
            0int
        }
    }
}

/// The peers that received a broadcast: those whose send succeeded, in
/// their original order.
pub open spec fn delivered_peers(peers: Seq<u64>, results: Seq<bool>) -> Seq<u64>
    recommends
        peers.len() == results.len(),
    decreases peers.len(),
{
    if peers.len() == 0 {
        Seq::empty()
    } else {
        let rest = delivered_peers(peers.drop_last(), results.drop_last());
        if results.last() {
            rest.push(peers.last())
        } else {
            rest
        }
    }
}

/// The registry of live peer connections, in accept order.
#[derive(Debug)]
pub struct PeerRegistry {
    /// Ids of the live peers, oldest first.
    pub peers: Vec<u64>,
    /// The id the next accepted peer will get.
    pub next_id: u64,
}

impl PeerRegistry {
    /// Well-formedness: every registered id was handed out earlier than the
    /// next one, and no id is registered twice.
    pub open spec fn wf(self) -> bool {
        &&& forall|i: int| 0 <= i < self.peers@.len() ==> #[trigger] self.peers@[i] < self.next_id
        &&& forall|i: int, j: int|
            0 <= i < j < self.peers@.len() ==> (#[trigger] self.peers@[i]) != (
            #[trigger] self.peers@[j])
    }

    /// Whether a peer with the given id is registered.
    pub open spec fn has_peer(self, id: u64) -> bool {
        self.peers@.contains(id)
    }

    /// An empty registry.
    pub fn new() -> (r: Self)
        ensures
            r.wf(),
            r.peers@.len() == 0,
            r.next_id == 0,
    {
        PeerRegistry { peers: Vec::new(), next_id: 0 }
    }

    /// How many peers are registered.
    pub fn len(&self) -> (n: usize)
        ensures
            n == self.peers@.len(),
    {
        self.peers.len()
    }

    /// Whether fresh ids are still available.
    pub fn can_accept(&self) -> (r: bool)
        ensures
            r == (self.next_id < u64::MAX),
    {
        self.next_id < u64::MAX
    }

    /// Register a newly accepted connection under a fresh id, which no
    /// current or former peer shares.
    pub fn accept(&mut self) -> (id: u64)
        requires
            old(self).wf(),
            old(self).next_id < u64::MAX,
        ensures
            final(self).wf(),
            id == old(self).next_id,
            final(self).next_id == old(self).next_id + 1,
            final(self).peers@ == old(self).peers@.push(id),
            final(self).has_peer(id),
    {
        let id = self.next_id;
        self.next_id = self.next_id + 1;
        self.peers.push(id);
        proof {
            assert(self.peers@[self.peers@.len() - 1] == id);
        }
        id
    }

    /// Whether the peer with the given id is registered.
    pub fn contains(&self, id: u64) -> (r: bool)
        ensures
            r == self.has_peer(id),
    {
        let mut i: usize = 0;
        while i < self.peers.len()
            invariant
                i <= self.peers@.len(),
                forall|j: int| 0 <= j < i ==> self.peers@[j] != id,
            decreases self.peers@.len() - i,
        {
            if self.peers[i] == id {
                proof {
                    assert(self.peers@[i as int] == id);
                }
                return true;
            }
            i = i + 1;
        }
        false
    }

    /// A snapshot of the registered ids, in accept order: the targets of
    /// one broadcast.
    pub fn peer_ids(&self) -> (r: Vec<u64>)
        ensures
            r@ == self.peers@,
    {
        let mut out: Vec<u64> = Vec::new();
        let mut i: usize = 0;
        while i < self.peers.len()
            invariant
                i <= self.peers@.len(),
                out@ == self.peers@.subrange(0, i as int),
            decreases self.peers@.len() - i,
        {
            out.push(self.peers[i]);
            proof {
                assert(out@ =~= self.peers@.subrange(0, i + 1));
            }
            i = i + 1;
        }
        proof {
            assert(out@ =~= self.peers@);
        }
        out
    }

    /// Drop the peer with the given id; says whether it was registered.
    /// Removing it twice finds nothing the second time — whichever path
    /// removes a disconnecting peer first wins.
    pub fn remove_peer(&mut self, id: u64) -> (was: bool)
        requires
            old(self).wf(),
        ensures
            final(self).wf(),
            was == old(self).has_peer(id),
            !final(self).has_peer(id),
            was ==> exists|i: int|
                0 <= i < old(self).peers@.len() && final(self).peers@ == old(
                    self,
                ).peers@.remove(i),
            !was ==> final(self).peers@ == old(self).peers@,
            final(self).next_id == old(self).next_id,
            forall|p: u64| p != id ==> final(self).has_peer(p) == old(self).has_peer(p),
    {
        let mut i: usize = 0;
        while i < self.peers.len()
            invariant
                old(self).wf(),
                self.peers@ == old(self).peers@,
                self.next_id == old(self).next_id,
                i <= self.peers@.len(),
                forall|j: int| 0 <= j < i ==> self.peers@[j] != id,
            decreases self.peers@.len() - i,
        {
            if self.peers[i] == id {
                proof {
                    assert(self.peers@[i as int] == id);
                }
                self.peers.remove(i);
                proof {
                    assert(self.peers@ == old(self).peers@.remove(i as int));
                    assert(self.peers@.len() == old(self).peers@.len() - 1);
                    assert(forall|index: int| 0 <= index < i ==> #[trigger] self.peers@[index] == old(self).peers@[index]);
                    assert(forall|index: int| i <= index < old(self).peers@.len() - 1 ==> #[trigger] self.peers@[index] == old(self).peers@[index + 1]);
                    assert forall|a: int, b: int|
                        0 <= a < b < self.peers@.len() implies self.peers@[a] != self.peers@[b] by {
                        if b < i as int {
                            assert(old(self).peers@[a] != old(self).peers@[b]);
                            assert(self.peers@[a] == old(self).peers@[a]);
                            assert(self.peers@[b] == old(self).peers@[b]);
                        } else if a < i as int {
                            assert(old(self).peers@[a] != old(self).peers@[b + 1]);
                            assert(self.peers@[a] == old(self).peers@[a]);
                            assert(self.peers@[b] == old(self).peers@[b + 1]);
                        } else {
                            assert(old(self).peers@[a + 1] != old(self).peers@[b + 1]);
                            assert(self.peers@[a] == old(self).peers@[a + 1]);
                            assert(self.peers@[b] == old(self).peers@[b + 1]);
                        }
                    }
                }
                proof {
                    assert forall|p: u64| p != id implies self.has_peer(p) == old(
                        self,
                    ).has_peer(p) by {
                        if old(self).peers@.contains(p) && p != id {
                            let k = choose|k: int|
                                0 <= k < old(self).peers@.len() && old(self).peers@[k] == p;
                            if k < i as int {
                                assert(self.peers@[k] == p);
                            } else {
                                assert(old(self).peers@[k] != id);
                                assert(k != i as int);
                                assert(self.peers@[k - 1] == p);
                            }
                        }
                    }
                    assert forall|j: int|
                        0 <= j < self.peers@.len() implies #[trigger] self.peers@[j] != id by {
                        if j >= i as int {
                            assert(self.peers@[j] == old(self).peers@[j + 1]);
                        }
                    }
                }
                return true;
            }
            i = i + 1;
        }
        false
    }

    /// Record the outcome of one broadcast: entry `i` of `results` says
    /// whether the send to the `i`-th registered peer succeeded. Exactly
    /// the peers whose send failed are removed — they are treated as
    /// silently disconnected — and the number of peers that received the
    /// notification is returned.
    pub fn apply_broadcast_results(&mut self, results: &Vec<bool>) -> (delivered: usize)
        requires
            old(self).wf(),
            results@.len() == old(self).peers@.len(),
        ensures
            final(self).wf(),
            delivered == count_delivered(results@),
            delivered == final(self).peers@.len(),
            final(self).peers@ == delivered_peers(old(self).peers@, results@),
            forall|i: int|
                0 <= i < old(self).peers@.len() ==> (final(self).has_peer(
                    #[trigger] old(self).peers@[i],
                ) <==> results@[i]),
            forall|p: u64| final(self).has_peer(p) ==> old(self).has_peer(p),
            final(self).next_id == old(self).next_id,
    {
        let mut kept: Vec<u64> = Vec::new();
        let mut i: usize = 0;
        while i < self.peers.len()
            invariant
                old(self).wf(),
                i <= self.peers@.len(),
                results@.len() == self.peers@.len(),
                self.peers@ == old(self).peers@,
                self.next_id == old(self).next_id,
                kept@.len() == count_delivered(results@.subrange(0, i as int)),
                kept@ == delivered_peers(
                    self.peers@.subrange(0, i as int),
                    results@.subrange(0, i as int),
                ),
                forall|j: int|
                    0 <= j < i && results@[j] ==> kept@.contains(#[trigger] self.peers@[j]),
                forall|j: int|
                    0 <= j < i && !results@[j] ==> !kept@.contains(#[trigger] self.peers@[j]),
                forall|j: int|
                    i <= j < self.peers@.len() ==> !kept@.contains(#[trigger] self.peers@[j]),
                forall|k: int|
                    0 <= k < kept@.len() ==> self.peers@.contains(#[trigger] kept@[k]),
                forall|k1: int, k2: int| 0 <= k1 < k2 < kept@.len() ==> kept@[k1] != kept@[k2],
            decreases self.peers@.len() - i,
        {
            let ghost kept0 = kept@;
            proof {
                assert(results@.subrange(0, i + 1).drop_last() =~= results@.subrange(0, i as int));
                assert(self.peers@.subrange(0, i + 1).drop_last() =~= self.peers@.subrange(
                    0,
                    i as int,
                ));
                assert(results@.subrange(0, i + 1).last() == results@[i as int]);
                assert(self.peers@.subrange(0, i + 1).last() == self.peers@[i as int]);
            }
            if results[i] {
                kept.push(self.peers[i]);
                proof {
                    assert(kept@ == kept0.push(self.peers@[i as int]));
                    assert(kept@[kept@.len() - 1] == self.peers@[i as int]);
                    assert(self.peers@.contains(self.peers@[i as int]));
                    assert forall|j: int|
                        0 <= j < i + 1 && results@[j] implies kept@.contains(
                        #[trigger] self.peers@[j],
                    ) by {
                        if j == i as int {
                            assert(kept@[kept@.len() - 1] == self.peers@[j]);
                        } else {
                            let k = choose|k: int|
                                0 <= k < kept0.len() && kept0[k] == self.peers@[j];
                            assert(kept@[k] == self.peers@[j]);
                        }
                    }
                    assert forall|j: int|
                        0 <= j < i + 1 && !results@[j] implies !kept@.contains(
                        #[trigger] self.peers@[j],
                    ) by {
                        assert(self.peers@[j] != self.peers@[i as int]);
                        if kept@.contains(self.peers@[j]) {
                            let k = choose|k: int|
                                0 <= k < kept@.len() && kept@[k] == self.peers@[j];
                            assert(k < kept@.len() - 1);
                            assert(kept0[k] == self.peers@[j]);
                            assert(kept0.contains(self.peers@[j]));
                        }
                    }
                    assert forall|j: int|
                        i + 1 <= j < self.peers@.len() implies !kept@.contains(
                        #[trigger] self.peers@[j],
                    ) by {
                        assert(self.peers@[j] != self.peers@[i as int]);
                        if kept@.contains(self.peers@[j]) {
                            let k = choose|k: int|
                                0 <= k < kept@.len() && kept@[k] == self.peers@[j];
                            assert(k < kept@.len() - 1);
                            assert(kept0[k] == self.peers@[j]);
                            assert(kept0.contains(self.peers@[j]));
                        }
                    }
                    assert forall|k: int|
                        0 <= k < kept@.len() implies self.peers@.contains(
                        #[trigger] kept@[k],
                    ) by {
                        if k < kept@.len() - 1 {
                            assert(kept@[k] == kept0[k]);
                            assert(self.peers@.contains(kept0[k]));
                        }
                    }
                    assert forall|k1: int, k2: int|
                        0 <= k1 < k2 < kept@.len() implies kept@[k1] != kept@[k2] by {
                        if k2 == kept@.len() - 1 {
                            assert(kept@[k1] == kept0[k1]);
                            assert(kept0.contains(kept0[k1]));
                            assert(!kept0.contains(self.peers@[i as int]));
                        } else {
                            assert(kept@[k1] == kept0[k1]);
                            assert(kept@[k2] == kept0[k2]);
                        }
                    }
                }
            }
            i = i + 1;
        }
        proof {
            assert(results@.subrange(0, results@.len() as int) =~= results@);
            assert(self.peers@.subrange(0, self.peers@.len() as int) =~= self.peers@);
        }
        let delivered = kept.len();
        let ghost keptv = kept@;
        self.peers = kept;
        proof {
            assert forall|p: u64| self.has_peer(p) implies old(self).has_peer(p) by {
                let k = choose|k: int| 0 <= k < keptv.len() && keptv[k] == p;
                assert(old(self).peers@.contains(keptv[k]));
            }
            assert forall|a: int| 0 <= a < self.peers@.len() implies #[trigger] self.peers@[a]
                < self.next_id by {
                assert(old(self).peers@.contains(keptv[a]));
                let w = choose|w: int|
                    0 <= w < old(self).peers@.len() && old(self).peers@[w] == keptv[a];
                assert(old(self).peers@[w] < old(self).next_id);
            }
        }
        delivered
    }
}

} // verus!
