//! The tracked-process set — the injector's authoritative record of
//! which processes currently host the companion module — and the
//! one-way snapshot channel over which every mutation of that set is
//! mirrored to the shutdown coordinator.
//!
//! The set is owned by the discovery and lifecycle components; the
//! coordinator never shares it. Instead, each mutation pushes a full,
//! independently-owned copy into the channel, and the coordinator drains
//! the channel to the most recent copy before acting.

use vstd::prelude::*;
use vstd::seq_lib::*;

verus! {

/// Set of process identifiers currently believed to host the companion
/// module. Backed by a duplicate-free vector so it can be walked in a
/// stable order.
pub struct TrackedProcessSet {
    pids: Vec<u32>,
}

impl View for TrackedProcessSet {
    type V = Set<u32>;

    closed spec fn view(&self) -> Set<u32> {
        self.pids@.to_set()
    }
}

impl TrackedProcessSet {
    /// The identifiers in insertion order.
    pub closed spec fn seq_view(self) -> Seq<u32> {
        self.pids@
    }

    /// No identifier is recorded twice.
    pub closed spec fn wf(self) -> bool {
        self.pids@.no_duplicates()
    }

    /// Membership in the set is membership in the backing order.
    pub proof fn lemma_membership(self)
        ensures
            forall|pid: u32| self@.contains(pid) <==> self.seq_view().contains(pid),
    {
    }

    pub fn new() -> (s: TrackedProcessSet)
        ensures
            s.wf(),
            s@ =~= Set::<u32>::empty(),
            s.seq_view() == Seq::<u32>::empty(),
    {
        TrackedProcessSet { pids: Vec::new() }
    }

    pub fn contains(&self, pid: u32) -> (present: bool)
        ensures
            present == self@.contains(pid),
    {
        let n = self.pids.len();
        let mut i: usize = 0;
        while i < n
            invariant
                n == self.pids.len(),
                0 <= i <= n,
                forall|k: int| 0 <= k < i ==> self.pids@[k] != pid,
            decreases n - i,
        {
            if self.pids[i] == pid {
                return true;
            }
            i += 1;
        }
        false
    }

    /// Record a process; present identifiers are left alone, so the set
    /// stays duplicate-free.
    pub fn insert(&mut self, pid: u32)
        requires
            old(self).wf(),
        ensures
            final(self).wf(),
            final(self)@ == old(self)@.insert(pid),
            final(self).seq_view() == if old(self)@.contains(pid) {
                old(self).seq_view()
            } else {
                old(self).seq_view().push(pid)
            },
    {
        if !self.contains(pid) {
            let ghost s = self.pids@;
            self.pids.push(pid);
            proof {
                assert forall|x: u32| s.push(pid).contains(x) implies s.contains(x) || x == pid by {
                    let j = choose|j: int|
                        0 <= j < s.push(pid).len() && s.push(pid)[j] == x;
                    if j < s.len() {
                        assert(s[j] == x);
                    }
                }
                assert forall|x: u32| s.contains(x) || x == pid implies s.push(pid).contains(
                    x,
                ) by {
                    if s.contains(x) {
                        let j = choose|j: int| 0 <= j < s.len() && s[j] == x;
                        assert(s.push(pid)[j] == x);
                    } else {
                        assert(s.push(pid)[s.len() as int] == x);
                    }
                }
                assert(self@ =~= old(self)@.insert(pid));
            }
        } else {
            proof {
                assert(self@ =~= old(self)@.insert(pid));
            }
        }
    }

    /// Forget a process; absent identifiers are tolerated silently.
    /// The remaining identifiers keep their order.
    pub fn remove(&mut self, pid: u32)
        requires
            old(self).wf(),
        ensures
            final(self).wf(),
            final(self)@ == old(self)@.remove(pid),
            final(self).seq_view() == old(self).seq_view().remove_value(pid),
    {
        let n = self.pids.len();
        let mut i: usize = 0;
        while i < n
            invariant
                n == self.pids.len(),
                0 <= i <= n,
                old(self) == self,
                old(self).wf(),
                forall|k: int| 0 <= k < i ==> self.pids@[k] != pid,
            decreases n - i,
        {
            if self.pids[i] == pid {
                let ghost s = self.pids@;
                let ghost idx = i as int;
                self.pids.remove(i);
                proof {
                    let t = s.remove(idx);
                    s.remove_ensures(idx);
                    // The loop stopped at the first occurrence, which is
                    // the one `remove_value` takes out.
                    s.index_of_first_ensures(pid);
                    assert(s.index_of_first(pid) == Some(idx));
                    assert forall|x: u32| t.contains(x) implies s.contains(x) && x != pid by {
                        let j = choose|j: int| 0 <= j < t.len() && t[j] == x;
                        if j < idx {
                            assert(s[j] == x);
                        } else {
                            assert(s[j + 1] == x);
                        }
                        // The removed index held the only copy of `pid`.
                        if j < idx {
                            assert(s[j] != s[idx]);
                        } else {
                            assert(s[j + 1] != s[idx]);
                        }
                    }
                    assert forall|x: u32| s.contains(x) && x != pid implies t.contains(x) by {
                        let j = choose|j: int| 0 <= j < s.len() && s[j] == x;
                        if j < idx {
                            assert(t[j] == x);
                        } else {
                            assert(j != idx);
                            assert(t[j - 1] == x);
                        }
                    }
                    assert(self@ =~= old(self)@.remove(pid));
                }
                return;
            }
            i += 1;
        }
        proof {
            assert(!self.pids@.contains(pid));
            assert(self@ =~= old(self)@.remove(pid));
            self.pids@.index_of_first_ensures(pid);
        }
    }

    /// How many processes are tracked.
    pub fn len(&self) -> (n: usize)
        requires
            self.wf(),
        ensures
            n == self@.len(),
            n == self.seq_view().len(),
    {
        proof {
            self.pids@.unique_seq_to_set();
        }
        self.pids.len()
    }

    /// The identifiers, for walking the set one process at a time.
    pub fn as_pids(&self) -> (pids: &Vec<u32>)
        ensures
            pids@ == self.seq_view(),
            forall|pid: u32| self@.contains(pid) <==> pids@.contains(pid),
    {
        &self.pids
    }
}

impl TrackedProcessSet {
    /// A snapshot: a full, independently-owned copy of the set.
    pub fn snapshot(&self) -> (snapshot: TrackedProcessSet)
        ensures
            snapshot@ == self@,
            snapshot.seq_view() == self.seq_view(),
            snapshot.wf() == self.wf(),
    {
        let copy = TrackedProcessSet { pids: self.pids.clone() };
        proof {
            assert(copy.pids@ =~= self.pids@);
        }
        copy
    }
}

/// One-way channel carrying full-set snapshots from the lifecycle side
/// to the shutdown coordinator, oldest first. The coordinator reads an
/// eventually-consistent but internally-complete copy without ever
/// blocking the producer.
pub struct SnapshotChannel {
    queue: Vec<TrackedProcessSet>,
}

impl View for SnapshotChannel {
    type V = Seq<Set<u32>>;

    closed spec fn view(&self) -> Seq<Set<u32>> {
        self.queue@.map_values(|s: TrackedProcessSet| s@)
    }
}

impl SnapshotChannel {
    /// Every queued snapshot is itself well-formed.
    pub closed spec fn wf(self) -> bool {
        forall|i: int| 0 <= i < self.queue@.len() ==> (#[trigger] self.queue@[i]).wf()
    }

    pub fn new() -> (c: SnapshotChannel)
        ensures
            c.wf(),
            c@ == Seq::<Set<u32>>::empty(),
    {
        let c = SnapshotChannel { queue: Vec::new() };
        proof {
            assert(c@ =~= Seq::<Set<u32>>::empty());
        }
        c
    }

    /// Push one snapshot; nothing already queued moves.
    pub fn send(&mut self, snapshot: TrackedProcessSet)
        requires
            old(self).wf(),
            snapshot.wf(),
        ensures
            final(self).wf(),
            final(self)@ == old(self)@.push(snapshot@),
    {
        self.queue.push(snapshot);
        proof {
            assert(self@ =~= old(self)@.push(snapshot@));
        }
    }

    /// Drain the channel to the most recently sent snapshot, the way the
    /// coordinator reads it: every older snapshot is discarded unseen.
    pub fn drain_to_latest(&mut self) -> (latest: Option<TrackedProcessSet>)
        requires
            old(self).wf(),
        ensures
            final(self).wf(),
            final(self)@ == Seq::<Set<u32>>::empty(),
            old(self)@.len() == 0 ==> latest is None,
            old(self)@.len() > 0 ==> (latest matches Some(s) && s.wf() && s@ == old(
                self,
            )@.last()),
    {
        let latest = self.queue.pop();
        self.queue.clear();
        proof {
            assert(self@ =~= Seq::<Set<u32>>::empty());
        }
        latest
    }
}

} // verus!
