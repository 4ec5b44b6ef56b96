//! The process lifecycle monitor: it consumes process image-load and
//! image-unload events from the OS trace, filters them down to the
//! configured target process names, and keeps the hooked-process set
//! consistent — adding a process once its injection succeeded, removing
//! it when its termination event arrives — while mirroring every
//! mutation to the shutdown coordinator as a full-set snapshot.
//!
//! The event fields arrive here already parsed into plain values; a
//! field the parser could not produce comes in as `None` and the event
//! is ignored, as are events for processes outside the configured list.

use vstd::prelude::*;

use crate::paths::spec_file_name;
use crate::paths::file_name_of;
use crate::process_set::SnapshotChannel;
use crate::process_set::TrackedProcessSet;

verus! {

/// Event identifier of a process image-load record in the subscribed
/// provider.
pub const IMAGE_LOAD_EVENT: u16 = 5;

/// Event identifier of a process image-unload record.
pub const IMAGE_UNLOAD_EVENT: u16 = 6;

/// What the lifecycle callback decides to do with one event.
#[derive(Debug)]
pub enum CallbackAction {
    /// The event is incomplete, for a foreign process, or of no
    /// interesting kind: nothing happens.
    Ignore,
    /// A target process appeared: neutralize its anti-tamper logic
    /// (debug-attach, wait, detach — an attach failure is tolerated),
    /// then inject the companion module, and record the process on
    /// success.
    HandleCreation { pid: u32, name: String },
    /// A hooked target process went away: forget it and mirror the
    /// shrunken set.
    HandleTermination { pid: u32, name: String },
}

/// Spec-level image of a [`CallbackAction`].
pub enum ClassifiedEvent {
    Ignore,
    Creation(u32, Seq<char>),
    Termination(u32, Seq<char>),
}

/// Whether a file name is one of the configured target process names.
pub open spec fn name_matches(processes: Seq<Seq<char>>, name: Seq<char>) -> bool {
    exists|i: int| 0 <= i < processes.len() && processes[i] == name
}

pub open spec fn opt_str_view(s: Option<&str>) -> Option<Seq<char>> {
    match s {
        Some(s) => Some(s@),
        None => None,
    }
}

/// The filter the callback applies to one event: both fields must have
/// parsed, the image path must carry a file name, that name must be
/// configured, and only load and unload events mean anything.
pub open spec fn spec_classify(
    processes: Seq<Seq<char>>,
    event_id: u16,
    pid: Option<u32>,
    image: Option<Seq<char>>,
) -> ClassifiedEvent {
    match (pid, image) {
        (Some(p), Some(img)) => match spec_file_name(img) {
            Some(name) => if !name_matches(processes, name) {
                ClassifiedEvent::Ignore
            } else if event_id == IMAGE_UNLOAD_EVENT {
                ClassifiedEvent::Termination(p, name)
            } else if event_id == IMAGE_LOAD_EVENT {
                ClassifiedEvent::Creation(p, name)
            } else {
                ClassifiedEvent::Ignore
            },
            None => ClassifiedEvent::Ignore,
        },
        _ => ClassifiedEvent::Ignore,
    }
}

/// The spec-level image of an exec action.
pub open spec fn action_view(a: CallbackAction) -> ClassifiedEvent {
    match a {
        CallbackAction::Ignore => ClassifiedEvent::Ignore,
        CallbackAction::HandleCreation { pid, name } => ClassifiedEvent::Creation(pid, name@),
        CallbackAction::HandleTermination { pid, name } => ClassifiedEvent::Termination(
            pid,
            name@,
        ),
    }
}

fn contains_name(processes: &Vec<String>, name: &String) -> (present: bool)
    ensures
        present == name_matches(processes.deep_view(), name@),
{
    let n = processes.len();
    let mut i: usize = 0;
    while i < n
        invariant
            n == processes.len(),
            0 <= i <= n,
            forall|k: int| 0 <= k < i ==> processes.deep_view()[k] != name@,
        decreases n - i,
    {
        if processes[i] == *name {
            proof {
                assert(processes.deep_view()[i as int] == name@);
            }
            return true;
        }
        i += 1;
    }
    false
}

/// Classifies one trace event exactly as [`spec_classify`] reads it.
pub fn classify_event(
    processes: &Vec<String>,
    event_id: u16,
    pid: Option<u32>,
    image_name: Option<&str>,
) -> (action: CallbackAction)
    ensures
        action_view(action) == spec_classify(
            processes.deep_view(),
            event_id,
            pid,
            opt_str_view(image_name),
        ),
{
    let (p, img) = match (pid, image_name) {
        (Some(p), Some(img)) => (p, img),
        _ => {
            return CallbackAction::Ignore;
        },
    };
    let name = match file_name_of(img) {
        Some(name) => name,
        None => {
            return CallbackAction::Ignore;
        },
    };
    if !contains_name(processes, &name) {
        return CallbackAction::Ignore;
    }
    if event_id == IMAGE_UNLOAD_EVENT {
        CallbackAction::HandleTermination { pid: p, name }
    } else if event_id == IMAGE_LOAD_EVENT {
        CallbackAction::HandleCreation { pid: p, name }
    } else {
        CallbackAction::Ignore
    }
}

/// The lifecycle monitor's mutable half: the authoritative hooked set
/// and the producer side of the snapshot channel. Every mutation is
/// immediately mirrored, so the channel's newest snapshot always equals
/// the current set.
pub struct LifecycleMonitor {
    hooked: TrackedProcessSet,
    channel: SnapshotChannel,
}

impl LifecycleMonitor {
    pub closed spec fn hooked_set(self) -> Set<u32> {
        self.hooked@
    }

    pub closed spec fn snapshots(self) -> Seq<Set<u32>> {
        self.channel@
    }

    /// The monitor's invariant: both halves well-formed, at least the
    /// seeding snapshot sent, and the newest snapshot current.
    pub closed spec fn wf(self) -> bool {
        &&& self.hooked.wf()
        &&& self.channel.wf()
        &&& self.channel@.len() > 0
        &&& self.channel@.last() == self.hooked@
    }

    /// Starts monitoring with the set discovery seeded, mirroring it at
    /// once so the coordinator never reads an empty channel.
    pub fn new(initial: TrackedProcessSet) -> (m: LifecycleMonitor)
        requires
            initial.wf(),
        ensures
            m.wf(),
            m.hooked_set() == initial@,
            m.snapshots() == seq![initial@],
    {
        let snapshot = initial.snapshot();
        let mut channel = SnapshotChannel::new();
        channel.send(snapshot);
        let m = LifecycleMonitor { hooked: initial, channel };
        proof {
            assert(m.snapshots() =~= seq![initial@]);
        }
        m
    }

    /// A target process was injected successfully: track it and mirror
    /// the grown set. The snapshot handed back is the mirrored copy,
    /// for the wire that carries it to the coordinator.
    pub fn record_injection(&mut self, pid: u32) -> (snapshot: TrackedProcessSet)
        requires
            old(self).wf(),
        ensures
            final(self).wf(),
            final(self).hooked_set() == old(self).hooked_set().insert(pid),
            final(self).snapshots() == old(self).snapshots().push(final(self).hooked_set()),
            snapshot.wf(),
            snapshot@ == final(self).hooked_set(),
    {
        self.hooked.insert(pid);
        let snapshot = self.hooked.snapshot();
        let mirrored = snapshot.snapshot();
        self.channel.send(mirrored);
        snapshot
    }

    /// A hooked process terminated: forget it and mirror the shrunken
    /// set. Termination of an untracked process is tolerated silently.
    /// The snapshot handed back is the mirrored copy, for the wire that
    /// carries it to the coordinator.
    pub fn record_termination(&mut self, pid: u32) -> (snapshot: TrackedProcessSet)
        requires
            old(self).wf(),
        ensures
            final(self).wf(),
            final(self).hooked_set() == old(self).hooked_set().remove(pid),
            final(self).snapshots() == old(self).snapshots().push(final(self).hooked_set()),
            snapshot.wf(),
            snapshot@ == final(self).hooked_set(),
    {
        self.hooked.remove(pid);
        let snapshot = self.hooked.snapshot();
        let mirrored = snapshot.snapshot();
        self.channel.send(mirrored);
        snapshot
    }

    /// One whole callback step, after the hosting process performed the
    /// event's outside work: a termination always shrinks the set; a
    /// creation grows it only when the injection succeeded — a failed
    /// injection leaves the process untracked, with no retry, for a
    /// later event or the next run's discovery to catch; anything else
    /// changes nothing. The snapshot handed back, when the set moved,
    /// is the mirrored copy for the wire to the coordinator.
    pub fn apply_callback_action(
        &mut self,
        action: &CallbackAction,
        injection_succeeded: bool,
    ) -> (snapshot: Option<TrackedProcessSet>)
        requires
            old(self).wf(),
        ensures
            final(self).wf(),
            (match *action {
                CallbackAction::Ignore => {
                    &&& final(self).hooked_set() == old(self).hooked_set()
                    &&& final(self).snapshots() == old(self).snapshots()
                    &&& snapshot is None
                },
                CallbackAction::HandleTermination { pid, .. } => {
                    &&& final(self).hooked_set() == old(self).hooked_set().remove(pid)
                    &&& final(self).snapshots() == old(self).snapshots().push(
                        final(self).hooked_set(),
                    )
                    &&& (snapshot matches Some(s) && s.wf() && s@ == final(self).hooked_set())
                },
                CallbackAction::HandleCreation { pid, .. } => if injection_succeeded {
                    &&& final(self).hooked_set() == old(self).hooked_set().insert(pid)
                    &&& final(self).snapshots() == old(self).snapshots().push(
                        final(self).hooked_set(),
                    )
                    &&& (snapshot matches Some(s) && s.wf() && s@ == final(self).hooked_set())
                } else {
                    &&& final(self).hooked_set() == old(self).hooked_set()
                    &&& final(self).snapshots() == old(self).snapshots()
                    &&& snapshot is None
                },
            }),
    {
        match action {
            CallbackAction::Ignore => None,
            CallbackAction::HandleTermination { pid, .. } => Some(self.record_termination(*pid)),
            CallbackAction::HandleCreation { pid, .. } => {
                if injection_succeeded {
                    Some(self.record_injection(*pid))
                } else {
                    None
                }
            },
        }
    }

    /// The coordinator's read at shutdown: drain the channel to the
    /// newest snapshot. It reflects every mutation recorded so far —
    /// exactly the current hooked set.
    pub fn drain_for_shutdown(&mut self) -> (latest: TrackedProcessSet)
        requires
            old(self).wf(),
        ensures
            latest.wf(),
            latest@ == old(self).hooked_set(),
            final(self).hooked_set() == old(self).hooked_set(),
            final(self).snapshots().len() == 0,
    {
        let drained = self.channel.drain_to_latest();
        match drained {
            Some(snapshot) => snapshot,
            None => {
                proof {
                    assert(false);
                }
                TrackedProcessSet::new()
            },
        }
    }
}

/// One mutation of the hooked set, as the lifecycle monitor issues
/// them.
pub enum TrackedMutation {
    Add(u32),
    Remove(u32),
}

pub open spec fn apply_mutation(s: Set<u32>, m: TrackedMutation) -> Set<u32> {
    match m {
        TrackedMutation::Add(pid) => s.insert(pid),
        TrackedMutation::Remove(pid) => s.remove(pid),
    }
}

/// The hooked set and the snapshot sequence after a run of mutations,
/// each mirrored as it happens.
pub open spec fn run_mutations(
    hooked: Set<u32>,
    snapshots: Seq<Set<u32>>,
    ms: Seq<TrackedMutation>,
) -> (Set<u32>, Seq<Set<u32>>)
    decreases ms.len(),
{
    if ms.len() == 0 {
        (hooked, snapshots)
    } else {
        let next = apply_mutation(hooked, ms[0]);
        run_mutations(next, snapshots.push(next), ms.drop_first())
    }
}

/// Snapshots are monotonically informative: however many additions and
/// removals the monitor issues after a state whose newest snapshot is
/// current, one snapshot is sent per mutation and the newest snapshot
/// still reflects every mutation issued — no update is ever lost to the
/// coordinator.
pub proof fn lemma_snapshots_monotonically_informative(
    hooked: Set<u32>,
    snapshots: Seq<Set<u32>>,
    ms: Seq<TrackedMutation>,
)
    requires
        snapshots.len() > 0,
        snapshots.last() == hooked,
    ensures
        run_mutations(hooked, snapshots, ms).1.len() == snapshots.len() + ms.len(),
        run_mutations(hooked, snapshots, ms).1.last() == run_mutations(
            hooked,
            snapshots,
            ms,
        ).0,
    decreases ms.len(),
{
    if ms.len() > 0 {
        let next = apply_mutation(hooked, ms[0]);
        lemma_snapshots_monotonically_informative(next, snapshots.push(next), ms.drop_first());
    }
}

} // verus!
