//! Startup process discovery: of the processes found running under the
//! configured target names, each is injected at most once — set
//! semantics on process identity, not on name — and a process whose
//! identifier cannot be resolved is skipped without aborting the rest.
//!
//! Enumeration itself is the operating system's; its findings arrive as
//! plain values, one entry per enumerated process, `None` where the
//! identifier could not be resolved.

use vstd::prelude::*;

use crate::process_set::TrackedProcessSet;

verus! {

/// The resolvable identifiers in enumeration order, each kept at its
/// first occurrence.
pub open spec fn dedup_resolved(candidates: Seq<Option<u32>>) -> Seq<u32>
    decreases candidates.len(),
{
    if candidates.len() == 0 {
        Seq::empty()
    } else {
        let prefix = dedup_resolved(candidates.drop_last());
        match candidates.last() {
            None => prefix,
            Some(pid) => if prefix.contains(pid) {
                prefix
            } else {
                prefix.push(pid)
            },
        }
    }
}

/// Deduplicates the enumeration's findings into the set of processes to
/// inject: exactly the resolvable identifiers, each once, in the order
/// they were first found.
pub fn injection_plan(candidates: &Vec<Option<u32>>) -> (plan: TrackedProcessSet)
    ensures
        plan.wf(),
        plan.seq_view() == dedup_resolved(candidates@),
        forall|x: u32| plan@.contains(x) <==> candidates@.contains(Some(x)),
{
    let n = candidates.len();
    let mut plan = TrackedProcessSet::new();
    let mut i: usize = 0;
    while i < n
        invariant
            n == candidates.len(),
            0 <= i <= n,
            plan.wf(),
            plan.seq_view() == dedup_resolved(candidates@.subrange(0, i as int)),
            forall|x: u32|
                plan@.contains(x) <==> exists|j: int|
                    0 <= j < i && candidates@[j] == Some(x),
        decreases n - i,
    {
        proof {
            plan.lemma_membership();
            assert(candidates@.subrange(0, i + 1).drop_last() =~= candidates@.subrange(
                0,
                i as int,
            ));
            assert(candidates@.subrange(0, i + 1).last() == candidates@[i as int]);
        }
        if let Some(pid) = candidates[i] {
            plan.insert(pid);
        }
        proof {
            assert forall|x: u32| plan@.contains(x) implies exists|j: int|
                0 <= j < i + 1 && candidates@[j] == Some(x) by {
                if candidates@[i as int] != Some(x) {
                    let j = choose|j: int| 0 <= j < i && candidates@[j] == Some(x);
                    assert(0 <= j < i + 1 && candidates@[j] == Some(x));
                }
            }
        }
        i += 1;
    }
    proof {
        assert(candidates@.subrange(0, n as int) =~= candidates@);
        assert forall|x: u32| candidates@.contains(Some(x)) implies plan@.contains(x) by {
            let j = choose|j: int| 0 <= j < n && candidates@[j] == Some(x);
            assert(0 <= j < n && candidates@[j] == Some(x));
        }
    }
    plan
}

} // verus!
