//! The interception registry: one `HookEntry` per intercepted API,
//! holding the original function's address (captured once, immutable
//! thereafter), the replacement's address, and an enabled flag whose
//! transitions are idempotent.
//!
//! Addresses are plain machine words here; resolving an export to an
//! address and the actual patching are the hosting process's business.
//! Exclusive `&mut` access to an entry stands for the per-entry critical
//! section that guards its enabled-state transitions.

use vstd::prelude::*;

verus! {

/// Identity of one intercepted API.
#[derive(Clone, Copy, PartialEq, Eq, Structural, Debug)]
pub enum ApiId {
    BlockInput,
    SendInput,
    MouseEvent,
    ChangeDisplaySettingsA,
    ChangeDisplaySettingsW,
    ChangeDisplaySettingsExA,
    ChangeDisplaySettingsExW,
}

/// One installed hook: which API it intercepts, the address of the
/// original function, the address of the replacement, and whether calls
/// are currently routed to the replacement.
pub struct HookEntry {
    api: ApiId,
    original: u64,
    replacement: u64,
    enabled: bool,
}

/// The entry with its toggle set: the spec-level meaning of `enable`.
pub closed spec fn spec_enable(h: HookEntry) -> HookEntry {
    HookEntry { enabled: true, ..h }
}

/// The entry with its toggle cleared: the spec-level meaning of `disable`.
pub closed spec fn spec_disable(h: HookEntry) -> HookEntry {
    HookEntry { enabled: false, ..h }
}

/// `enable` sets the toggle and moves nothing else.
pub broadcast proof fn lemma_enable_effect(h: HookEntry)
    ensures
        (#[trigger] spec_enable(h)).is_enabled(),
        spec_enable(h).spec_api() == h.spec_api(),
        spec_enable(h).spec_original() == h.spec_original(),
        spec_enable(h).spec_replacement() == h.spec_replacement(),
{
}

/// `disable` clears the toggle and moves nothing else.
pub broadcast proof fn lemma_disable_effect(h: HookEntry)
    ensures
        !(#[trigger] spec_disable(h)).is_enabled(),
        spec_disable(h).spec_api() == h.spec_api(),
        spec_disable(h).spec_original() == h.spec_original(),
        spec_disable(h).spec_replacement() == h.spec_replacement(),
{
}

impl HookEntry {
    pub closed spec fn spec_api(self) -> ApiId {
        self.api
    }

    pub closed spec fn spec_original(self) -> u64 {
        self.original
    }

    pub closed spec fn spec_replacement(self) -> u64 {
        self.replacement
    }

    pub closed spec fn is_enabled(self) -> bool {
        self.enabled
    }

    /// Installation captures the original address once; the entry starts
    /// disabled and is switched on separately.
    pub fn install(api: ApiId, original: u64, replacement: u64) -> (h: HookEntry)
        ensures
            h.spec_api() == api,
            h.spec_original() == original,
            h.spec_replacement() == replacement,
            !h.is_enabled(),
    {
        HookEntry { api, original, replacement, enabled: false }
    }

    /// Route calls to the replacement. Idempotent: enabling an enabled
    /// entry changes nothing, and the captured addresses never move.
    pub fn enable(&mut self)
        ensures
            *final(self) == spec_enable(*old(self)),
    {
        self.enabled = true;
    }

    /// Route calls back to the original. Idempotent, addresses unchanged.
    pub fn disable(&mut self)
        ensures
            *final(self) == spec_disable(*old(self)),
    {
        self.enabled = false;
    }

    pub fn enabled(&self) -> (r: bool)
        ensures
            r == self.is_enabled(),
    {
        self.enabled
    }

    /// Whether this entry intercepts the given API.
    pub fn api_is(&self, api: ApiId) -> (r: bool)
        ensures
            r == (self.spec_api() == api),
    {
        self.api == api
    }
}

/// The process-wide table of installed hooks: at most one entry per
/// intercepted API, created as each hook's addresses resolve — a hook
/// whose module or symbol cannot be found is simply never installed,
/// and the others continue independently. At module attach every entry
/// is enabled, at detach every entry is disabled.
pub struct InterceptionRegistry {
    entries: Vec<HookEntry>,
}

impl InterceptionRegistry {
    pub closed spec fn entries_view(self) -> Seq<HookEntry> {
        self.entries@
    }

    /// At most one entry per intercepted API.
    pub closed spec fn wf(self) -> bool {
        forall|i: int, j: int|
            0 <= i < self.entries@.len() && 0 <= j < self.entries@.len() && i != j
                ==> self.entries@[i].spec_api() != self.entries@[j].spec_api()
    }

    pub open spec fn has_api(self, api: ApiId) -> bool {
        exists|i: int|
            0 <= i < self.entries_view().len() && (#[trigger] self.entries_view()[i]).spec_api()
                == api
    }

    pub fn new() -> (r: InterceptionRegistry)
        ensures
            r.wf(),
            r.entries_view() == Seq::<HookEntry>::empty(),
    {
        InterceptionRegistry { entries: Vec::new() }
    }

    /// Install one hook whose addresses resolved, capturing the
    /// original once. The API must not be hooked yet: exactly one entry
    /// per API ever exists.
    pub fn install(&mut self, api: ApiId, original: u64, replacement: u64)
        requires
            old(self).wf(),
            !old(self).has_api(api),
        ensures
            final(self).wf(),
            final(self).entries_view().len() == old(self).entries_view().len() + 1,
            forall|i: int|
                0 <= i < old(self).entries_view().len() ==> final(self).entries_view()[i] == old(
                    self,
                ).entries_view()[i],
            final(self).entries_view().last().spec_api() == api,
            final(self).entries_view().last().spec_original() == original,
            final(self).entries_view().last().spec_replacement() == replacement,
            !final(self).entries_view().last().is_enabled(),
    {
        let entry = HookEntry::install(api, original, replacement);
        self.entries.push(entry);
    }

    /// Which entry intercepts this API, if any.
    pub fn find_index(&self, api: ApiId) -> (r: Option<usize>)
        ensures
            (match r {
                Some(i) => i < self.entries_view().len() && self.entries_view()[
                    i as int
                ].spec_api() == api,
                None => !self.has_api(api),
            }),
    {
        let n = self.entries.len();
        let mut i: usize = 0;
        while i < n
            invariant
                n == self.entries@.len(),
                0 <= i <= n,
                forall|k: int| 0 <= k < i ==> (#[trigger] self.entries@[k]).spec_api() != api,
            decreases n - i,
        {
            if self.entries[i].api_is(api) {
                return Some(i);
            }
            i += 1;
        }
        None
    }

    /// Exclusive access to one entry, for the detour that must bracket
    /// its own hook.
    pub fn entry_at(&mut self, i: usize) -> (entry: &mut HookEntry)
        requires
            i < old(self).entries_view().len(),
        ensures
            *entry == old(self).entries_view()[i as int],
            final(self).entries_view() == old(self).entries_view().update(
                i as int,
                *final(entry),
            ),
    {
        &mut self.entries[i]
    }

    /// Module attach: route every installed hook to its replacement.
    pub fn enable_all(&mut self)
        requires
            old(self).wf(),
        ensures
            final(self).wf(),
            final(self).entries_view().len() == old(self).entries_view().len(),
            forall|i: int|
                0 <= i < old(self).entries_view().len() ==> final(self).entries_view()[i]
                    == spec_enable(#[trigger] old(self).entries_view()[i]),
    {
        broadcast use lemma_enable_effect;

        let n = self.entries.len();
        let mut i: usize = 0;
        while i < n
            invariant
                n == self.entries@.len(),
                0 <= i <= n,
                forall|k: int|
                    0 <= k < i ==> self.entries@[k] == spec_enable(
                        #[trigger] old(self).entries@[k],
                    ),
                forall|k: int| i <= k < n ==> self.entries@[k] == old(self).entries@[k],
            decreases n - i,
        {
            let entry = &mut self.entries[i];
            entry.enable();
            i += 1;
        }
        proof {
            assert forall|i: int, j: int|
                0 <= i < self.entries@.len() && 0 <= j < self.entries@.len() && i != j implies self
                .entries@[i].spec_api() != self.entries@[j].spec_api() by {
                assert(old(self).entries@[i].spec_api() != old(self).entries@[j].spec_api());
            }
        }
    }

    /// Module detach: route every installed hook back to its original.
    pub fn disable_all(&mut self)
        requires
            old(self).wf(),
        ensures
            final(self).wf(),
            final(self).entries_view().len() == old(self).entries_view().len(),
            forall|i: int|
                0 <= i < old(self).entries_view().len() ==> final(self).entries_view()[i]
                    == spec_disable(#[trigger] old(self).entries_view()[i]),
    {
        broadcast use lemma_disable_effect;

        let n = self.entries.len();
        let mut i: usize = 0;
        while i < n
            invariant
                n == self.entries@.len(),
                0 <= i <= n,
                forall|k: int|
                    0 <= k < i ==> self.entries@[k] == spec_disable(
                        #[trigger] old(self).entries@[k],
                    ),
                forall|k: int| i <= k < n ==> self.entries@[k] == old(self).entries@[k],
            decreases n - i,
        {
            let entry = &mut self.entries[i];
            entry.disable();
            i += 1;
        }
        proof {
            assert forall|i: int, j: int|
                0 <= i < self.entries@.len() && 0 <= j < self.entries@.len() && i != j implies self
                .entries@[i].spec_api() != self.entries@[j].spec_api() by {
                assert(old(self).entries@[i].spec_api() != old(self).entries@[j].spec_api());
            }
        }
    }
}

/// Of two back-to-back toggle calls on one entry, the last one decides
/// the enabled state; both orders leave the addresses untouched, and
/// repeating a call is a no-op.
pub proof fn lemma_toggle_last_call_wins(h: HookEntry)
    ensures
        !spec_disable(spec_enable(h)).is_enabled(),
        spec_enable(spec_disable(h)).is_enabled(),
        spec_disable(spec_enable(h)).spec_api() == h.spec_api(),
        spec_disable(spec_enable(h)).spec_original() == h.spec_original(),
        spec_disable(spec_enable(h)).spec_replacement() == h.spec_replacement(),
        spec_enable(spec_disable(h)).spec_api() == h.spec_api(),
        spec_enable(spec_disable(h)).spec_original() == h.spec_original(),
        spec_enable(spec_disable(h)).spec_replacement() == h.spec_replacement(),
        spec_enable(spec_enable(h)) == spec_enable(h),
        spec_disable(spec_disable(h)) == spec_disable(h),
{
    broadcast use lemma_enable_effect, lemma_disable_effect;
}

/// An entry after a run of toggle calls, `true` for `enable` and
/// `false` for `disable`, in the order the per-entry critical section
/// serialized them.
pub open spec fn apply_toggles(h: HookEntry, calls: Seq<bool>) -> HookEntry
    decreases calls.len(),
{
    if calls.len() == 0 {
        h
    } else if calls[0] {
        apply_toggles(spec_enable(h), calls.drop_first())
    } else {
        apply_toggles(spec_disable(h), calls.drop_first())
    }
}

/// However callers interleave, the toggle calls on one entry serialize
/// through its critical section, and then the last call alone decides
/// the enabled state; the captured addresses survive any run of calls.
pub proof fn lemma_last_toggle_decides(h: HookEntry, calls: Seq<bool>)
    ensures
        calls.len() > 0 ==> apply_toggles(h, calls).is_enabled() == calls.last(),
        apply_toggles(h, calls).spec_api() == h.spec_api(),
        apply_toggles(h, calls).spec_original() == h.spec_original(),
        apply_toggles(h, calls).spec_replacement() == h.spec_replacement(),
    decreases calls.len(),
{
    broadcast use lemma_enable_effect, lemma_disable_effect;

    if calls.len() > 0 {
        let next = if calls[0] {
            spec_enable(h)
        } else {
            spec_disable(h)
        };
        lemma_last_toggle_decides(next, calls.drop_first());
        if calls.len() == 1 {
            assert(apply_toggles(next, calls.drop_first()) == next);
        } else {
            assert(calls.drop_first().last() == calls.last());
        }
    }
}

} // verus!
