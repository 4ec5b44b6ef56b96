//! The detour engine: for each intercepted API, the decision taken at
//! call time — pass the call through, suppress it, or alter its result —
//! consulting an enablement flag that was read from the external flag
//! store.
//!
//! A detour returns the exact sequence of steps the hosting process must
//! perform against the real API, as [`DetourEvent`]s: its own hook is
//! disabled before any pass-through call and re-enabled after, so the
//! forwarded call can never recurse into the detour. The flag read
//! itself happens outside; its result comes in as a plain
//! `Result<u32, FlagReadError>`, and any failure to read is treated as
//! "interception active" (fail-safe: better to over-block than to
//! under-block).

use vstd::prelude::*;

use crate::hooks::ApiId;
use crate::hooks::HookEntry;
use crate::hooks::lemma_disable_effect;
use crate::hooks::lemma_enable_effect;

verus! {

broadcast use lemma_enable_effect, lemma_disable_effect;

/// Why an enablement flag could not be read: the value is absent, the
/// backing store itself is unreachable, or the read failed outright.
/// All three are treated alike — the hook counts as active.
#[derive(Clone, Copy, PartialEq, Eq, Structural, Debug)]
pub enum FlagReadError {
    NotFound,
    StoreUnreachable,
    ReadFailed,
}

/// The plain-value arguments of a `mouse_event` call, passed through
/// unchanged when the call is forwarded.
#[derive(Clone, Copy, PartialEq, Eq, Structural, Debug)]
pub struct MouseEventArgs {
    pub flags: u32,
    pub dx: i32,
    pub dy: i32,
    pub data: i32,
    pub extra: usize,
}

/// A call the detour forwards to the real API while its own hook is
/// disabled, carrying the caller's arguments unchanged as far as they
/// are plain values (buffer and device-mode pointers stay with the
/// host).
#[derive(Clone, Copy, PartialEq, Eq, Structural, Debug)]
pub enum HostCall {
    BlockInput { engage: bool },
    SendInput { count: u32, input_size: i32 },
    MouseEvent(MouseEventArgs),
    ChangeDisplaySettings { flags: u32 },
}

/// One step of a detour's interaction with its own hook and the real
/// API, in the order the hosting process must perform them.
#[derive(Clone, Copy, PartialEq, Eq, Structural, Debug)]
pub enum DetourEvent {
    Disabled,
    Forwarded(HostCall),
    Enabled,
}

/// What an enablement flag read means: a present value is active unless
/// it is zero; a failed read defaults to active.
pub open spec fn flag_active(value: Result<u32, FlagReadError>) -> bool {
    match value {
        Ok(v) => v != 0,
        Err(_) => true,
    }
}

/// Resolves an enablement flag read to the hook's activity, failing
/// safe: absence, a missing store, or a read error all count as active.
pub fn is_hook_enabled(value: &Result<u32, FlagReadError>) -> (active: bool)
    ensures
        active == flag_active(*value),
{
    match value {
        Ok(v) => *v != 0,
        Err(_) => true,
    }
}

/// The steps the `BlockInput` detour performs: its own hook is always
/// disabled around the decision; with interception active only a
/// disengage request is forwarded (and always as a disengage), while an
/// engage request is swallowed; with interception inactive the request
/// passes through unchanged.
pub open spec fn block_input_events(active: bool, engage: bool) -> Seq<DetourEvent> {
    if active && engage {
        seq![DetourEvent::Disabled, DetourEvent::Enabled]
    } else if active {
        seq![
            DetourEvent::Disabled,
            DetourEvent::Forwarded(HostCall::BlockInput { engage: false }),
            DetourEvent::Enabled,
        ]
    } else {
        seq![
            DetourEvent::Disabled,
            DetourEvent::Forwarded(HostCall::BlockInput { engage }),
            DetourEvent::Enabled,
        ]
    }
}

/// Result of the `BlockInput` detour: the steps to perform and the value
/// to hand back to the caller.
pub struct BlockInputOutcome {
    pub events: Vec<DetourEvent>,
    pub result: bool,
}

impl HookEntry {
    /// The detour for `BlockInput`. `engage` is the caller's request:
    /// `true` to engage input blocking, `false` to disengage it.
    ///
    /// The nominal result is always the caller's own request, whatever
    /// actually happened — a deliberate compatibility choice of this
    /// design. The hook ends enabled again, and the captured addresses
    /// never move.
    pub fn block_input_detour(
        &mut self,
        flag: &Result<u32, FlagReadError>,
        engage: bool,
    ) -> (r: BlockInputOutcome)
        requires
            old(self).spec_api() == ApiId::BlockInput,
            old(self).is_enabled(),
        ensures
            final(self).is_enabled(),
            final(self).spec_api() == old(self).spec_api(),
            final(self).spec_original() == old(self).spec_original(),
            final(self).spec_replacement() == old(self).spec_replacement(),
            r.result == engage,
            r.events@ == block_input_events(flag_active(*flag), engage),
    {
        let mut events: Vec<DetourEvent> = Vec::new();
        self.disable();
        events.push(DetourEvent::Disabled);
        let active = is_hook_enabled(flag);
        if active {
            // The legitimate unblock path is never itself blocked.
            if !engage {
                events.push(DetourEvent::Forwarded(HostCall::BlockInput { engage: false }));
            }
        } else {
            events.push(DetourEvent::Forwarded(HostCall::BlockInput { engage }));
        }
        self.enable();
        events.push(DetourEvent::Enabled);
        proof {
            assert(events@ =~= block_input_events(flag_active(*flag), engage));
        }
        BlockInputOutcome { events, result: engage }
    }
}

/// The steps the `SendInput` detour performs: with interception active
/// nothing is forwarded at all; otherwise the call passes through inside
/// the disable/enable bracket.
pub open spec fn send_input_events(active: bool, count: u32, input_size: i32) -> Seq<
    DetourEvent,
> {
    if active {
        Seq::empty()
    } else {
        seq![
            DetourEvent::Disabled,
            DetourEvent::Forwarded(HostCall::SendInput { count, input_size }),
            DetourEvent::Enabled,
        ]
    }
}

/// The processed-count the `SendInput` detour reports itself: with
/// interception active it is the caller's full request, as if every
/// queued event had been performed; otherwise the real call's own return
/// is reported instead (`None` here).
pub open spec fn send_input_reported(active: bool, count: u32) -> Option<u32> {
    if active {
        Some(count)
    } else {
        None
    }
}

/// Result of the `SendInput` detour: the steps to perform, and the count
/// to report — `Some(n)` to answer `n` directly, `None` to answer with
/// whatever the forwarded call returned.
pub struct SendInputOutcome {
    pub events: Vec<DetourEvent>,
    pub reported: Option<u32>,
}

impl HookEntry {
    /// The detour for `SendInput`. `count` is the number of queued
    /// input events the caller asked to inject, `input_size` the
    /// caller's structure size, forwarded untouched.
    pub fn send_input_detour(
        &mut self,
        flag: &Result<u32, FlagReadError>,
        count: u32,
        input_size: i32,
    ) -> (r: SendInputOutcome)
        requires
            old(self).spec_api() == ApiId::SendInput,
            old(self).is_enabled(),
        ensures
            final(self).is_enabled(),
            final(self).spec_api() == old(self).spec_api(),
            final(self).spec_original() == old(self).spec_original(),
            final(self).spec_replacement() == old(self).spec_replacement(),
            r.events@ == send_input_events(flag_active(*flag), count, input_size),
            r.reported == send_input_reported(flag_active(*flag), count),
    {
        let mut events: Vec<DetourEvent> = Vec::new();
        if is_hook_enabled(flag) {
            // Report the whole batch as processed without performing it.
            proof {
                assert(events@ =~= send_input_events(flag_active(*flag), count, input_size));
            }
            return SendInputOutcome { events, reported: Some(count) };
        }
        self.disable();
        events.push(DetourEvent::Disabled);
        events.push(DetourEvent::Forwarded(HostCall::SendInput { count, input_size }));
        self.enable();
        events.push(DetourEvent::Enabled);
        proof {
            assert(events@ =~= send_input_events(flag_active(*flag), count, input_size));
        }
        SendInputOutcome { events, reported: None }
    }
}

/// The steps the `mouse_event` detour performs: with interception active
/// the call is dropped entirely; otherwise it passes through inside the
/// disable/enable bracket.
pub open spec fn mouse_event_events(active: bool, args: MouseEventArgs) -> Seq<DetourEvent> {
    if active {
        Seq::empty()
    } else {
        seq![
            DetourEvent::Disabled,
            DetourEvent::Forwarded(HostCall::MouseEvent(args)),
            DetourEvent::Enabled,
        ]
    }
}

impl HookEntry {
    /// The detour for `mouse_event`, which returns nothing to its
    /// caller: there is no result to fabricate, so with interception
    /// active the call is simply dropped; otherwise the caller's
    /// arguments pass through unchanged.
    pub fn mouse_event_detour(
        &mut self,
        flag: &Result<u32, FlagReadError>,
        args: MouseEventArgs,
    ) -> (events: Vec<DetourEvent>)
        requires
            old(self).spec_api() == ApiId::MouseEvent,
            old(self).is_enabled(),
        ensures
            final(self).is_enabled(),
            final(self).spec_api() == old(self).spec_api(),
            final(self).spec_original() == old(self).spec_original(),
            final(self).spec_replacement() == old(self).spec_replacement(),
            events@ == mouse_event_events(flag_active(*flag), args),
    {
        let mut events: Vec<DetourEvent> = Vec::new();
        if is_hook_enabled(flag) {
            proof {
                assert(events@ =~= mouse_event_events(flag_active(*flag), args));
            }
            return events;
        }
        self.disable();
        events.push(DetourEvent::Disabled);
        events.push(DetourEvent::Forwarded(HostCall::MouseEvent(args)));
        self.enable();
        events.push(DetourEvent::Enabled);
        proof {
            assert(events@ =~= mouse_event_events(flag_active(*flag), args));
        }
        events
    }
}

/// True of the four display-settings APIs, which share one detour.
pub open spec fn is_display_settings_api(api: ApiId) -> bool {
    ||| api == ApiId::ChangeDisplaySettingsA
    ||| api == ApiId::ChangeDisplaySettingsW
    ||| api == ApiId::ChangeDisplaySettingsExA
    ||| api == ApiId::ChangeDisplaySettingsExW
}

/// The steps every display-settings detour performs: always a
/// pass-through inside the disable/enable bracket, the caller's flags
/// untouched — these hooks exist for observability, not blocking.
pub open spec fn display_settings_events(flags: u32) -> Seq<DetourEvent> {
    seq![
        DetourEvent::Disabled,
        DetourEvent::Forwarded(HostCall::ChangeDisplaySettings { flags }),
        DetourEvent::Enabled,
    ]
}

impl HookEntry {
    /// The detour shared by the four `ChangeDisplaySettings` variants;
    /// `flags` is the caller's settings-change mode, forwarded
    /// untouched. The enablement flag is observed but not enforced:
    /// whatever it says, the call passes through, and the caller
    /// reports the real call's own return. The hosting process logs
    /// the arguments before forwarding.
    pub fn change_display_settings_detour(
        &mut self,
        flag: &Result<u32, FlagReadError>,
        flags: u32,
    ) -> (events: Vec<DetourEvent>)
        requires
            is_display_settings_api(old(self).spec_api()),
            old(self).is_enabled(),
        ensures
            final(self).is_enabled(),
            final(self).spec_api() == old(self).spec_api(),
            final(self).spec_original() == old(self).spec_original(),
            final(self).spec_replacement() == old(self).spec_replacement(),
            events@ == display_settings_events(flags),
    {
        let _observed = is_hook_enabled(flag);
        let mut events: Vec<DetourEvent> = Vec::new();
        self.disable();
        events.push(DetourEvent::Disabled);
        events.push(DetourEvent::Forwarded(HostCall::ChangeDisplaySettings { flags }));
        self.enable();
        events.push(DetourEvent::Enabled);
        proof {
            assert(events@ =~= display_settings_events(flags));
        }
        events
    }
}

/// Whether the detour's own hook is enabled just before step `i` of an
/// event run, starting from the enabled state in which every detour
/// fires.
pub open spec fn hook_enabled_before(events: Seq<DetourEvent>, i: int) -> bool
    decreases i,
{
    if i <= 0 {
        true
    } else {
        match events[i - 1] {
            DetourEvent::Disabled => false,
            DetourEvent::Enabled => true,
            DetourEvent::Forwarded(_) => hook_enabled_before(events, i - 1),
        }
    }
}

/// Every forwarded call happens while the detour's own hook is
/// disabled, so the pass-through can never recurse into the detour.
pub open spec fn forwards_only_while_disabled(events: Seq<DetourEvent>) -> bool {
    forall|i: int|
        0 <= i < events.len() && (#[trigger] events[i]) is Forwarded ==> !hook_enabled_before(
            events,
            i,
        )
}

/// The re-entrancy rule, for every detour and every input: a forwarded
/// call is always bracketed — the detour's own hook is disabled when
/// the call is made — and the hook is enabled again once the run ends.
pub proof fn lemma_detours_never_recurse(
    active: bool,
    engage: bool,
    count: u32,
    input_size: i32,
    mouse: MouseEventArgs,
    display_flags: u32,
)
    ensures
        forwards_only_while_disabled(block_input_events(active, engage)),
        hook_enabled_before(
            block_input_events(active, engage),
            block_input_events(active, engage).len() as int,
        ),
        forwards_only_while_disabled(send_input_events(active, count, input_size)),
        hook_enabled_before(
            send_input_events(active, count, input_size),
            send_input_events(active, count, input_size).len() as int,
        ),
        forwards_only_while_disabled(mouse_event_events(active, mouse)),
        hook_enabled_before(
            mouse_event_events(active, mouse),
            mouse_event_events(active, mouse).len() as int,
        ),
        forwards_only_while_disabled(display_settings_events(display_flags)),
        hook_enabled_before(
            display_settings_events(display_flags),
            display_settings_events(display_flags).len() as int,
        ),
{
    assert forall|i: int|
        0 <= i < block_input_events(active, engage).len() && (#[trigger] block_input_events(
            active,
            engage,
        )[i]) is Forwarded implies !hook_enabled_before(block_input_events(active, engage), i) by {
        assert(i == 1);
    }
    assert forall|i: int|
        0 <= i < send_input_events(active, count, input_size).len() && (
        #[trigger] send_input_events(active, count, input_size)[i]) is Forwarded implies !hook_enabled_before(
        send_input_events(active, count, input_size),
        i,
    ) by {
        assert(i == 1);
    }
    assert forall|i: int|
        0 <= i < mouse_event_events(active, mouse).len() && (#[trigger] mouse_event_events(
            active,
            mouse,
        )[i]) is Forwarded implies !hook_enabled_before(mouse_event_events(active, mouse), i) by {
        assert(i == 1);
    }
    assert forall|i: int|
        0 <= i < display_settings_events(display_flags).len() && (
        #[trigger] display_settings_events(display_flags)[i]) is Forwarded implies !hook_enabled_before(
        display_settings_events(display_flags),
        i,
    ) by {
        assert(i == 1);
    }
}

/// With interception active, a `BlockInput` call that disengages
/// blocking always results in an underlying disengage call, and a call
/// that engages blocking never results in an underlying engage call.
pub proof fn lemma_block_input_interception(engage: bool)
    ensures
        block_input_events(true, false).contains(
            DetourEvent::Forwarded(HostCall::BlockInput { engage: false }),
        ),
        !block_input_events(true, engage).contains(
            DetourEvent::Forwarded(HostCall::BlockInput { engage: true }),
        ),
{
    assert(block_input_events(true, false)[1] == DetourEvent::Forwarded(
        HostCall::BlockInput { engage: false },
    ));
    let s = block_input_events(true, engage);
    assert forall|i: int| 0 <= i < s.len() implies s[i] != DetourEvent::Forwarded(
        HostCall::BlockInput { engage: true },
    ) by {
        if engage {
            assert(s =~= seq![DetourEvent::Disabled, DetourEvent::Enabled]);
        }
    }
}

/// With interception active, the `SendInput` detour reports the
/// requested count as processed and forwards nothing at all.
pub proof fn lemma_send_input_interception(count: u32, input_size: i32)
    ensures
        send_input_reported(true, count) == Some(count),
        send_input_events(true, count, input_size).len() == 0,
{
}

/// A failed flag read counts as interception active, so it still blocks
/// an engage request: the engine fails safe.
pub proof fn lemma_flag_error_fails_safe(err: FlagReadError)
    ensures
        flag_active(Err(err)),
        !block_input_events(flag_active(Err(err)), true).contains(
            DetourEvent::Forwarded(HostCall::BlockInput { engage: true }),
        ),
{
    lemma_block_input_interception(true);
}

} // verus!
