//! The detour engine's behaviour call by call: what each detour
//! forwards, what it suppresses, what it reports, and how it brackets
//! every pass-through between disabling and re-enabling its own hook.

use noblock_input::detours::DetourEvent;
use noblock_input::detours::FlagReadError;
use noblock_input::detours::HostCall;
use noblock_input::detours::MouseEventArgs;
use noblock_input::detours::is_hook_enabled;
use noblock_input::hooks::ApiId;
use noblock_input::hooks::HookEntry;

fn block_input_hook() -> HookEntry {
    let mut hook = HookEntry::install(ApiId::BlockInput, 0x10, 0x20);
    hook.enable();
    hook
}

#[test]
fn active_blockinput_swallows_engage() {
    let mut hook = block_input_hook();
    let outcome = hook.block_input_detour(&Ok(1), true);
    assert_eq!(
        outcome.events,
        vec![DetourEvent::Disabled, DetourEvent::Enabled]
    );
    assert!(outcome.result);
    assert!(hook.enabled());
}

#[test]
fn active_blockinput_passes_disengage_through() {
    let mut hook = block_input_hook();
    let outcome = hook.block_input_detour(&Ok(1), false);
    assert_eq!(
        outcome.events,
        vec![
            DetourEvent::Disabled,
            DetourEvent::Forwarded(HostCall::BlockInput { engage: false }),
            DetourEvent::Enabled,
        ]
    );
    assert!(!outcome.result);
    assert!(hook.enabled());
}

#[test]
fn inactive_blockinput_passes_through_unchanged() {
    let mut hook = block_input_hook();
    let outcome = hook.block_input_detour(&Ok(0), true);
    assert_eq!(
        outcome.events,
        vec![
            DetourEvent::Disabled,
            DetourEvent::Forwarded(HostCall::BlockInput { engage: true }),
            DetourEvent::Enabled,
        ]
    );
    assert!(outcome.result);
}

#[test]
fn blockinput_result_echoes_request_even_when_suppressed() {
    let mut hook = block_input_hook();
    let suppressed = hook.block_input_detour(&Ok(7), true);
    assert!(suppressed.result);
    let mut hook = block_input_hook();
    let forwarded = hook.block_input_detour(&Err(FlagReadError::NotFound), false);
    assert!(!forwarded.result);
}

#[test]
fn unreachable_flag_store_blocks_engage() {
    // The enablement flag store cannot be read: the engine fails safe,
    // treats interception as active, and swallows the engage request.
    let mut hook = block_input_hook();
    let outcome = hook.block_input_detour(&Err(FlagReadError::StoreUnreachable), true);
    assert_eq!(
        outcome.events,
        vec![DetourEvent::Disabled, DetourEvent::Enabled]
    );
    assert!(outcome.result);
}

#[test]
fn flag_errors_all_mean_active() {
    assert!(is_hook_enabled(&Err(FlagReadError::NotFound)));
    assert!(is_hook_enabled(&Err(FlagReadError::StoreUnreachable)));
    assert!(is_hook_enabled(&Err(FlagReadError::ReadFailed)));
    assert!(is_hook_enabled(&Ok(1)));
    assert!(is_hook_enabled(&Ok(42)));
    assert!(!is_hook_enabled(&Ok(0)));
}

#[test]
fn active_sendinput_reports_full_count_and_forwards_nothing() {
    let mut hook = HookEntry::install(ApiId::SendInput, 0x30, 0x40);
    hook.enable();
    let outcome = hook.send_input_detour(&Ok(1), 17, 40);
    assert_eq!(outcome.reported, Some(17));
    assert!(outcome.events.is_empty());
    assert!(hook.enabled());
}

#[test]
fn inactive_sendinput_forwards_inside_bracket() {
    let mut hook = HookEntry::install(ApiId::SendInput, 0x30, 0x40);
    hook.enable();
    let outcome = hook.send_input_detour(&Ok(0), 5, 40);
    assert_eq!(outcome.reported, None);
    assert_eq!(
        outcome.events,
        vec![
            DetourEvent::Disabled,
            DetourEvent::Forwarded(HostCall::SendInput { count: 5, input_size: 40 }),
            DetourEvent::Enabled,
        ]
    );
}

fn mouse_args() -> MouseEventArgs {
    MouseEventArgs { flags: 0x8000, dx: 12, dy: -7, data: 120, extra: 99 }
}

#[test]
fn active_mouse_event_is_dropped_entirely() {
    let mut hook = HookEntry::install(ApiId::MouseEvent, 0x50, 0x60);
    hook.enable();
    let events = hook.mouse_event_detour(&Err(FlagReadError::ReadFailed), mouse_args());
    assert!(events.is_empty());
    assert!(hook.enabled());
}

#[test]
fn inactive_mouse_event_passes_its_arguments_through() {
    let mut hook = HookEntry::install(ApiId::MouseEvent, 0x50, 0x60);
    hook.enable();
    let events = hook.mouse_event_detour(&Ok(0), mouse_args());
    assert_eq!(
        events,
        vec![
            DetourEvent::Disabled,
            DetourEvent::Forwarded(HostCall::MouseEvent(mouse_args())),
            DetourEvent::Enabled,
        ]
    );
}

#[test]
fn display_settings_always_pass_through() {
    for flag in [Ok(1), Ok(0), Err(FlagReadError::NotFound)] {
        let mut hook = HookEntry::install(ApiId::ChangeDisplaySettingsExW, 0x70, 0x80);
        hook.enable();
        let events = hook.change_display_settings_detour(&flag, 0x4);
        assert_eq!(
            events,
            vec![
                DetourEvent::Disabled,
                DetourEvent::Forwarded(HostCall::ChangeDisplaySettings { flags: 0x4 }),
                DetourEvent::Enabled,
            ]
        );
        assert!(hook.enabled());
    }
}
