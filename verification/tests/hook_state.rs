//! The hook entry's enable/disable state machine and the interception
//! registry: the last toggle call decides, toggles are idempotent, and
//! the captured addresses never move.

use noblock_input::hooks::ApiId;
use noblock_input::hooks::HookEntry;
use noblock_input::hooks::InterceptionRegistry;

#[test]
fn install_starts_disabled_with_addresses_captured() {
    let hook = HookEntry::install(ApiId::BlockInput, 0x7ff6_1000, 0x7ff6_2000);
    assert!(!hook.enabled());
    assert!(hook.api_is(ApiId::BlockInput));
    assert!(!hook.api_is(ApiId::SendInput));
}

#[test]
fn enable_then_disable_leaves_disabled() {
    let mut hook = HookEntry::install(ApiId::SendInput, 0x11, 0x22);
    hook.enable();
    hook.disable();
    assert!(!hook.enabled());
}

#[test]
fn disable_then_enable_leaves_enabled() {
    let mut hook = HookEntry::install(ApiId::SendInput, 0x11, 0x22);
    hook.enable();
    hook.disable();
    hook.enable();
    assert!(hook.enabled());
}

#[test]
fn toggles_are_idempotent() {
    let mut hook = HookEntry::install(ApiId::MouseEvent, 0x33, 0x44);
    hook.enable();
    hook.enable();
    assert!(hook.enabled());
    hook.disable();
    hook.disable();
    assert!(!hook.enabled());
}

#[test]
fn registry_installs_each_api_once() {
    let mut registry = InterceptionRegistry::new();
    registry.install(ApiId::BlockInput, 0x100, 0x200);
    registry.install(ApiId::SendInput, 0x300, 0x400);
    assert!(registry.find_index(ApiId::BlockInput).is_some());
    assert!(registry.find_index(ApiId::SendInput).is_some());
    assert!(registry.find_index(ApiId::MouseEvent).is_none());
}

#[test]
fn attach_enables_all_detach_disables_all() {
    let mut registry = InterceptionRegistry::new();
    registry.install(ApiId::BlockInput, 0x100, 0x200);
    registry.install(ApiId::SendInput, 0x300, 0x400);
    registry.install(ApiId::ChangeDisplaySettingsW, 0x500, 0x600);
    registry.enable_all();
    let i = registry.find_index(ApiId::SendInput).unwrap();
    assert!(registry.entry_at(i).enabled());
    registry.disable_all();
    let j = registry.find_index(ApiId::ChangeDisplaySettingsW).unwrap();
    assert!(!registry.entry_at(j).enabled());
}
