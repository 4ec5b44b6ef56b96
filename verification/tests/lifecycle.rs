//! The tracked-process set, the snapshot channel, and the lifecycle
//! monitor: every mutation is mirrored, and the snapshot the
//! coordinator drains always reflects every mutation issued before it.

use noblock_input::messages::hooked_in_callback_message;
use noblock_input::messages::process_exited_message;
use noblock_input::monitor::CallbackAction;
use noblock_input::monitor::IMAGE_LOAD_EVENT;
use noblock_input::monitor::IMAGE_UNLOAD_EVENT;
use noblock_input::monitor::LifecycleMonitor;
use noblock_input::monitor::classify_event;
use noblock_input::process_set::SnapshotChannel;
use noblock_input::process_set::TrackedProcessSet;

fn targets() -> Vec<String> {
    vec![String::from("app.exe"), String::from("other.exe")]
}

#[test]
fn set_insert_is_idempotent_and_remove_tolerates_absence() {
    let mut set = TrackedProcessSet::new();
    set.insert(10);
    set.insert(10);
    set.insert(20);
    assert_eq!(set.len(), 2);
    set.remove(30);
    assert_eq!(set.len(), 2);
    set.remove(10);
    assert_eq!(set.len(), 1);
    assert!(set.contains(20));
    assert!(!set.contains(10));
}

#[test]
fn channel_drains_to_latest_snapshot() {
    let mut channel = SnapshotChannel::new();
    let mut set = TrackedProcessSet::new();
    set.insert(1);
    channel.send(set.snapshot());
    set.insert(2);
    channel.send(set.snapshot());
    let latest = channel.drain_to_latest().unwrap();
    assert!(latest.contains(1));
    assert!(latest.contains(2));
    assert!(channel.drain_to_latest().is_none());
}

#[test]
fn classify_ignores_incomplete_and_foreign_events() {
    let processes = targets();
    assert!(matches!(
        classify_event(&processes, IMAGE_LOAD_EVENT, None, Some(r"C:\x\app.exe")),
        CallbackAction::Ignore
    ));
    assert!(matches!(
        classify_event(&processes, IMAGE_LOAD_EVENT, Some(7), None),
        CallbackAction::Ignore
    ));
    assert!(matches!(
        classify_event(&processes, IMAGE_LOAD_EVENT, Some(7), Some(r"C:\x\stranger.exe")),
        CallbackAction::Ignore
    ));
    assert!(matches!(
        classify_event(&processes, IMAGE_LOAD_EVENT, Some(7), Some(r"C:\x\")),
        CallbackAction::Ignore
    ));
    assert!(matches!(
        classify_event(&processes, 99, Some(7), Some(r"C:\x\app.exe")),
        CallbackAction::Ignore
    ));
}

#[test]
fn monitor_live_process_appears_then_exits() {
    // "app.exe" starts after the monitor is live: the callback fires,
    // injection succeeds, the identifier is tracked and the log line
    // emitted; then it exits and the removal is mirrored.
    let processes = targets();
    let seed = TrackedProcessSet::new();
    let mut monitor = LifecycleMonitor::new(seed);

    let action = classify_event(
        &processes,
        IMAGE_LOAD_EVENT,
        Some(4242),
        Some(r"C:\Program Files\App\app.exe"),
    );
    match action {
        CallbackAction::HandleCreation { pid, name } => {
            assert_eq!(pid, 4242);
            assert_eq!(name, "app.exe");
            // Debug-attach, detach and injection succeed outside;
            // the success is recorded and mirrored.
            monitor.record_injection(pid);
            assert_eq!(
                hooked_in_callback_message(&name, pid),
                "Hooked in callback: app.exe (PID 4242)"
            );
        }
        other => panic!("expected a creation, got {:?}", other),
    }

    let action = classify_event(
        &processes,
        IMAGE_UNLOAD_EVENT,
        Some(4242),
        Some(r"C:\Program Files\App\app.exe"),
    );
    match action {
        CallbackAction::HandleTermination { pid, name } => {
            assert_eq!(pid, 4242);
            assert_eq!(
                process_exited_message(&name, pid),
                "Process exited: app.exe (PID 4242)"
            );
            monitor.record_termination(pid);
        }
        other => panic!("expected a termination, got {:?}", other),
    }

    let latest = monitor.drain_for_shutdown();
    assert!(!latest.contains(4242));
    assert_eq!(latest.len(), 0);
}

#[test]
fn callback_step_tracks_only_successful_injections() {
    let processes = targets();
    let mut monitor = LifecycleMonitor::new(TrackedProcessSet::new());

    let creation = classify_event(&processes, IMAGE_LOAD_EVENT, Some(8), Some(r"C:\a\app.exe"));
    let snapshot = monitor.apply_callback_action(&creation, false);
    assert!(snapshot.is_none());

    let snapshot = monitor.apply_callback_action(&creation, true).unwrap();
    assert!(snapshot.contains(8));

    let foreign = classify_event(&processes, IMAGE_LOAD_EVENT, Some(9), Some(r"C:\a\else.exe"));
    assert!(monitor.apply_callback_action(&foreign, true).is_none());

    let termination =
        classify_event(&processes, IMAGE_UNLOAD_EVENT, Some(8), Some(r"C:\a\app.exe"));
    let snapshot = monitor.apply_callback_action(&termination, false).unwrap();
    assert!(!snapshot.contains(8));
    assert_eq!(monitor.drain_for_shutdown().len(), 0);
}

#[test]
fn drained_snapshot_reflects_every_mutation() {
    let mut seed = TrackedProcessSet::new();
    seed.insert(1);
    let mut monitor = LifecycleMonitor::new(seed);
    monitor.record_injection(2);
    monitor.record_injection(3);
    monitor.record_termination(1);
    monitor.record_injection(4);
    monitor.record_termination(3);
    let latest = monitor.drain_for_shutdown();
    assert!(!latest.contains(1));
    assert!(latest.contains(2));
    assert!(!latest.contains(3));
    assert!(latest.contains(4));
    assert_eq!(latest.len(), 2);
}
