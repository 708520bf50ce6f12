use bt_audio_receiver::receiver::{BTDevice, BTReceiver, BtError, ConnState, DirectoryEntry, Effect, OpenStatus};

fn dev(name: &str, id: Option<&str>) -> BTDevice {
    BTDevice { name: name.to_string(), id: id.map(|s| s.to_string()) }
}

fn connected_receiver(id: &str) -> BTReceiver {
    let mut r = BTReceiver::new();
    assert_eq!(r.connect(&dev("Speaker-A", Some(id))), Ok(id.to_string()));
    let effects = r.on_open(OpenStatus::Success).unwrap();
    assert_eq!(effects, vec![Effect::AcquireAnchor, Effect::StartMonitor, Effect::AcquirePriority]);
    r
}

#[test]
fn new_receiver_is_disconnected() {
    let r = BTReceiver::new();
    assert_eq!(r.state, ConnState::Disconnected);
    assert!(!r.anchor_held && !r.priority_held && !r.monitor_active);
}

#[test]
fn connect_without_identifier_fails() {
    let mut r = BTReceiver::new();
    assert_eq!(r.connect(&dev("Speaker-A", None)), Err(BtError::IdentifierMissing));
    assert_eq!(r.state, ConnState::Disconnected);
    assert!(!r.monitor_active && !r.anchor_held);
}

#[test]
fn connect_then_open_success_holds_one_monitor() {
    let r = connected_receiver("id-a");
    assert_eq!(r.state, ConnState::Connected("id-a".to_string()));
    assert!(r.monitor_active && r.anchor_held && !r.priority_held);
}

#[test]
fn connect_puts_manager_in_connecting() {
    let mut r = BTReceiver::new();
    assert_eq!(r.connect(&dev("Speaker-A", Some("id-a"))), Ok("id-a".to_string()));
    assert_eq!(r.state, ConnState::Connecting("id-a".to_string()));
    assert!(!r.monitor_active);
}

#[test]
fn open_failure_reports_status_and_disconnects() {
    let mut r = BTReceiver::new();
    r.connect(&dev("Speaker-A", Some("id-a"))).unwrap();
    assert_eq!(r.on_open(OpenStatus::DeniedBySystem), Err(BtError::OpenFailed(OpenStatus::DeniedBySystem)));
    assert_eq!(r.state, ConnState::Disconnected);
    assert!(!r.monitor_active && !r.anchor_held);
}

#[test]
fn open_timeout_is_open_failed() {
    let mut r = BTReceiver::new();
    r.connect(&dev("Speaker-A", Some("id-a"))).unwrap();
    assert_eq!(r.on_open(OpenStatus::RequestTimedOut), Err(BtError::OpenFailed(OpenStatus::RequestTimedOut)));
}

#[test]
fn priority_boost_kept_only_while_connected() {
    let mut r = connected_receiver("id-a");
    r.on_priority(true);
    assert!(r.priority_held);
    let mut d = BTReceiver::new();
    d.on_priority(true);
    assert!(!d.priority_held);
    let mut refused = connected_receiver("id-b");
    refused.on_priority(false);
    assert!(!refused.priority_held);
    assert_eq!(refused.state, ConnState::Connected("id-b".to_string()));
}

#[test]
fn disconnect_releases_in_order() {
    let mut r = connected_receiver("id-a");
    r.on_priority(true);
    let effects = r.disconnect();
    assert_eq!(effects, vec![Effect::CancelMonitor, Effect::ReleaseAnchor, Effect::ReleasePriority]);
    assert_eq!(r.state, ConnState::Disconnected);
    assert!(!r.monitor_active && !r.anchor_held && !r.priority_held);
}

#[test]
fn disconnect_twice_equals_once() {
    let mut r = connected_receiver("id-a");
    let first = r.disconnect();
    assert_eq!(first, vec![Effect::CancelMonitor, Effect::ReleaseAnchor]);
    let mut once = BTReceiver::new();
    let _ = once.disconnect();
    let second = r.disconnect();
    assert!(second.is_empty());
    assert_eq!(r, once);
}

#[test]
fn disconnect_on_fresh_manager_is_noop() {
    let mut r = BTReceiver::new();
    assert!(r.disconnect().is_empty());
    assert_eq!(r, BTReceiver::new());
}

#[test]
fn reconnect_tears_down_then_connects() {
    let mut r = connected_receiver("id-a");
    r.on_priority(true);
    let (teardown, opened) = r.reconnect(&dev("Speaker-B", Some("id-b")));
    assert_eq!(teardown, vec![Effect::CancelMonitor, Effect::ReleaseAnchor, Effect::ReleasePriority]);
    assert_eq!(opened, Ok("id-b".to_string()));
    assert_eq!(r.state, ConnState::Connecting("id-b".to_string()));
    assert!(!r.monitor_active);
    let setup = r.on_open(OpenStatus::Success).unwrap();
    assert_eq!(setup, vec![Effect::AcquireAnchor, Effect::StartMonitor, Effect::AcquirePriority]);
    assert_eq!(r.state, ConnState::Connected("id-b".to_string()));
}

#[test]
fn reconnect_failure_leaves_disconnected() {
    let mut r = connected_receiver("id-a");
    let (teardown, opened) = r.reconnect(&dev("Speaker-A", Some("id-a")));
    assert_eq!(teardown, vec![Effect::CancelMonitor, Effect::ReleaseAnchor]);
    assert!(opened.is_ok());
    assert_eq!(r.on_open(OpenStatus::UnknownFailure), Err(BtError::OpenFailed(OpenStatus::UnknownFailure)));
    assert_eq!(r.state, ConnState::Disconnected);
    assert!(!r.monitor_active && !r.anchor_held);
}

#[test]
fn reconnect_without_identifier_fails_disconnected() {
    let mut r = connected_receiver("id-a");
    let (teardown, opened) = r.reconnect(&dev("Speaker-A", None));
    assert_eq!(teardown, vec![Effect::CancelMonitor, Effect::ReleaseAnchor]);
    assert_eq!(opened, Err(BtError::IdentifierMissing));
    assert_eq!(r.state, ConnState::Disconnected);
}

#[test]
fn list_devices_keeps_named_entries_in_order() {
    let r = BTReceiver::new();
    let entries = vec![
        DirectoryEntry { name: Some("Speaker-A".to_string()), id: Some("id-a".to_string()) },
        DirectoryEntry { name: None, id: Some("id-x".to_string()) },
        DirectoryEntry { name: Some("Speaker-B".to_string()), id: None },
    ];
    let devs = r.list_devices(Some(entries)).unwrap();
    assert_eq!(devs, vec![dev("Speaker-A", Some("id-a")), dev("Speaker-B", None)]);
}

#[test]
fn list_devices_empty_and_unavailable() {
    let r = BTReceiver::new();
    assert_eq!(r.list_devices(Some(Vec::new())), Ok(Vec::new()));
    assert_eq!(r.list_devices(None), Err(BtError::DirectoryUnavailable));
}
