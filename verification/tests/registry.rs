use dinfo::{Device, EnumerationOutcome, HotplugEvent, UPower};

fn device(name: &str, percentage: u64, icon: &str) -> Device {
    Device {
        name: String::from(name),
        percentage,
        icon_name: String::from(icon),
    }
}

fn same_devices(a: &[Device], b: &[Device]) -> bool {
    a.len() == b.len()
        && a.iter().zip(b.iter()).all(|(x, y)| {
            x.name == y.name && x.percentage == y.percentage && x.icon_name == y.icon_name
        })
}

#[test]
fn degraded_registry_is_uninitialized_and_empty() {
    let registry = UPower::new();
    assert!(!registry.initialized());
    assert!(registry.get_devices().is_empty());
}

#[test]
fn degraded_registry_stays_empty_under_events() {
    let mut registry = UPower::new();
    for event in [
        HotplugEvent::Added,
        HotplugEvent::Removed,
        HotplugEvent::AddedEnded,
        HotplugEvent::RemovedEnded,
        HotplugEvent::Added,
    ] {
        assert!(!registry.on_stream_event(event));
    }
    // even a stray pass outcome changes nothing
    let outcome = EnumerationOutcome::Built(vec![Some(device("BAT0", 7300, "battery-good-symbolic"))]);
    assert!(!registry.apply_reenumeration(outcome));
    assert!(!registry.initialized());
    assert!(registry.get_devices().is_empty());
}

#[test]
fn initial_enumeration_keeps_only_built_descriptors() {
    let outcomes = vec![
        Some(device("BAT0", 9800, "battery-full-symbolic")),
        None,
        Some(device("Mouse", 4500, "input-mouse-symbolic")),
        None,
    ];
    let registry = UPower::with_initial_devices(outcomes);
    assert!(registry.initialized());
    let devices = registry.get_devices();
    assert_eq!(devices.len(), 2);
    assert_eq!(devices[0].name, "BAT0");
    assert_eq!(devices[0].percentage, 9800);
    assert_eq!(devices[0].icon_name, "battery-full-symbolic");
    assert_eq!(devices[1].name, "Mouse");
}

#[test]
fn parse_devices_skips_failures_in_order() {
    let outcomes = vec![
        None,
        Some(device("a", 100, "i")),
        Some(device("b", 200, "j")),
        None,
        Some(device("c", 300, "k")),
    ];
    let devices = UPower::parse_devices(outcomes);
    let names: Vec<&str> = devices.iter().map(|d| d.name.as_str()).collect();
    assert_eq!(names, ["a", "b", "c"]);
}

#[test]
fn added_event_triggers_a_pass_and_one_notification() {
    // two devices exist; a device-added event fires and re-enumeration
    // returns three paths, all building successfully
    let mut registry = UPower::with_initial_devices(vec![
        Some(device("BAT0", 9800, "battery-full-symbolic")),
        Some(device("Mouse", 4500, "input-mouse-symbolic")),
    ]);
    assert_eq!(registry.get_devices().len(), 2);

    assert!(registry.on_stream_event(HotplugEvent::Added));
    let outcome = EnumerationOutcome::Built(vec![
        Some(device("BAT0", 9800, "battery-full-symbolic")),
        Some(device("Mouse", 4500, "input-mouse-symbolic")),
        Some(device("Headset", 6000, "audio-headset-symbolic")),
    ]);
    let notified = registry.apply_reenumeration(outcome);
    assert!(notified);
    let devices = registry.get_devices();
    assert_eq!(devices.len(), 3);
    assert_eq!(devices[2].name, "Headset");
}

#[test]
fn failed_path_query_empties_the_snapshot() {
    let mut registry = UPower::with_initial_devices(vec![
        Some(device("BAT0", 9800, "battery-full-symbolic")),
    ]);
    assert_eq!(registry.get_devices().len(), 1);

    assert!(registry.on_stream_event(HotplugEvent::Removed));
    let notified = registry.apply_reenumeration(EnumerationOutcome::QueryFailed);
    assert!(notified);
    assert!(registry.get_devices().is_empty());
}

#[test]
fn one_ended_stream_leaves_the_other_watched() {
    let mut registry = UPower::with_initial_devices(vec![
        Some(device("BAT0", 9800, "battery-full-symbolic")),
    ]);
    // the removed stream ends: adds are still watched
    assert!(!registry.on_stream_event(HotplugEvent::RemovedEnded));
    assert!(registry.on_stream_event(HotplugEvent::Added));
    // items on the dead stream no longer trigger anything
    assert!(!registry.on_stream_event(HotplugEvent::Removed));

    // symmetrically for the added stream
    let mut registry = UPower::with_initial_devices(vec![]);
    assert!(!registry.on_stream_event(HotplugEvent::AddedEnded));
    assert!(registry.on_stream_event(HotplugEvent::Removed));
    assert!(!registry.on_stream_event(HotplugEvent::Added));
}

#[test]
fn snapshot_is_stable_after_both_streams_end() {
    let mut registry = UPower::with_initial_devices(vec![
        Some(device("BAT0", 9800, "battery-full-symbolic")),
        Some(device("Mouse", 4500, "input-mouse-symbolic")),
    ]);
    let before = registry.get_devices();

    assert!(!registry.on_stream_event(HotplugEvent::AddedEnded));
    assert!(!registry.on_stream_event(HotplugEvent::RemovedEnded));

    // the loop has halted: no event triggers a pass, no pass is applied,
    // and repeated reads return the identical snapshot
    for event in [
        HotplugEvent::Added,
        HotplugEvent::Removed,
        HotplugEvent::AddedEnded,
        HotplugEvent::RemovedEnded,
    ] {
        assert!(!registry.on_stream_event(event));
    }
    let stray = EnumerationOutcome::Built(vec![Some(device("Ghosted", 1, "x"))]);
    assert!(!registry.apply_reenumeration(stray));
    assert!(!registry.apply_reenumeration(EnumerationOutcome::QueryFailed));

    let after = registry.get_devices();
    let again = registry.get_devices();
    assert!(same_devices(&before, &after));
    assert!(same_devices(&after, &again));
    assert!(registry.initialized());
}
