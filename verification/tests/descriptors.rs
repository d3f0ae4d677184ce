use dinfo::Device;

#[test]
fn assemble_builds_when_both_reads_succeeded() {
    let built = Device::assemble(
        Some(String::from("BAT0")),
        Some(7342),
        String::from("battery-good-symbolic"),
    );
    let device = built.expect("both property reads succeeded");
    assert_eq!(device.name, "BAT0");
    assert_eq!(device.percentage, 7342);
    assert_eq!(device.icon_name, "battery-good-symbolic");
}

#[test]
fn assemble_fails_without_a_name() {
    assert!(Device::assemble(None, Some(5000), String::from("icon")).is_none());
}

#[test]
fn assemble_fails_without_a_percentage() {
    assert!(Device::assemble(Some(String::from("BAT0")), None, String::from("icon")).is_none());
}

#[test]
fn clone_preserves_the_descriptor() {
    let device = Device {
        name: String::from("Headset"),
        percentage: 10000,
        icon_name: String::from("audio-headset-symbolic"),
    };
    let copy = device.clone();
    assert_eq!(copy.name, device.name);
    assert_eq!(copy.percentage, device.percentage);
    assert_eq!(copy.icon_name, device.icon_name);
}

#[test]
fn get_devices_returns_an_independent_clone() {
    let registry = dinfo::UPower::with_initial_devices(vec![Some(Device {
        name: String::from("BAT0"),
        percentage: 1,
        icon_name: String::from("i"),
    })]);
    let mut first = registry.get_devices();
    first.clear();
    assert_eq!(registry.get_devices().len(), 1);
}
