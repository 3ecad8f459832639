use hamilton_controller::devices::{
    classify, ControllerRole, DeviceStatus, DeviceTable, TrackedKind, VrDeviceClass,
};

fn status(connected: bool, class: VrDeviceClass) -> DeviceStatus {
    DeviceStatus { connected, class }
}

#[test]
fn classify_maps_every_kind() {
    assert_eq!(classify(TrackedKind::Hmd, None), VrDeviceClass::HMD);
    assert_eq!(classify(TrackedKind::Controller, None), VrDeviceClass::Controller);
    assert_eq!(
        classify(TrackedKind::Controller, Some(ControllerRole::LeftHand)),
        VrDeviceClass::LeftController
    );
    assert_eq!(
        classify(TrackedKind::Controller, Some(ControllerRole::RightHand)),
        VrDeviceClass::RightController
    );
    assert_eq!(classify(TrackedKind::GenericTracker, None), VrDeviceClass::Tracker);
    assert_eq!(classify(TrackedKind::TrackingReference, None), VrDeviceClass::Sensor);
    assert_eq!(classify(TrackedKind::Other, None), VrDeviceClass::Other);
}

#[test]
fn first_device_of_a_class_is_found() {
    let mut t = DeviceTable::new();
    assert_eq!(t.get_device_by_class(VrDeviceClass::Tracker), None);
    t.update(0, status(true, VrDeviceClass::HMD));
    t.update(3, status(false, VrDeviceClass::Tracker));
    t.update(5, status(true, VrDeviceClass::Tracker));
    assert_eq!(t.get_device_by_class(VrDeviceClass::Tracker), Some(3));
    assert_eq!(t.get_device_by_class(VrDeviceClass::HMD), Some(0));
    assert_eq!(t.get_device_by_class(VrDeviceClass::Sensor), None);
    assert_eq!(t.get(1), None);
    assert_eq!(t.get(5), Some(status(true, VrDeviceClass::Tracker)));
    assert_eq!(t.get(9), None);
}

#[test]
fn update_replaces_a_device_status() {
    let mut t = DeviceTable::new();
    t.update(2, status(true, VrDeviceClass::Other));
    t.update(2, status(false, VrDeviceClass::RightController));
    assert_eq!(t.get(2), Some(status(false, VrDeviceClass::RightController)));
    assert_eq!(t.get_device_by_class(VrDeviceClass::Other), None);
}

#[test]
fn display_lists_connected_devices() {
    let mut t = DeviceTable::new();
    assert_eq!(t.display_data(), "");
    t.update(0, status(true, VrDeviceClass::HMD));
    t.update(1, status(false, VrDeviceClass::Controller));
    t.update(12, status(true, VrDeviceClass::LeftController));
    t.update(3, status(true, VrDeviceClass::Sensor));
    assert_eq!(
        t.display_data(),
        "0 -> HMD -> purple\n3 -> Sensor -> red\n12 -> LeftController -> green\n"
    );
}

#[test]
fn display_names_every_colour() {
    let classes = [
        VrDeviceClass::Controller,
        VrDeviceClass::LeftController,
        VrDeviceClass::RightController,
        VrDeviceClass::Tracker,
        VrDeviceClass::HMD,
        VrDeviceClass::Sensor,
        VrDeviceClass::Other,
    ];
    let mut t = DeviceTable::new();
    for (i, c) in classes.iter().enumerate() {
        t.update(i as u32, status(true, *c));
    }
    assert_eq!(
        t.display_data(),
        "0 -> Controller -> yellow\n1 -> LeftController -> green\n2 -> RightController -> blue\n\
         3 -> Tracker -> aqua\n4 -> HMD -> purple\n5 -> Sensor -> red\n6 -> Other -> red\n"
    );
}
