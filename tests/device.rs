use ancs4linux::constants::{CONTROL_POINT_CHAR, DATA_SOURCE_CHAR, NOTIFICATION_SOURCE_CHAR};
use ancs4linux::device::MobileDevice;
use ancs4linux::scanner::{DeviceProperties, ObjectInfo, Scanner, parent_path};

fn ready_device() -> MobileDevice {
    let mut d = MobileDevice::new("/dev".to_string());
    assert!(!d.set_paired(true).start_subscription);
    assert!(!d.set_connected(true).start_subscription);
    assert!(!d.set_name("Phone".to_string()).start_subscription);
    assert!(!d.set_notification_source("/dev/ns".to_string()).start_subscription);
    assert!(!d.set_control_point("/dev/cp".to_string()).start_subscription);
    let t = d.set_data_source("/dev/ds".to_string());
    assert!(t.start_subscription);
    assert!(t.stop_notify.is_empty());
    d
}

#[test]
fn device_subscribes_when_ready() {
    let mut d = ready_device();
    assert!(d.handle_action(5042, true).is_none());
    assert!(d.attach_communicator_with_id_base(5000));
    assert!(!d.attach_communicator_with_id_base(5000));
    assert_eq!(d.handle_action(5042, true), Some(vec![0x02, 42, 0, 0, 0, 0x00]));
}

#[test]
fn device_change_tears_down() {
    let mut d = ready_device();
    assert!(d.attach_communicator());
    let t = d.set_connected(false);
    assert_eq!(t.stop_notify, vec!["/dev/ns".to_string(), "/dev/ds".to_string()]);
    assert!(!t.start_subscription);
    assert!(d.handle_action(1, true).is_none());
    assert!(!d.attach_communicator());
    let t = d.set_connected(true);
    assert!(t.stop_notify.is_empty());
    assert!(t.start_subscription);
}

#[test]
fn parent_of_object_path() {
    assert_eq!(parent_path(&"/org/bluez/hci0/dev_1/char0".to_string()), Some("/org/bluez/hci0/dev_1".to_string()));
    assert_eq!(parent_path(&"/dev".to_string()), Some("".to_string()));
    assert_eq!(parent_path(&"nodev".to_string()), None);
}

#[test]
fn scanner_builds_device_records() {
    let mut s = Scanner::new();
    let dev = ObjectInfo {
        path: "/org/bluez/hci0/dev_1".to_string(),
        device: Some(DeviceProperties { paired: Some(true), connected: Some(true), alias: Some("Phone".to_string()) }),
        characteristic_uuid: None,
    };
    let out = s.process_object(&dev);
    assert_eq!(out.observe, Some("/org/bluez/hci0/dev_1".to_string()));
    assert!(!out.device_event.unwrap().transition.start_subscription);
    let again = s.process_object(&dev);
    assert!(again.observe.is_none() && again.device_event.is_none());

    let mut last = None;
    for (i, uuid) in [NOTIFICATION_SOURCE_CHAR, CONTROL_POINT_CHAR, DATA_SOURCE_CHAR].iter().enumerate() {
        let obj = ObjectInfo {
            path: format!("/org/bluez/hci0/dev_1/char{}", i),
            device: None,
            characteristic_uuid: Some(uuid.to_string()),
        };
        last = s.process_object(&obj).characteristic_event;
    }
    let ev = last.unwrap();
    assert_eq!(ev.device_path, "/org/bluez/hci0/dev_1");
    assert!(ev.transition.start_subscription);
    assert!(s.attach_communicator(&"/org/bluez/hci0/dev_1".to_string()));
    assert!(s.handle_action(&"/org/bluez/hci0/dev_1".to_string(), 7, false).is_some());
    assert!(s.handle_action(&"/other".to_string(), 7, false).is_none());

    let off = DeviceProperties { paired: None, connected: Some(false), alias: None };
    let t = s.process_property(&"/org/bluez/hci0/dev_1".to_string(), &"org.bluez.Device1".to_string(), &off);
    assert_eq!(t.stop_notify.len(), 2);
    assert!(s.handle_action(&"/org/bluez/hci0/dev_1".to_string(), 7, false).is_none());
    assert!(s.remove_observers(&"/org/bluez/hci0/dev_1".to_string()));
    assert!(!s.remove_observers(&"/org/bluez/hci0/dev_1".to_string()));
}

#[test]
fn scanner_ignores_other_objects() {
    let mut s = Scanner::new();
    let obj = ObjectInfo {
        path: "/org/bluez/hci0/dev_1/char9".to_string(),
        device: None,
        characteristic_uuid: Some("00002a00-0000-1000-8000-00805f9b34fb".to_string()),
    };
    let out = s.process_object(&obj);
    assert!(out.characteristic_event.is_none());
    let t = s.process_property(&"/x".to_string(), &"org.bluez.Adapter1".to_string(), &DeviceProperties { paired: Some(true), connected: None, alias: None });
    assert!(!t.start_subscription && t.stop_notify.is_empty());
}
