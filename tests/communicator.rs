use ancs4linux::apis::ShowNotificationData;
use ancs4linux::builders::{GetAppAttributes, GetNotificationAttributes, PerformNotificationAction};
use ancs4linux::device_comm::{DeviceCommunicator, Outgoing};
use ancs4linux::parsers::{AppAttributes, DecodeError};

fn comm(base: u32) -> DeviceCommunicator {
    DeviceCommunicator::with_id_base("/org/bluez/hci0/dev_1".to_string(), "Phone".to_string(), base)
}

fn lp(s: &str) -> Vec<u8> {
    let mut v = vec![s.len() as u8, 0x00];
    v.extend_from_slice(s.as_bytes());
    v
}

fn notification_reply(uid: u32, app_id: &str, title: &str, message: &str) -> Vec<u8> {
    let mut v = vec![0x00];
    v.extend_from_slice(&uid.to_le_bytes());
    v.extend(lp(app_id));
    v.extend(lp(title));
    v.extend(lp(message));
    v
}

fn app_reply(app_id: &str, name: &str) -> Vec<u8> {
    let mut v = vec![0x01];
    v.extend_from_slice(app_id.as_bytes());
    v.push(0x00);
    v.extend(lp(name));
    v
}

#[test]
fn preexisting_notification_dismissed() {
    let c = comm(5000);
    let outs = c.on_ns_change(&[0x00, 0x04, 0x00, 0x00, 0x07, 0x00, 0x00, 0x00]).unwrap();
    assert_eq!(outs, vec![Outgoing::Dismiss(7)]);
    assert_eq!(c.queue_len(), 0);
}

#[test]
fn removed_notification_dismissed() {
    let c = comm(5000);
    let outs = c.on_ns_change(&[0x02, 0x00, 0x00, 0x00, 0x09, 0x00, 0x00, 0x00]).unwrap();
    assert_eq!(outs, vec![Outgoing::Dismiss(9)]);
}

#[test]
fn fresh_notification_unknown_app() {
    let mut c = comm(5000);
    let outs = c.on_ns_change(&[0x00, 0x18, 0x00, 0x01, 0x2A, 0x00, 0x00, 0x00]).unwrap();
    let ask = GetNotificationAttributes { id: 42, get_positive_action: true, get_negative_action: true };
    assert_eq!(outs, vec![Outgoing::ControlPoint(ask.to_vec())]);

    let outs = c.on_ds_change(&notification_reply(42, "com.foo", "Hello", "World")).unwrap();
    let ask = GetAppAttributes { app_id: "com.foo".to_string() };
    assert_eq!(outs, vec![Outgoing::ControlPoint(ask.to_vec())]);
    assert_eq!(c.queue_len(), 1);
    assert!(c.is_awaiting(&"com.foo".to_string()));

    let outs = c.on_ds_change(&app_reply("com.foo", "Foo App")).unwrap();
    let expected = ShowNotificationData {
        device_name: "Phone".to_string(),
        device_handle: "/org/bluez/hci0/dev_1".to_string(),
        app_id: "com.foo".to_string(),
        app_name: "Foo App".to_string(),
        id: 5042,
        title: "Hello".to_string(),
        body: "World".to_string(),
        positive_action: None,
        negative_action: None,
    };
    assert_eq!(outs, vec![Outgoing::Show(expected)]);
    assert_eq!(c.queue_len(), 0);
    assert!(!c.is_awaiting(&"com.foo".to_string()));
}

#[test]
fn fresh_notification_cached_app() {
    let mut c = comm(5000);
    let preload = AppAttributes { app_id: "com.foo".to_string(), app_name: "Foo App".to_string() };
    assert!(c.on_app_attributes(&preload).is_empty());
    assert_eq!(c.known_app_name(&"com.foo".to_string()), Some("Foo App".to_string()));

    let outs = c.on_ns_change(&[0x00, 0x00, 0x00, 0x01, 0x2A, 0x00, 0x00, 0x00]).unwrap();
    let ask = GetNotificationAttributes { id: 42, get_positive_action: false, get_negative_action: false };
    assert_eq!(outs, vec![Outgoing::ControlPoint(ask.to_vec())]);

    let outs = c.on_ds_change(&notification_reply(42, "com.foo", "T", "B")).unwrap();
    assert_eq!(outs.len(), 1);
    match &outs[0] {
        Outgoing::Show(d) => {
            assert_eq!(d.app_name, "Foo App");
            assert_eq!(d.id, 5042);
        }
        other => panic!("unexpected {:?}", other),
    }
    assert_eq!(c.queue_len(), 0);
}

#[test]
fn one_app_request_for_two_notifications() {
    let mut c = comm(1000);
    let first = c.on_ds_change(&notification_reply(1, "app", "a", "b")).unwrap();
    assert_eq!(first.len(), 1);
    let second = c.on_ds_change(&notification_reply(2, "app", "c", "d")).unwrap();
    assert!(second.is_empty());
    assert_eq!(c.queue_len(), 2);
    let shown = c.on_ds_change(&app_reply("app", "App")).unwrap();
    assert_eq!(shown.len(), 2);
    match (&shown[0], &shown[1]) {
        (Outgoing::Show(a), Outgoing::Show(b)) => {
            assert_eq!((a.id, b.id), (1001, 1002));
        }
        _ => panic!("expected two notifications"),
    }
}

#[test]
fn unrelated_app_name_sends_nothing() {
    let mut c = comm(1000);
    c.on_ds_change(&notification_reply(1, "app", "a", "b")).unwrap();
    let outs = c.on_ds_change(&app_reply("other", "Other")).unwrap();
    assert!(outs.is_empty());
    assert_eq!(c.queue_len(), 1);
}

#[test]
fn action_routing() {
    let c = comm(5000);
    let expected = PerformNotificationAction { notification_id: 42, is_positive: true };
    assert_eq!(c.ask_for_action(5042, true), expected.to_vec());
}

#[test]
fn host_id_wraps() {
    let mut c = comm(99_999_000);
    let outs = c.on_ds_change(&notification_reply(0xFFFF_FFFF, "a", "", ""));
    assert!(outs.is_ok());
    let preload = AppAttributes { app_id: "a".to_string(), app_name: "A".to_string() };
    let shown = c.on_app_attributes(&preload);
    match &shown[0] {
        Outgoing::Show(d) => assert_eq!(d.id, 99_998_999),
        _ => panic!("expected a notification"),
    }
    let back = PerformNotificationAction { notification_id: 0xFFFF_FFFF, is_positive: false };
    assert_eq!(c.ask_for_action(99_998_999, false), back.to_vec());
}

#[test]
fn malformed_frames_change_nothing() {
    let mut c = comm(1000);
    assert_eq!(c.on_ns_change(&[0x05, 0, 0, 0, 0, 0, 0, 0]), Err(DecodeError::MalformedFrame));
    assert_eq!(c.on_ds_change(&[0x00, 0x01]), Err(DecodeError::Incomplete));
    assert_eq!(c.on_ds_change(&[0x02]).unwrap(), vec![]);
    assert_eq!(c.queue_len(), 0);
}

#[test]
fn random_id_base_in_range() {
    let mut bases = Vec::new();
    for _ in 0..50 {
        let c = DeviceCommunicator::new("/d".to_string(), "n".to_string());
        let b = c.id_base_value();
        assert!(b >= 1000 && b < 100_000_000);
        assert_eq!(b % 1000, 0);
        bases.push(b);
    }
    bases.sort();
    bases.dedup();
    assert!(bases.len() > 1);
}
