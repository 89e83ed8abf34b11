use ancs4linux::builders::{GetAppAttributes, GetNotificationAttributes, PerformNotificationAction};
use ancs4linux::constants::{CategoryID, CommandID, EventID, FLAG_NEGATIVE_ACTION, FLAG_POSITIVE_ACTION};
use ancs4linux::parsers::{AppAttributes, DataSourceEvent, DecodeError, Notification, NotificationAttributes};

#[test]
fn perform_action_encoding() {
    let msg = PerformNotificationAction { notification_id: 0x11223344, is_positive: true };
    assert_eq!(msg.to_vec(), vec![0x02, 0x44, 0x33, 0x22, 0x11, 0x00]);
}

#[test]
fn perform_negative_action_encoding() {
    let msg = PerformNotificationAction { notification_id: 7, is_positive: false };
    assert_eq!(msg.to_vec(), vec![0x02, 0x07, 0x00, 0x00, 0x00, 0x01]);
}

#[test]
fn notification_attributes_request_encoding() {
    let msg = GetNotificationAttributes { id: 1, get_positive_action: true, get_negative_action: false };
    assert_eq!(
        msg.to_vec(),
        vec![0x00, 0x01, 0x00, 0x00, 0x00, 0x00, 0x01, 0xFF, 0xFF, 0x03, 0xFF, 0xFF, 0x06]
    );
}

#[test]
fn notification_attributes_request_with_both_labels() {
    let msg = GetNotificationAttributes { id: 0x0102_0304, get_positive_action: true, get_negative_action: true };
    assert_eq!(
        msg.to_vec(),
        vec![0x00, 0x04, 0x03, 0x02, 0x01, 0x00, 0x01, 0xFF, 0xFF, 0x03, 0xFF, 0xFF, 0x06, 0x07]
    );
    let plain = GetNotificationAttributes { id: 9, get_positive_action: false, get_negative_action: false };
    assert_eq!(plain.to_vec().len(), 12);
}

#[test]
fn app_attributes_request_encoding() {
    let msg = GetAppAttributes { app_id: "com.foo".to_string() };
    assert_eq!(
        msg.to_vec(),
        vec![0x01, b'c', b'o', b'm', b'.', b'f', b'o', b'o', 0x00, 0x00]
    );
}

#[test]
fn app_attributes_request_utf8() {
    let msg = GetAppAttributes { app_id: "é".to_string() };
    assert_eq!(msg.to_vec(), vec![0x01, 0xC3, 0xA9, 0x00, 0x00]);
}

#[test]
fn notification_source_decode() {
    let n = Notification::parse(&[0x00, 0x00, 0x04, 0x01, 0x2A, 0x00, 0x00, 0x00]).unwrap();
    assert_eq!(n.event_id, EventID::NotificationAdded);
    assert_eq!(n.event_flags.bits, 0);
    assert_eq!(n.category(), Some(CategoryID::Social));
    assert_eq!(n.category_count, 1);
    assert_eq!(n.id, 42);
    assert!(n.is_fresh());
    assert!(!n.is_preexisting());
}

#[test]
fn notification_source_flags_and_uid() {
    let n = Notification::parse(&[0x01, 0x1C, 0x0C, 0x02, 0x78, 0x56, 0x34, 0x12]).unwrap();
    assert_eq!(n.event_id, EventID::NotificationModified);
    assert!(n.is_preexisting());
    assert!(n.has_positive_action());
    assert!(n.has_negative_action());
    assert!(n.event_flags.contains(FLAG_POSITIVE_ACTION | FLAG_NEGATIVE_ACTION));
    assert_eq!(n.category(), None);
    assert_eq!(n.id, 0x12345678);
}

#[test]
fn notification_source_unknown_event() {
    assert_eq!(
        Notification::parse(&[0x03, 0x00, 0x00, 0x00, 0x01, 0x00, 0x00, 0x00]),
        Err(DecodeError::MalformedFrame)
    );
}

#[test]
fn notification_source_short_frame() {
    assert_eq!(Notification::parse(&[0x00, 0x00, 0x00]), Err(DecodeError::MalformedFrame));
}

#[test]
fn data_source_decode() {
    let frame = [
        0x00, 0x2A, 0x00, 0x00, 0x00, 0x03, 0x00, b'a', b'b', b'c', 0x01, 0x00, b'H', 0x02, 0x00, b'h',
        b'i',
    ];
    let ev = DataSourceEvent::parse(&frame).unwrap();
    assert_eq!(ev.command_id, CommandID::GetNotificationAttributes);
    let attrs = ev.as_notification_attributes().unwrap();
    assert_eq!(attrs.id, 42);
    assert_eq!(attrs.app_id, "abc");
    assert_eq!(attrs.title, "H");
    assert_eq!(attrs.message, "hi");
    assert_eq!(attrs.positive_action, None);
    assert_eq!(attrs.negative_action, None);
}

#[test]
fn data_source_action_labels() {
    let body = [
        0x05, 0x00, 0x00, 0x00, 0x01, 0x00, b'a', 0x00, 0x00, 0x00, 0x00, 0x06, 0x02, 0x00, b'O',
        b'K', 0x07, 0x02, 0x00, b'N', b'o',
    ];
    let attrs = NotificationAttributes::parse(&body).unwrap();
    assert_eq!(attrs.id, 5);
    assert_eq!(attrs.title, "");
    assert_eq!(attrs.positive_action, Some("OK".to_string()));
    assert_eq!(attrs.negative_action, Some("No".to_string()));
}

#[test]
fn data_source_negative_label_only() {
    let body = [
        0x05, 0x00, 0x00, 0x00, 0x01, 0x00, b'a', 0x00, 0x00, 0x00, 0x00, 0x07, 0x02, 0x00, b'N',
        b'o',
    ];
    let attrs = NotificationAttributes::parse(&body).unwrap();
    assert_eq!(attrs.positive_action, None);
    assert_eq!(attrs.negative_action, Some("No".to_string()));
}

#[test]
fn data_source_incomplete() {
    let body = [0x05, 0x00, 0x00, 0x00, 0x05, 0x00, b'a', b'b'];
    assert_eq!(NotificationAttributes::parse(&body), Err(DecodeError::Incomplete));
    assert_eq!(NotificationAttributes::parse(&[0x01, 0x02]), Err(DecodeError::Incomplete));
    assert_eq!(DataSourceEvent::parse(&[]), Err(DecodeError::Incomplete));
}

#[test]
fn data_source_invalid_utf8() {
    let body = [0x05, 0x00, 0x00, 0x00, 0x01, 0x00, 0xFF, 0x00, 0x00, 0x00, 0x00];
    assert_eq!(NotificationAttributes::parse(&body), Err(DecodeError::MalformedFrame));
}

#[test]
fn data_source_unknown_command() {
    assert_eq!(DataSourceEvent::parse(&[0x09, 0x00]), Err(DecodeError::MalformedFrame));
}

#[test]
fn app_attributes_decode() {
    let body = [b'c', b'o', b'm', 0x00, 0x03, 0x00, b'F', b'o', b'o'];
    let attrs = AppAttributes::parse(&body).unwrap();
    assert_eq!(attrs.app_id, "com");
    assert_eq!(attrs.app_name, "Foo");
    let ev = DataSourceEvent::parse(&[0x01, b'x', 0x00]).unwrap();
    assert_eq!(ev.command_id, CommandID::GetAppAttributes);
    let attrs = ev.as_app_attributes().unwrap();
    assert_eq!(attrs.app_id, "x");
    assert_eq!(attrs.app_name, "<not installed>");
}

#[test]
fn app_attributes_without_terminator() {
    assert_eq!(AppAttributes::parse(&[b'a', b'b']), Err(DecodeError::Incomplete));
}
