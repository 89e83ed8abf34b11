use ancs4linux::apis::ShowNotificationData;
use ancs4linux::desktop::{pairing_request, Desktop, Notification};
use ancs4linux::pairing::{AgentAnswer, AgentRequest, PairingRejected, answer};

fn data() -> ShowNotificationData {
    ShowNotificationData {
        device_name: "Phone".to_string(),
        device_handle: "/dev".to_string(),
        app_id: "com.foo".to_string(),
        app_name: "Foo".to_string(),
        id: 5042,
        title: "T".to_string(),
        body: "B".to_string(),
        positive_action: Some("Yes".to_string()),
        negative_action: None,
    }
}

#[test]
fn desktop_show_request() {
    let mut n = Notification::new(5042);
    let req = n.show(&data(), 5000);
    assert_eq!(req.app_name, "Foo (Phone)");
    assert_eq!(req.replaces_id, 0);
    assert_eq!(req.summary, "T");
    assert_eq!(req.body, "B");
    assert_eq!(req.actions, vec!["positive-action".to_string(), "Yes".to_string()]);
    assert_eq!(req.expire_timeout, 5000);
    n.shown(17);
    assert_eq!(n.show(&data(), 5000).replaces_id, 17);
    assert_eq!(n.dismiss(), Some(17));
    assert_eq!(n.dismiss(), None);
}

#[test]
fn desktop_action_routing() {
    let mut n = Notification::new(5042);
    assert_eq!(n.on_action(&"positive-action".to_string()), None);
    n.show(&data(), 5000);
    assert_eq!(n.on_action(&"positive-action".to_string()), Some(("/dev".to_string(), 5042, true)));
    assert_eq!(n.on_action(&"negative-action".to_string()), Some(("/dev".to_string(), 5042, false)));
    assert_eq!(n.on_action(&"default".to_string()), None);
}

#[test]
fn pairing_agent_answers() {
    assert_eq!(answer(AgentRequest::RequestConfirmation(123456)), AgentAnswer::Accept { pairing_code: 123456 });
    assert_eq!(answer(AgentRequest::RequestPinCode), AgentAnswer::Reject(PairingRejected));
    assert_eq!(answer(AgentRequest::AuthorizeService), AgentAnswer::Reject(PairingRejected));
    assert_eq!(answer(AgentRequest::Cancel), AgentAnswer::Nothing);
    assert_eq!(PairingRejected.message(), "Pairing rejected");
}

#[test]
fn desktop_table() {
    let mut d = Desktop::new();
    let req = d.new_notification(&data(), 5000);
    assert_eq!(req.replaces_id, 0);
    assert!(d.notification_shown(5042, 31));
    assert!(!d.notification_shown(1, 31));
    let again = d.new_notification(&data(), 5000);
    assert_eq!(again.replaces_id, 31);
    assert_eq!(d.action_clicked(31, &"positive-action".to_string()), vec![("/dev".to_string(), 5042, true)]);
    assert!(d.action_clicked(30, &"positive-action".to_string()).is_empty());
    assert_eq!(d.dismiss_notification(5042), Some(31));
    assert_eq!(d.dismiss_notification(5042), None);
    assert_eq!(d.dismiss_notification(77), None);
    assert!(d.notification_shown(5042, 40));
    d.notification_closed(40);
    assert!(!d.notification_shown(5042, 41));
}

#[test]
fn pairing_prompt() {
    let req = pairing_request(&"123456".to_string());
    assert_eq!(req.app_name, "ancs4linux");
    assert_eq!(req.summary, "Pairing initiated");
    assert_eq!(req.body, "Pair if PIN is 123456");
    assert!(req.actions.is_empty());
    assert_eq!(req.expire_timeout, 30000);
}
