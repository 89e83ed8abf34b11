use ancs4linux::advertising::{
    advertisement_manufacturer_data, advertisement_service_data, AdapterInfo, AdapterWrite, AdvertisingError, AdvertisingManager, AgentCall, HciState, PairingManager,
    get_all_hci_addresses, get_hci_path,
};

fn adapters() -> Vec<AdapterInfo> {
    vec![
        AdapterInfo {
            path: "/org/bluez/hci0".to_string(),
            address: "AA:BB".to_string(),
            has_adapter: true,
            has_le_advertising: true,
        },
        AdapterInfo {
            path: "/org/bluez/hci1".to_string(),
            address: "CC:DD".to_string(),
            has_adapter: true,
            has_le_advertising: false,
        },
        AdapterInfo {
            path: "/org/bluez/hci2".to_string(),
            address: "EE:FF".to_string(),
            has_adapter: true,
            has_le_advertising: true,
        },
    ]
}

fn apply_all(adapter: &mut HciState, writes: &[AdapterWrite]) {
    for w in writes {
        adapter.apply(w);
    }
}

#[test]
fn advertising_restore() {
    let start = HciState::save("X".to_string(), false, false, false);
    let mut adapter = start.clone();
    let mut m = AdvertisingManager::new(PairingManager::new());
    let addr = "AA:BB".to_string();

    let plan = m.enable_advertising(&adapters(), &addr, "Host".to_string(), adapter.clone()).unwrap();
    assert_eq!(plan.adapter_path, Some("/org/bluez/hci0".to_string()));
    assert_eq!(plan.agent, Some(AgentCall::Register));
    assert!(plan.register_advertisement);
    assert!(!plan.unregister_advertisement);
    apply_all(&mut adapter, &plan.writes);
    assert_eq!(adapter, HciState::advertising("Host".to_string()));
    assert!(m.pairing_state().enabled_automatically);

    let plan = m.disable_advertising(&adapters(), &addr).unwrap();
    assert!(plan.unregister_advertisement);
    assert_eq!(plan.agent, Some(AgentCall::Unregister));
    apply_all(&mut adapter, &plan.writes);
    assert_eq!(adapter, start);
    assert!(!m.pairing_state().enabled);
}

#[test]
fn restore_writes_power_first() {
    let s = HciState::save("N".to_string(), true, false, true);
    assert_eq!(
        s.restore_on(),
        vec![
            AdapterWrite::Powered(true),
            AdapterWrite::Alias("N".to_string()),
            AdapterWrite::Pairable(true),
            AdapterWrite::Discoverable(false),
        ]
    );
}

#[test]
fn unknown_adapter_refused() {
    let mut m = AdvertisingManager::new(PairingManager::new());
    let r = m.enable_advertising(&adapters(), &"CC:DD".to_string(), "H".to_string(), HciState::advertising("x".to_string()));
    assert_eq!(r.err(), Some(AdvertisingError::UnknownAdapter));
    assert!(!m.pairing_state().enabled);
}

#[test]
fn disable_without_advertising_refused() {
    let mut m = AdvertisingManager::new(PairingManager::new());
    let r = m.disable_advertising(&adapters(), &"AA:BB".to_string());
    assert_eq!(r.err(), Some(AdvertisingError::NotAdvertising));
}

#[test]
fn explicit_pairing_survives_advertising() {
    let mut m = AdvertisingManager::new(PairingManager::new());
    assert_eq!(m.enable_pairing(), Some(AgentCall::Register));
    assert_eq!(m.enable_pairing(), None);
    let addr = "EE:FF".to_string();
    let plan = m.enable_advertising(&adapters(), &addr, "H".to_string(), HciState::save("a".to_string(), true, true, true)).unwrap();
    assert_eq!(plan.agent, None);
    let plan = m.disable_advertising(&adapters(), &addr).unwrap();
    assert_eq!(plan.agent, None);
    assert!(m.pairing_state().enabled);
    assert_eq!(m.disable_pairing(), Some(AgentCall::Unregister));
    assert_eq!(m.disable_pairing(), None);
}

#[test]
fn second_adapter_keeps_agent() {
    let mut m = AdvertisingManager::new(PairingManager::new());
    let a = "AA:BB".to_string();
    let e = "EE:FF".to_string();
    let s = HciState::save("a".to_string(), false, false, false);
    assert_eq!(m.enable_advertising(&adapters(), &a, "H".to_string(), s.clone()).unwrap().agent, Some(AgentCall::Register));
    assert_eq!(m.enable_advertising(&adapters(), &e, "H".to_string(), s.clone()).unwrap().agent, None);
    assert_eq!(m.disable_advertising(&adapters(), &a).unwrap().agent, None);
    assert_eq!(m.disable_advertising(&adapters(), &e).unwrap().agent, Some(AgentCall::Unregister));
}

#[test]
fn re_enabling_keeps_first_snapshot() {
    let mut m = AdvertisingManager::new(PairingManager::new());
    let a = "AA:BB".to_string();
    let start = HciState::save("orig".to_string(), true, false, false);
    m.enable_advertising(&adapters(), &a, "one".to_string(), start.clone()).unwrap();
    let plan = m.enable_advertising(&adapters(), &a, "two".to_string(), HciState::advertising("one".to_string())).unwrap();
    assert!(plan.unregister_advertisement);
    assert_eq!(m.saved_state(&a), Some(start.clone()));
    let plan = m.disable_advertising(&adapters(), &a).unwrap();
    let mut adapter = HciState::advertising("two".to_string());
    apply_all(&mut adapter, &plan.writes);
    assert_eq!(adapter, start);
}

#[test]
fn adapter_listing() {
    assert_eq!(get_all_hci_addresses(&adapters()), vec!["AA:BB".to_string(), "EE:FF".to_string()]);
    assert_eq!(get_hci_path(&adapters(), &"EE:FF".to_string()), Some("/org/bluez/hci2".to_string()));
    assert_eq!(get_hci_path(&adapters(), &"CC:DD".to_string()), None);
}

#[test]
fn advertisement_payload() {
    assert_eq!(advertisement_manufacturer_data(), vec![0x50, 0xB0, 0x13, 0xF0]);
    assert_eq!(advertisement_service_data(), vec![0x9E, 0x85, 0x39, 0x96]);
    assert_eq!(ancs4linux::advertising::ADVERTISEMENT_MANUFACTURER_ID, 0xFFFF);
}
