use entanglo::control::Direction;
use entanglo::device_list::{DeviceList, DeviceListEvent, RowStatus};
use entanglo::discovery::DialTracker;
use entanglo::pages::all_pages;
use entanglo::trust_store::{TrustStore, TrustedDevice};

fn device(id: &str, name: &str) -> TrustedDevice {
    TrustedDevice { device_id: id.to_string(), friendly_name: name.to_string(), trusted_since_unix_bits: 0 }
}

#[test]
fn trust_store_trusts_replaces_and_revokes() {
    let mut store = TrustStore::new();
    assert!(!store.is_trusted("mac"));
    store.trust(device("mac", "Mac"));
    store.trust(device("win", "Windows"));
    assert!(store.is_trusted("mac"));
    store.trust(device("mac", "MacBook"));
    assert_eq!(store.trusted_devices().len(), 2);
    let mac = store.trusted_devices().iter().find(|d| d.device_id == "mac").unwrap();
    assert_eq!(mac.friendly_name, "MacBook");
    store.revoke("mac");
    assert!(!store.is_trusted("mac"));
    assert!(store.is_trusted("win"));
    store.revoke("nobody");
    assert_eq!(store.trusted_devices().len(), 1);
}

#[test]
fn device_list_follows_events() {
    let mut list = DeviceList::new();
    list.handle_event(DeviceListEvent::PeerConnected { conn_id: 3, direction: Direction::Inbound });
    list.handle_event(DeviceListEvent::PeerConnected { conn_id: 1, direction: Direction::Outbound });
    let ids: Vec<u64> = list.rows().iter().map(|(c, _)| *c).collect();
    assert_eq!(ids, vec![1, 3]);
    assert_eq!(list.rows()[0].1.status(), RowStatus::Connecting);
    list.handle_event(DeviceListEvent::PeerHello { conn_id: 3, device_name: "Mac".into() });
    list.handle_event(DeviceListEvent::PairingRequested { conn_id: 3, requester_name: "Mac".into() });
    assert_eq!(list.pending().len(), 1);
    list.handle_event(DeviceListEvent::Trusted { conn_id: 3, device_id: "mac-id".into() });
    assert!(list.pending().is_empty());
    let row = &list.rows()[1].1;
    assert_eq!(row.name.as_deref(), Some("Mac"));
    assert_eq!(row.device_id.as_deref(), Some("mac-id"));
    assert_eq!(row.status(), RowStatus::Trusted);
    list.handle_event(DeviceListEvent::PairingRequested { conn_id: 1, requester_name: "Win".into() });
    assert!(list.take_pending(1));
    assert!(!list.take_pending(1));
    list.handle_event(DeviceListEvent::PeerDisconnected { conn_id: 3 });
    assert_eq!(list.rows().len(), 1);
    list.handle_event(DeviceListEvent::Other);
    assert_eq!(list.rows().len(), 1);
}

#[test]
fn each_service_is_dialed_once_until_forgotten() {
    let mut tracker = DialTracker::new();
    assert!(tracker.should_dial("Mac._entanglo._tcp.local."));
    assert!(!tracker.should_dial("Mac._entanglo._tcp.local."));
    assert!(tracker.should_dial("Win._entanglo._tcp.local."));
    tracker.forget("Mac._entanglo._tcp.local.");
    assert!(tracker.should_dial("Mac._entanglo._tcp.local."));
    assert!(!tracker.should_dial("Win._entanglo._tcp.local."));
}

#[test]
fn sidebar_pages_in_order() {
    let pages = all_pages();
    assert_eq!(pages.len(), 10);
    assert_eq!(pages[0].id, "dashboard");
    assert_eq!(pages[3].title, "Input Sharing");
    assert_eq!(pages[9].id, "logs");
}
