use btpanel::connect::{ConnectAction, ConnectEvent, ConnectSession};
use btpanel::device::DeviceInfo;
use btpanel::roster::Roster;

fn dev(addr: u64, name: &str, paired: bool, connected: bool) -> DeviceInfo {
    DeviceInfo { addr, name: String::from(name), paired, connected }
}

fn roster(devices: Vec<DeviceInfo>) -> Roster {
    Roster { devices }
}

#[test]
fn connect_pairs_and_connects_the_selected_device() {
    let r = roster(vec![dev(1, "a", false, false), dev(2, "b", false, false)]);
    let mut s = ConnectSession::begin(r, 1);

    assert!(matches!(s.next_action(), Some(ConnectAction::QueryPaired(2))));
    s.on_event(ConnectEvent::Answer(false));
    assert!(matches!(s.next_action(), Some(ConnectAction::Pair(2))));
    s.on_event(ConnectEvent::Done);
    assert!(matches!(s.next_action(), Some(ConnectAction::QueryConnected(2))));
    s.on_event(ConnectEvent::Answer(false));
    assert!(matches!(s.next_action(), Some(ConnectAction::Connect(2))));
    s.on_event(ConnectEvent::Done);

    assert!(s.next_action().is_none());
    assert!(s.succeeded());
    let published = s.publish();
    assert!(!published.get(0).connected);
    assert!(published.get(1).connected);
    assert_eq!(published.connected_index(), Some(1));
}

#[test]
fn connect_skips_pairing_and_connecting_when_already_done() {
    let r = roster(vec![dev(1, "a", true, false)]);
    let mut s = ConnectSession::begin(r, 0);

    assert!(matches!(s.next_action(), Some(ConnectAction::QueryPaired(1))));
    s.on_event(ConnectEvent::Answer(true));
    assert!(matches!(s.next_action(), Some(ConnectAction::QueryConnected(1))));
    s.on_event(ConnectEvent::Answer(true));

    assert!(s.succeeded());
    let published = s.publish();
    assert!(published.get(0).connected);
}

#[test]
fn connect_disconnects_the_old_device_first() {
    let r = roster(vec![dev(1, "old", true, true), dev(2, "new", true, false)]);
    let mut s = ConnectSession::begin(r, 1);

    assert!(matches!(s.next_action(), Some(ConnectAction::Disconnect(1))));
    s.on_event(ConnectEvent::Done);
    assert!(!s.working.get(0).connected);
    assert!(matches!(s.next_action(), Some(ConnectAction::QueryPaired(2))));
    s.on_event(ConnectEvent::Answer(true));
    s.on_event(ConnectEvent::Answer(false));
    assert!(matches!(s.next_action(), Some(ConnectAction::Connect(2))));
    s.on_event(ConnectEvent::Done);

    assert!(s.succeeded());
    let published = s.publish();
    assert!(!published.get(0).connected);
    assert!(published.get(1).connected);
}

#[test]
fn connect_pairing_failure_keeps_flags_after_prior_disconnect() {
    let r = roster(vec![dev(1, "old", true, true), dev(2, "new", false, false)]);
    let mut s = ConnectSession::begin(r, 1);

    s.on_event(ConnectEvent::Done);
    assert!(matches!(s.next_action(), Some(ConnectAction::QueryPaired(2))));
    s.on_event(ConnectEvent::Answer(false));
    assert!(matches!(s.next_action(), Some(ConnectAction::Pair(2))));
    s.on_event(ConnectEvent::Failed(String::from("pairing rejected")));

    assert!(s.next_action().is_none());
    assert!(!s.succeeded());
    assert_eq!(s.failure_reason().as_str(), "pairing rejected");
    assert!(!s.working.get(0).connected);
    assert!(!s.working.get(1).connected);
}

#[test]
fn connect_disconnect_failure_aborts_with_flags_untouched() {
    let r = roster(vec![dev(1, "old", true, true), dev(2, "new", true, false)]);
    let mut s = ConnectSession::begin(r, 1);

    assert!(matches!(s.next_action(), Some(ConnectAction::Disconnect(1))));
    s.on_event(ConnectEvent::Failed(String::from("adapter unreachable")));

    assert!(!s.succeeded());
    assert_eq!(s.failure_reason().as_str(), "adapter unreachable");
    assert!(s.working.get(0).connected);
    assert!(!s.working.get(1).connected);
}
