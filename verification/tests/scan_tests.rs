use btpanel::device::{DeviceInfo, DeviceProp, device_info_from_props};
use btpanel::scan::{ScanEvent, ScanSession};

fn dev(addr: u64, name: &str, paired: bool, connected: bool) -> DeviceInfo {
    DeviceInfo { addr, name: String::from(name), paired, connected }
}

#[test]
fn props_last_reported_value_wins() {
    let props = vec![
        DeviceProp::Name(String::from("headset")),
        DeviceProp::Paired(true),
        DeviceProp::Other,
        DeviceProp::Name(String::from("headset pro")),
    ];
    let info = device_info_from_props(7, &props);
    assert_eq!(info.addr, 7);
    assert_eq!(info.name, "headset pro");
    assert!(info.paired);
    assert!(!info.connected);
}

#[test]
fn props_absent_fall_back_to_defaults() {
    let info = device_info_from_props(9, &Vec::new());
    assert_eq!(info.addr, 9);
    assert_eq!(info.name, "");
    assert!(!info.paired);
    assert!(!info.connected);
    assert!(info.display_name().is_none());
}

#[test]
fn display_name_prefers_advertised_name() {
    let info = dev(3, "speaker", false, false);
    assert_eq!(info.display_name(), Some(&String::from("speaker")));
}

#[test]
fn scan_keeps_added_and_drops_removed() {
    let mut s = ScanSession::begin();
    s.apply(ScanEvent::Added(dev(1, "a", false, false)));
    s.apply(ScanEvent::Added(dev(2, "b", false, false)));
    s.apply(ScanEvent::Removed(1));
    let roster = s.finish();
    assert_eq!(roster.len(), 1);
    assert_eq!(roster.get(0).addr, 2);
    assert_eq!(roster.get(0).name, "b");
}

#[test]
fn scan_re_added_device_appears_once() {
    let mut s = ScanSession::begin();
    s.apply(ScanEvent::Added(dev(1, "first", false, false)));
    s.apply(ScanEvent::Added(dev(1, "second", true, false)));
    let roster = s.finish();
    assert_eq!(roster.len(), 1);
    assert_eq!(roster.get(0).addr, 1);
    assert_eq!(roster.get(0).name, "second");
    assert!(roster.get(0).paired);
}

#[test]
fn scan_removal_after_re_add_leaves_nothing() {
    let mut s = ScanSession::begin();
    s.apply(ScanEvent::Added(dev(1, "a", false, false)));
    s.apply(ScanEvent::Removed(1));
    s.apply(ScanEvent::Added(dev(1, "a", false, false)));
    s.apply(ScanEvent::Removed(1));
    let roster = s.finish();
    assert_eq!(roster.len(), 0);
}

#[test]
fn scan_removing_unknown_address_changes_nothing() {
    let mut s = ScanSession::begin();
    s.apply(ScanEvent::Added(dev(1, "a", false, false)));
    s.apply(ScanEvent::Removed(42));
    let roster = s.finish();
    assert_eq!(roster.len(), 1);
    assert_eq!(roster.get(0).addr, 1);
}

#[test]
fn scan_at_most_one_connected_record() {
    let mut s = ScanSession::begin();
    s.apply(ScanEvent::Added(dev(1, "a", true, true)));
    s.apply(ScanEvent::Added(dev(2, "b", true, true)));
    let roster = s.finish();
    assert_eq!(roster.len(), 2);
    assert!(!roster.get(0).connected);
    assert!(roster.get(1).connected);
    assert!(roster.any_connected());
    assert_eq!(roster.connected_index(), Some(1));
}

#[test]
fn scan_empty_window_yields_empty_roster() {
    let s = ScanSession::begin();
    let roster = s.finish();
    assert_eq!(roster.len(), 0);
    assert!(roster.is_empty());
    assert!(!roster.any_connected());
}
