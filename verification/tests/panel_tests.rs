use btpanel::device::DeviceInfo;
use btpanel::panel::{ConnectOutcome, Panel, ScanOutcome};
use btpanel::roster::Roster;
use btpanel::status::{ConnectStatus, ScanStatus};

fn dev(addr: u64, name: &str, paired: bool, connected: bool) -> DeviceInfo {
    DeviceInfo { addr, name: String::from(name), paired, connected }
}

fn roster(devices: Vec<DeviceInfo>) -> Roster {
    Roster { devices }
}

fn finished_panel(devices: Vec<DeviceInfo>) -> Panel {
    let mut p = Panel::new(true);
    p.begin_scan();
    p.apply_scan_outcome(ScanOutcome::Published(roster(devices)));
    assert_eq!(p.scan_status, ScanStatus::Finished);
    p
}

#[test]
fn navigation_is_rejected_unless_scan_finished() {
    let mut p = Panel::new(true);
    p.begin_scan();
    assert_eq!(p.scan_status, ScanStatus::Scanning);
    p.nav_down();
    p.nav_up();
    assert_eq!(p.selection, 0);
}

#[test]
fn navigation_wraps_over_a_finished_roster() {
    let mut p = finished_panel(vec![
        dev(1, "a", false, false),
        dev(2, "b", false, false),
        dev(3, "c", false, false),
    ]);
    assert_eq!(p.selection, 0);
    p.nav_up();
    assert_eq!(p.selection, 2);
    p.nav_down();
    assert_eq!(p.selection, 0);
    p.nav_down();
    assert_eq!(p.selection, 1);
}

#[test]
fn navigation_over_empty_roster_keeps_index_zero() {
    let mut p = finished_panel(Vec::new());
    assert_eq!(p.roster.len(), 0);
    p.nav_up();
    assert_eq!(p.selection, 0);
    p.nav_down();
    assert_eq!(p.selection, 0);
}

#[test]
fn a_new_scan_resets_the_selection() {
    let mut p = finished_panel(vec![dev(1, "a", false, false), dev(2, "b", false, false)]);
    p.nav_down();
    assert_eq!(p.selection, 1);
    p.begin_scan();
    assert_eq!(p.selection, 0);
    assert_eq!(p.scan_status, ScanStatus::Scanning);
}

#[test]
fn republish_clamps_an_out_of_range_selection() {
    let mut p = finished_panel(vec![
        dev(1, "a", false, false),
        dev(2, "b", false, false),
        dev(3, "c", false, false),
    ]);
    p.nav_up();
    assert_eq!(p.selection, 2);
    p.apply_scan_outcome(ScanOutcome::Published(roster(vec![dev(1, "a", false, false)])));
    assert_eq!(p.selection, 0);
}

#[test]
fn connect_publish_clamps_the_selection_too() {
    let mut p = finished_panel(vec![
        dev(1, "a", false, false),
        dev(2, "b", false, false),
        dev(3, "c", false, false),
    ]);
    p.nav_up();
    assert_eq!(p.selection, 2);
    p.apply_connect_outcome(ConnectOutcome::Connected(roster(vec![
        dev(1, "a", false, false),
        dev(2, "b", false, true),
    ])));
    assert!(matches!(p.connect_status, ConnectStatus::Finished));
    assert_eq!(p.selection, 1);
}

#[test]
fn connect_command_is_dropped_while_connecting() {
    let mut p = finished_panel(vec![dev(1, "a", false, false), dev(2, "b", false, false)]);
    p.begin_connect();
    assert!(matches!(p.connect_status, ConnectStatus::Connecting));
    p.request_connect();
    assert_eq!(p.take_connect_command(), None);
}

#[test]
fn connect_command_is_dropped_unless_scan_finished() {
    let mut p = Panel::new(true);
    p.request_connect();
    assert_eq!(p.take_connect_command(), None);
    p.begin_scan();
    p.request_connect();
    assert_eq!(p.take_connect_command(), None);
}

#[test]
fn connect_command_carries_the_selection() {
    let mut p = finished_panel(vec![dev(1, "a", false, false), dev(2, "b", false, false)]);
    p.nav_down();
    p.request_connect();
    assert_eq!(p.take_connect_command(), Some(1));
    assert_eq!(p.take_connect_command(), None);
}

#[test]
fn connect_command_channel_debounces() {
    let mut p = finished_panel(vec![dev(1, "a", false, false), dev(2, "b", false, false)]);
    p.request_connect();
    p.nav_down();
    p.request_connect();
    assert_eq!(p.take_connect_command(), Some(0));
    assert_eq!(p.take_connect_command(), None);
}

#[test]
fn scan_commands_debounce_to_one_cycle() {
    let mut p = Panel::new(true);
    p.request_scan();
    p.request_scan();
    assert!(p.take_scan_command());
    assert!(!p.take_scan_command());
}

#[test]
fn power_on_issues_one_scan_command() {
    let mut p = Panel::new(false);
    p.power_on();
    assert!(p.powered);
    assert_eq!(p.scan_status, ScanStatus::Disabled);
    assert_eq!(p.selection, 0);
    assert!(p.take_scan_command());
    p.power_on();
    assert!(!p.take_scan_command());
}

#[test]
fn power_off_mid_scan_disables_and_ignores_the_publish() {
    let mut p = Panel::new(true);
    p.begin_scan();
    p.power_off();
    assert!(!p.powered);
    assert_eq!(p.scan_status, ScanStatus::Disabled);
    assert!(matches!(p.connect_status, ConnectStatus::Disabled));
    p.apply_scan_outcome(ScanOutcome::Published(roster(vec![dev(1, "a", false, false)])));
    assert_eq!(p.scan_status, ScanStatus::Disabled);
    assert_eq!(p.roster.len(), 0);
}

#[test]
fn empty_scan_window_finishes_with_empty_roster() {
    let mut p = Panel::new(true);
    p.begin_scan();
    p.apply_scan_outcome(ScanOutcome::Published(roster(Vec::new())));
    assert_eq!(p.scan_status, ScanStatus::Finished);
    assert_eq!(p.roster.len(), 0);
    p.nav_down();
    assert_eq!(p.selection, 0);
}

#[test]
fn scan_failure_leaves_the_roster_as_it_was() {
    let mut p = finished_panel(vec![dev(1, "a", false, false)]);
    p.begin_scan();
    p.apply_scan_outcome(ScanOutcome::Aborted);
    assert_eq!(p.scan_status, ScanStatus::Failed);
    assert_eq!(p.roster.len(), 1);
    assert_eq!(p.roster.get(0).addr, 1);
}

#[test]
fn surviving_connection_reconciles_connect_status() {
    let mut p = Panel::new(true);
    p.begin_scan();
    p.apply_scan_outcome(ScanOutcome::Published(roster(vec![dev(1, "a", true, true)])));
    assert!(matches!(p.connect_status, ConnectStatus::Finished));
}

#[test]
fn connect_failure_surfaces_the_reason() {
    let mut p = finished_panel(vec![dev(1, "a", false, false)]);
    p.begin_connect();
    p.apply_connect_outcome(ConnectOutcome::ConnectFailed(String::from("le-connection-abort")));
    match &p.connect_status {
        ConnectStatus::Failed { reason } => assert_eq!(reason, "le-connection-abort"),
        other => panic!("unexpected status {:?}", other),
    }
    assert_eq!(p.roster.len(), 1);
    assert!(!p.roster.get(0).connected);
}
