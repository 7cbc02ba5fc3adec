use std::sync::mpsc;

use govee::app::{parse_hex_color, GoveeApp, Tab, MAX_GROUPS};
use govee::models::{Color, Device, DeviceState};
use govee::worker::{BroadcastAction, Command, WorkerEvent};

fn make_app() -> GoveeApp {
    let (tx, _rx) = mpsc::channel();
    let (_tx2, rx2) = mpsc::channel();
    GoveeApp::new(tx, rx2)
}

#[test]
fn parse_hex_color_valid() {
    assert_eq!(parse_hex_color("FF0000"), Some(Color::new(255, 0, 0)));
    assert_eq!(parse_hex_color("#00FF80"), Some(Color::new(0, 255, 128)));
    assert_eq!(parse_hex_color("ffffff"), Some(Color::new(255, 255, 255)));
}

#[test]
fn parse_hex_color_invalid() {
    assert_eq!(parse_hex_color("ZZZZZZ"), None);
    assert_eq!(parse_hex_color("FFF"), None);
    assert_eq!(parse_hex_color(""), None);
    assert_eq!(parse_hex_color("12345"), None);
}

#[test]
fn parse_hex_color_edge_cases() {
    // Either case, with or without one leading '#'.
    assert_eq!(parse_hex_color("#0a0B0c"), Some(Color::new(10, 11, 12)));
    // Only the forms RRGGBB and #RRGGBB are accepted.
    assert_eq!(parse_hex_color("##0a0B0c"), None);
    assert_eq!(parse_hex_color("+F+F+F"), None);
    assert_eq!(parse_hex_color("-F0000"), None);
    assert_eq!(parse_hex_color("#"), None);
    assert_eq!(parse_hex_color("#FF00001"), None);
    assert_eq!(parse_hex_color("FF 000"), None);
    assert_eq!(parse_hex_color("0x0000"), None);
    assert_eq!(parse_hex_color("ééé"), None);
    assert_eq!(parse_hex_color("aé123"), None);
    assert_eq!(parse_hex_color("zzaé1"), None);
    assert_eq!(parse_hex_color("ééé123"), None);
}

#[test]
fn hex_text_reads_back() {
    for c in [Color::new(0, 0, 0), Color::new(255, 128, 64), Color::new(1, 16, 171)] {
        assert_eq!(parse_hex_color(&c.to_hex_string()), Some(c));
    }
}

#[test]
fn app_navigation() {
    let mut app = make_app();
    app.devices = vec![
        Device::new("AA:BB:CC:DD:EE:01", "H6072"),
        Device::new("AA:BB:CC:DD:EE:02", "H6072"),
        Device::new("AA:BB:CC:DD:EE:03", "H6072"),
    ];
    app.move_up(); // no-op at top
    assert_eq!(app.selected, 0);
    app.move_down();
    assert_eq!(app.selected, 1);
    app.move_down();
    assert_eq!(app.selected, 2);
    app.move_down(); // no-op at bottom
    assert_eq!(app.selected, 2);
    app.move_up();
    assert_eq!(app.selected, 1);
}

#[test]
fn move_down_with_no_devices_stays() {
    let mut app = make_app();
    app.move_down();
    assert_eq!(app.selected, 0);
}

#[test]
fn selected_device_empty() {
    let app = make_app();
    assert!(app.selected_device().is_none());
}

#[test]
fn selected_device_returns_correct() {
    let mut app = make_app();
    app.devices = vec![
        Device::new("AA:01", "H6072"),
        Device::new("AA:02", "H6073"),
    ];
    app.selected = 1;
    assert_eq!(app.selected_device().unwrap().mac, "AA:02");
}

#[test]
fn new_app_starts_white_at_full_brightness() {
    let app = make_app();
    assert_eq!(app.status, "Starting\u{2026}");
    assert!(!app.status_is_error);
    assert_eq!(app.pending_brightness, 100);
    assert_eq!(app.pending_color, Color::white());
    assert_eq!(app.pending_color_temp, 4000);
    assert!(!app.use_color_temp);
    assert_eq!(app.states.len(), 0);
}

#[test]
fn process_events_applies_in_order() {
    let (tx, _rx) = mpsc::channel();
    let (evt_tx, evt_rx) = mpsc::channel();
    let mut app = GoveeApp::new(tx, evt_rx);
    app.selected = 3;
    evt_tx
        .send(WorkerEvent::Discovered(vec![Device::new("AA:01", "H1"), Device::new("AA:02", "H2")]))
        .unwrap();
    let warm = DeviceState { on: true, brightness: 30, color: Color::white(), color_temp_kelvin: 2700 };
    evt_tx.send(WorkerEvent::StateUpdated { mac: "AA:02".to_string(), state: warm }).unwrap();
    evt_tx.send(WorkerEvent::Error("boom".to_string())).unwrap();
    app.process_events();
    assert_eq!(app.selected, 0);
    assert_eq!(app.devices.len(), 2);
    assert_eq!(app.pending_brightness, 30);
    assert!(app.use_color_temp);
    assert_eq!(app.pending_color_temp, 2700);
    assert_eq!(app.states.get(&"AA:02".to_string()), Some(&warm));
    assert_eq!(app.status, "boom");
    assert!(app.status_is_error);

    let rgb = DeviceState { on: true, brightness: 80, color: Color::new(1, 2, 3), color_temp_kelvin: 0 };
    evt_tx.send(WorkerEvent::StateUpdated { mac: "AA:02".to_string(), state: rgb }).unwrap();
    evt_tx.send(WorkerEvent::DeviceOffline("AA:01".to_string())).unwrap();
    evt_tx.send(WorkerEvent::Status("fine".to_string())).unwrap();
    app.process_events();
    assert!(!app.use_color_temp);
    assert_eq!(app.pending_color, Color::new(1, 2, 3));
    assert_eq!(app.pending_color_temp, 2700);
    assert_eq!(app.states.get(&"AA:02".to_string()), Some(&rgb));
    assert_eq!(app.states.len(), 1);
    assert_eq!(app.status, "fine");
    assert!(!app.status_is_error);
}

#[test]
fn send_reaches_the_worker() {
    let (tx, rx) = mpsc::channel();
    let (_evt_tx, evt_rx) = mpsc::channel();
    let app = GoveeApp::new(tx, evt_rx);
    app.send(Command::RefreshAll);
    assert!(matches!(rx.try_recv(), Ok(Command::RefreshAll)));
}

#[test]
fn apply_events_takes_each_in_order() {
    let mut app = make_app();
    app.apply_events(vec![
        WorkerEvent::Status("first".to_string()),
        WorkerEvent::Discovered(vec![Device::new("AA:01", "H1")]),
        WorkerEvent::DeviceOnline("AA:01".to_string()),
        WorkerEvent::Error("last".to_string()),
    ]);
    assert_eq!(app.devices.len(), 1);
    assert_eq!(app.status, "last");
    assert!(app.status_is_error);
    app.apply_events(vec![]);
    assert_eq!(app.status, "last");
}

fn with_devices(macs: &[&str]) -> GoveeApp {
    let mut app = make_app();
    app.apply_event(WorkerEvent::Discovered(macs.iter().map(|m| Device::new(m, "H6072")).collect()));
    app
}

fn group_macs(app: &GoveeApp, idx: usize) -> Vec<String> {
    app.groups[idx].macs.clone()
}

#[test]
fn groups_are_capped_at_ten() {
    let mut app = make_app();
    assert_eq!(MAX_GROUPS, 10);
    for i in 0..10 {
        assert!(app.add_group());
        assert_eq!(app.groups[i].name, format!("Group {}", i + 1));
        assert!(app.groups[i].macs.is_empty());
    }
    assert!(!app.add_group());
    assert_eq!(app.groups.len(), 10);
}

#[test]
fn toggling_adds_then_removes_a_member() {
    let mut app = with_devices(&["AA:01", "AA:02", "AA:03"]);
    app.add_group();
    app.add_group();
    app.toggle_device_in_group(0, "AA:03");
    app.toggle_device_in_group(0, "AA:01");
    assert_eq!(group_macs(&app, 0), vec!["AA:03".to_string(), "AA:01".to_string()]);
    assert!(group_macs(&app, 1).is_empty());
    // Members come in device-list order.
    let members: Vec<String> = app.group_devices(0).into_iter().map(|d| d.mac).collect();
    assert_eq!(members, vec!["AA:01".to_string(), "AA:03".to_string()]);
    app.toggle_device_in_group(0, "AA:03");
    assert_eq!(group_macs(&app, 0), vec!["AA:01".to_string()]);
    assert!(app.group_devices(1).is_empty());
    assert!(app.group_devices(7).is_empty());
}

#[test]
fn broadcast_to_a_group_names_its_members() {
    let mut app = with_devices(&["AA:01", "AA:02"]);
    app.add_group();
    app.toggle_device_in_group(0, "AA:02");
    match app.broadcast_group(0, BroadcastAction::Power(true)) {
        Command::Broadcast(ds, BroadcastAction::Power(true)) => {
            assert_eq!(ds.len(), 1);
            assert_eq!(ds[0].mac, "AA:02");
        }
        other => panic!("unexpected {other:?}"),
    }
    match app.broadcast(BroadcastAction::Brightness(40)) {
        Command::Broadcast(ds, BroadcastAction::Brightness(40)) => assert_eq!(ds.len(), 2),
        other => panic!("unexpected {other:?}"),
    }
}

#[test]
fn deleting_a_group_returns_to_all() {
    let mut app = make_app();
    app.add_group();
    app.add_group();
    app.tab = Tab::Group(1);
    app.delete_group(0);
    assert_eq!(app.groups.len(), 1);
    assert_eq!(app.groups[0].name, "Group 2");
    assert_eq!(app.tab, Tab::All);
    app.delete_group(5);
    assert_eq!(app.groups.len(), 1);
}

#[test]
fn stale_group_tab_falls_back_to_all() {
    let mut app = make_app();
    app.add_group();
    app.tab = Tab::Group(0);
    app.reset_stale_tab();
    assert_eq!(app.tab, Tab::Group(0));
    app.tab = Tab::Group(3);
    app.reset_stale_tab();
    assert_eq!(app.tab, Tab::All);
    app.tab = Tab::Individual;
    app.reset_stale_tab();
    assert_eq!(app.tab, Tab::Individual);
}

#[test]
fn renaming_a_group() {
    let mut app = make_app();
    app.add_group();
    app.start_rename_group(0);
    assert_eq!(app.group_rename_buf, "Group 1");
    app.group_rename_buf = "Kitchen".to_string();
    app.commit_rename_group();
    assert_eq!(app.groups[0].name, "Kitchen");
    assert!(app.renaming_group.is_none());
    app.start_rename_group(0);
    app.group_rename_buf = "Nope".to_string();
    app.cancel_rename_group();
    assert_eq!(app.groups[0].name, "Kitchen");
    app.start_rename_group(4);
    assert!(app.renaming_group.is_none());
}

#[test]
fn renaming_a_device() {
    let mut app = with_devices(&["AA:01", "AA:02"]);
    assert_eq!(app.shown_name("AA:01"), "H6072");
    assert_eq!(app.shown_name("ZZ:99"), "");
    app.start_rename("AA:01");
    assert_eq!(app.renaming.as_deref(), Some("AA:01"));
    assert_eq!(app.rename_buf, "H6072");
    app.rename_buf = "Desk".to_string();
    app.commit_rename();
    assert_eq!(app.shown_name("AA:01"), "Desk");
    assert!(app.renaming.is_none());
    assert_eq!(app.rename_buf, "");
    app.start_rename("AA:02");
    app.rename_buf = "Lamp".to_string();
    app.cancel_rename();
    assert_eq!(app.shown_name("AA:02"), "H6072");
    assert_eq!(app.names.len(), 1);
    app.commit_rename();
    assert_eq!(app.names.len(), 1);
}

#[test]
fn connected_counts_named_devices_not_offline() {
    let mut app = with_devices(&["AA:01", "AA:02", "AA:03"]);
    app.names.insert("AA:01".to_string(), "Desk".to_string());
    app.names.insert("AA:02".to_string(), "Lamp".to_string());
    assert_eq!(app.connected_count(), 2);
    app.apply_event(WorkerEvent::DeviceOffline("AA:02".to_string()));
    assert!(app.offline_macs.contains_key(&"AA:02".to_string()));
    assert_eq!(app.connected_count(), 1);
    app.apply_event(WorkerEvent::DeviceOnline("AA:02".to_string()));
    assert_eq!(app.connected_count(), 2);
    app.apply_event(WorkerEvent::DeviceOffline("AA:01".to_string()));
    app.apply_event(WorkerEvent::Discovered(vec![Device::new("AA:01", "H6072")]));
    assert_eq!(app.offline_macs.len(), 0);
    assert_eq!(app.connected_count(), 1);
}
