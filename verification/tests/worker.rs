use std::time::Duration;

use govee::error::GoveeError;
use govee::models::{Color, Device, DeviceState};
use govee::worker::{backoff, backoff_secs, BroadcastAction, WorkerEvent, WorkerState};

fn dev(mac: &str) -> Device {
    Device::new(mac, "H6072")
}

fn state() -> DeviceState {
    DeviceState { on: true, brightness: 50, color: Color::new(1, 2, 3), color_temp_kelvin: 0 }
}

fn texts(events: &[WorkerEvent]) -> Vec<String> {
    events
        .iter()
        .map(|e| match e {
            WorkerEvent::Discovered(d) => format!("discovered {}", d.len()),
            WorkerEvent::StateUpdated { mac, .. } => format!("state {mac}"),
            WorkerEvent::DeviceOffline(m) => format!("offline {m}"),
            WorkerEvent::DeviceOnline(m) => format!("online {m}"),
            WorkerEvent::Status(s) => format!("status {s}"),
            WorkerEvent::Error(s) => format!("error {s}"),
        })
        .collect()
}

fn text(e: WorkerEvent) -> String {
    texts(&[e]).remove(0)
}

#[test]
fn backoff_steps_are_5_10_30_60() {
    assert_eq!(backoff(0), Duration::from_secs(5));
    assert_eq!(backoff(1), Duration::from_secs(10));
    assert_eq!(backoff(2), Duration::from_secs(30));
    assert_eq!(backoff(3), Duration::from_secs(60));
    assert_eq!(backoff(u32::MAX), Duration::from_secs(60));
    assert_eq!(backoff_secs(7), 60);
}

#[test]
fn failed_refresh_goes_offline_once() {
    let mut w = WorkerState::new();
    let d = dev("AA:01");
    let ev = w.refresh(&d, Err(GoveeError::Timeout), 1000);
    assert_eq!(
        texts(&ev),
        vec!["offline AA:01", "error H6072 is offline \u{2014} retrying\u{2026}"]
    );
    assert_eq!(w.offline.len(), 1);
    let entry = w.offline.get(&"AA:01".to_string()).unwrap();
    assert_eq!(entry.retry_count, 0);
    assert_eq!(entry.next_retry_ms, 6000);
    let ev = w.refresh(&d, Err(GoveeError::Timeout), 2000);
    assert!(ev.is_empty());
    let entry = w.offline.get(&"AA:01".to_string()).unwrap();
    assert_eq!((entry.retry_count, entry.next_retry_ms), (1, 12000));
    w.refresh(&d, Err(GoveeError::Timeout), 3000);
    let entry = w.offline.get(&"AA:01".to_string()).unwrap();
    assert_eq!((entry.retry_count, entry.next_retry_ms), (2, 33000));
    assert_eq!(w.offline.len(), 1);
}

#[test]
fn answer_brings_device_back_online() {
    let mut w = WorkerState::new();
    let d = dev("AA:01");
    let ev = w.refresh(&d, Ok(state()), 0);
    assert_eq!(texts(&ev), vec!["state AA:01"]);
    w.refresh(&d, Err(GoveeError::Timeout), 0);
    let ev = w.refresh(&d, Ok(state()), 10);
    assert_eq!(texts(&ev), vec!["online AA:01", "state AA:01"]);
    assert_eq!(w.offline.len(), 0);
}

#[test]
fn due_and_retry_follow_backoff() {
    let mut w = WorkerState::new();
    let mut named = dev("AA:01");
    named.name = Some("Lamp".to_string());
    w.refresh(&named, Err(GoveeError::Timeout), 0);
    w.refresh(&dev("AA:02"), Err(GoveeError::Timeout), 3000);
    assert!(!w.any_due(4999));
    assert!(w.due(4999).is_empty());
    assert!(w.any_due(5000));
    assert_eq!(w.due(5000), vec!["AA:01".to_string()]);
    assert_eq!(w.due(8000), vec!["AA:01".to_string(), "AA:02".to_string()]);

    let mac = "AA:01".to_string();
    assert_eq!(w.retry_target(&mac).unwrap().display_name(), "Lamp");
    let ev = w.retry(&mac, Err(GoveeError::Timeout), 5000);
    assert!(ev.is_empty());
    let e = w.offline.get(&mac).unwrap();
    assert_eq!((e.retry_count, e.next_retry_ms), (1, 15000));
    w.retry(&mac, Err(GoveeError::Timeout), 15000);
    let e = w.offline.get(&mac).unwrap();
    assert_eq!((e.retry_count, e.next_retry_ms), (2, 45000));
    w.retry(&mac, Err(GoveeError::Timeout), 45000);
    w.retry(&mac, Err(GoveeError::Timeout), 105000);
    let e = w.offline.get(&mac).unwrap();
    assert_eq!((e.retry_count, e.next_retry_ms), (4, 165000));

    let ev = w.retry(&mac, Ok(state()), 165000);
    assert_eq!(texts(&ev), vec!["online AA:01", "state AA:01", "status Lamp reconnected."]);
    assert!(w.retry_target(&mac).is_none());
    assert!(w.retry(&mac, Ok(state()), 0).is_empty());
}

#[test]
fn discovery_messages_and_table() {
    let mut w = WorkerState::new();
    assert_eq!(text(w.begin_discovery()), "status Discovering devices\u{2026}");
    let ev = w.discovery_found(&vec![]);
    assert_eq!(
        texts(&ev),
        vec!["discovered 0", "status No devices found. Enable LAN Control in the Govee app."]
    );
    w.refresh(&dev("AA:01"), Err(GoveeError::Timeout), 0);
    w.refresh(&dev("AA:09"), Err(GoveeError::Timeout), 0);
    let found = vec![dev("AA:01"), dev("AA:02")];
    let ev = w.discovery_found(&found);
    assert_eq!(
        texts(&ev),
        vec!["discovered 2", "status Found 2 device(s). Refreshing state\u{2026}"]
    );
    assert!(!w.offline.contains_key(&"AA:01".to_string()));
    assert!(w.offline.contains_key(&"AA:09".to_string()));
    assert_eq!(text(w.discovery_done(found)), "status Ready \u{2014} 2 device(s).");
    assert_eq!(w.known.len(), 2);
    assert_eq!(
        texts(&w.discovery_failed("network error: boom")),
        vec!["discovered 0", "error Discovery failed: network error: boom"]
    );
    w.rediscover();
    assert_eq!(w.offline.len(), 0);
}

#[test]
fn control_messages() {
    let w = WorkerState::new();
    let d = dev("AA:01");
    assert_eq!(text(w.control_done(&d, BroadcastAction::Power(true))), "status H6072 turned ON.");
    assert_eq!(text(w.control_done(&d, BroadcastAction::Power(false))), "status H6072 turned OFF.");
    assert_eq!(
        text(w.control_done(&d, BroadcastAction::Brightness(75))),
        "status H6072 brightness \u{2192} 75%."
    );
    assert_eq!(
        text(w.control_done(&d, BroadcastAction::Color(Color::new(255, 0, 16)))),
        "status H6072 color \u{2192} #FF0010."
    );
    assert_eq!(
        text(w.control_done(&d, BroadcastAction::ColorTemp(4000))),
        "status H6072 color temp \u{2192} 4000K."
    );
    assert_eq!(
        text(w.control_failed(BroadcastAction::Power(true), "timeout")),
        "error Power error: timeout"
    );
    assert_eq!(
        text(w.control_failed(BroadcastAction::Brightness(0), "x")),
        "error Brightness error: x"
    );
    assert_eq!(text(w.control_failed(BroadcastAction::Color(Color::off()), "x")), "error Color error: x");
    assert_eq!(text(w.control_failed(BroadcastAction::ColorTemp(1), "x")), "error Color temp error: x");
}

#[test]
fn refresh_all_messages() {
    let mut w = WorkerState::new();
    let (e, devices) = w.refresh_all_start();
    assert_eq!(text(e), "status No devices to refresh.");
    assert!(devices.is_empty());
    w.discovery_done(vec![dev("AA:01"), dev("AA:02"), dev("AA:03")]);
    let (e, devices) = w.refresh_all_start();
    assert_eq!(text(e), "status Refreshing 3 device(s)\u{2026}");
    assert_eq!(devices.len(), 3);
    w.refresh(&dev("AA:02"), Err(GoveeError::Timeout), 0);
    assert_eq!(text(w.refresh_all_done(3)), "status Refreshed \u{2014} 2/3 online.");
    assert!(w.refreshed(&dev("AA:02")).is_none());
    assert_eq!(text(w.refreshed(&dev("AA:01")).unwrap()), "status H6072 state refreshed.");
}

#[test]
fn scene_and_broadcast_messages() {
    let w = WorkerState::new();
    assert_eq!(text(w.scene_start(4)), "status Applying scene to 4 device(s)\u{2026}");
    assert_eq!(text(w.scene_done()), "status Scene applied.");
    assert_eq!(
        text(w.broadcast_start(BroadcastAction::Power(false))),
        "status Turning all lights OFF\u{2026}"
    );
    assert_eq!(
        text(w.broadcast_start(BroadcastAction::Brightness(10))),
        "status Setting all brightness \u{2192} 10%\u{2026}"
    );
    assert_eq!(
        text(w.broadcast_start(BroadcastAction::Color(Color::new(0, 128, 255)))),
        "status Setting all color \u{2192} #0080FF\u{2026}"
    );
    assert_eq!(
        text(w.broadcast_start(BroadcastAction::ColorTemp(6500))),
        "status Setting all color temp \u{2192} 6500K\u{2026}"
    );
    assert_eq!(text(w.broadcast_failed(&dev("AA:01"), "boom")), "error H6072: boom");
    assert_eq!(text(w.broadcast_done()), "status All lights updated.");
}

#[test]
fn retry_schedule_steps_5_10_30_60_60() {
    let mut w = WorkerState::new();
    let mac = "AA:01".to_string();
    w.refresh(&dev("AA:01"), Err(GoveeError::Timeout), 1000);
    let mut now = 1000;
    let mut expected_gap = vec![5000, 10000, 30000, 60000, 60000, 60000];
    expected_gap.reverse();
    for k in 1..=5u32 {
        let due_at = w.offline.get(&mac).unwrap().next_retry_ms;
        assert_eq!(due_at - now, expected_gap.pop().unwrap());
        assert!(!w.any_due(due_at - 1));
        assert!(w.any_due(due_at));
        now = due_at;
        w.retry(&mac, Err(GoveeError::Timeout), now);
        assert_eq!(w.offline.get(&mac).unwrap().retry_count, k);
    }
    assert_eq!(w.offline.get(&mac).unwrap().next_retry_ms - now, 60000);
}
