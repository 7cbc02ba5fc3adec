use govee::error::GoveeError;
use govee::flow::{Action, Outcome};
use govee::models::{Color, Device, DeviceState};
use govee::worker::{BroadcastAction, Command, WorkerEvent, WorkerState};

fn dev(mac: &str) -> Device {
    Device::new(mac, "H6072")
}

fn on_state() -> DeviceState {
    DeviceState { on: true, brightness: 80, color: Color::new(9, 8, 7), color_temp_kelvin: 0 }
}

fn texts(events: &[WorkerEvent]) -> Vec<String> {
    events
        .iter()
        .map(|e| match e {
            WorkerEvent::Discovered(d) => format!("discovered {}", d.len()),
            WorkerEvent::StateUpdated { mac, .. } => format!("state {mac}"),
            WorkerEvent::DeviceOffline(m) => format!("offline {m}"),
            WorkerEvent::DeviceOnline(m) => format!("online {m}"),
            WorkerEvent::Status(s) => format!("status {s}"),
            WorkerEvent::Error(s) => format!("error {s}"),
        })
        .collect()
}

fn act(a: &Action) -> String {
    match a {
        Action::Discover => "discover".to_string(),
        Action::Control(d, _) => format!("control {}", d.mac),
        Action::SetScene(d, c, b) => format!("scene {} {} {}", d.mac, c.to_hex_string(), b),
        Action::Query(d) => format!("query {}", d.mac),
        Action::Wait => "wait".to_string(),
        Action::Idle => "idle".to_string(),
    }
}

fn step(w: &mut WorkerState, o: Outcome, now: u64) -> (Vec<String>, String) {
    assert!(w.expects(&o, now));
    let (events, action) = w.step(o, now);
    (texts(&events), act(&action))
}

fn discovered(w: &mut WorkerState, devices: Vec<Device>) {
    step(w, Outcome::Command(Command::Rediscover), 0);
    let n = devices.len();
    step(w, Outcome::Discovered(Ok(devices)), 0);
    for _ in 0..n {
        step(w, Outcome::Queried(Ok(on_state())), 0);
    }
}

#[test]
fn flow_discovery_refreshes_each_device_then_is_ready() {
    let mut w = WorkerState::new();
    let (ev, a) = step(&mut w, Outcome::Command(Command::Rediscover), 0);
    assert_eq!(ev, vec!["status Discovering devices\u{2026}"]);
    assert_eq!(a, "discover");
    let (ev, a) = step(&mut w, Outcome::Discovered(Ok(vec![dev("AA:01"), dev("AA:02")])), 0);
    assert_eq!(ev, vec!["discovered 2", "status Found 2 device(s). Refreshing state\u{2026}"]);
    assert_eq!(a, "query AA:01");
    let (ev, a) = step(&mut w, Outcome::Queried(Ok(on_state())), 100);
    assert_eq!(ev, vec!["state AA:01"]);
    assert_eq!(a, "query AA:02");
    let (ev, a) = step(&mut w, Outcome::Queried(Err(GoveeError::Timeout)), 200);
    assert_eq!(
        ev,
        vec![
            "offline AA:02",
            "error H6072 is offline \u{2014} retrying\u{2026}",
            "status Ready \u{2014} 2 device(s).",
        ]
    );
    assert_eq!(a, "idle");
    assert_eq!(w.known.len(), 2);
    assert_eq!(w.offline.get(&"AA:02".to_string()).unwrap().next_retry_ms, 5200);
    assert!(!w.any_due(5199));
    assert!(w.any_due(5200));
}

#[test]
fn flow_discovery_none_or_failed_stops() {
    let mut w = WorkerState::new();
    step(&mut w, Outcome::Command(Command::Rediscover), 0);
    let (ev, a) = step(&mut w, Outcome::Discovered(Ok(vec![])), 0);
    assert_eq!(ev, vec!["discovered 0", "status No devices found. Enable LAN Control in the Govee app."]);
    assert_eq!(a, "idle");
    step(&mut w, Outcome::Command(Command::Rediscover), 0);
    let (ev, a) = step(&mut w, Outcome::Discovered(Err("network error: boom".to_string())), 0);
    assert_eq!(ev, vec!["discovered 0", "error Discovery failed: network error: boom"]);
    assert_eq!(a, "idle");
}

#[test]
fn flow_rediscovery_forgets_offline_devices() {
    let mut w = WorkerState::new();
    w.refresh(&dev("AA:09"), Err(GoveeError::Timeout), 0);
    assert_eq!(w.offline.len(), 1);
    step(&mut w, Outcome::Command(Command::Rediscover), 0);
    assert_eq!(w.offline.len(), 0);
}

#[test]
fn flow_control_success_waits_then_refreshes() {
    let mut w = WorkerState::new();
    let (ev, a) = step(&mut w, Outcome::Command(Command::SetBrightness(dev("AA:01"), 75)), 0);
    assert!(ev.is_empty());
    assert_eq!(a, "control AA:01");
    let (ev, a) = step(&mut w, Outcome::Controlled(Ok(())), 0);
    assert_eq!(ev, vec!["status H6072 brightness \u{2192} 75%."]);
    assert_eq!(a, "wait");
    let (ev, a) = step(&mut w, Outcome::Waited, 400);
    assert!(ev.is_empty());
    assert_eq!(a, "query AA:01");
    let (ev, a) = step(&mut w, Outcome::Queried(Ok(on_state())), 450);
    assert_eq!(ev, vec!["state AA:01"]);
    assert_eq!(a, "idle");
}

#[test]
fn flow_control_failure_ends_command() {
    let mut w = WorkerState::new();
    step(&mut w, Outcome::Command(Command::SetPower(dev("AA:01"), true)), 0);
    let (ev, a) = step(&mut w, Outcome::Controlled(Err("timeout".to_string())), 0);
    assert_eq!(ev, vec!["error Power error: timeout"]);
    assert_eq!(a, "idle");
    assert!(w.expects(&Outcome::Command(Command::RefreshAll), 0));
}

#[test]
fn flow_refresh_state_reports_unless_offline() {
    let mut w = WorkerState::new();
    let (_, a) = step(&mut w, Outcome::Command(Command::RefreshState(dev("AA:01"))), 0);
    assert_eq!(a, "query AA:01");
    let (ev, a) = step(&mut w, Outcome::Queried(Ok(on_state())), 0);
    assert_eq!(ev, vec!["state AA:01", "status H6072 state refreshed."]);
    assert_eq!(a, "idle");
    step(&mut w, Outcome::Command(Command::RefreshState(dev("AA:01"))), 0);
    let (ev, _) = step(&mut w, Outcome::Queried(Err(GoveeError::Timeout)), 0);
    assert_eq!(ev, vec!["offline AA:01", "error H6072 is offline \u{2014} retrying\u{2026}"]);
}

#[test]
fn flow_refresh_all_counts_online_devices() {
    let mut w = WorkerState::new();
    let (ev, a) = step(&mut w, Outcome::Command(Command::RefreshAll), 0);
    assert_eq!(ev, vec!["status No devices to refresh."]);
    assert_eq!(a, "idle");
    discovered(&mut w, vec![dev("AA:01"), dev("AA:02"), dev("AA:03")]);
    let (ev, a) = step(&mut w, Outcome::Command(Command::RefreshAll), 0);
    assert_eq!(ev, vec!["status Refreshing 3 device(s)\u{2026}"]);
    assert_eq!(a, "query AA:01");
    step(&mut w, Outcome::Queried(Ok(on_state())), 0);
    step(&mut w, Outcome::Queried(Err(GoveeError::Timeout)), 0);
    let (ev, a) = step(&mut w, Outcome::Queried(Ok(on_state())), 0);
    assert_eq!(ev, vec!["state AA:03", "status Refreshed \u{2014} 2/3 online."]);
    assert_eq!(a, "idle");
}

#[test]
fn flow_scene_sets_each_entry_then_refreshes() {
    let mut w = WorkerState::new();
    let entries = vec![(dev("AA:01"), Color::red(), 90), (dev("AA:02"), Color::blue(), 40)];
    let (ev, a) = step(&mut w, Outcome::Command(Command::ApplyScene(entries)), 0);
    assert_eq!(ev, vec!["status Applying scene to 2 device(s)\u{2026}"]);
    assert_eq!(a, "scene AA:01 #FF0000 90");
    let (_, a) = step(&mut w, Outcome::SceneSet, 0);
    assert_eq!(a, "scene AA:02 #0000FF 40");
    let (_, a) = step(&mut w, Outcome::SceneSet, 0);
    assert_eq!(a, "wait");
    let (_, a) = step(&mut w, Outcome::Waited, 0);
    assert_eq!(a, "query AA:01");
    step(&mut w, Outcome::Queried(Ok(on_state())), 0);
    let (ev, a) = step(&mut w, Outcome::Queried(Ok(on_state())), 0);
    assert_eq!(ev, vec!["state AA:02", "status Scene applied."]);
    assert_eq!(a, "idle");
}

#[test]
fn flow_broadcast_reports_failures_and_goes_on() {
    let mut w = WorkerState::new();
    let devices = vec![dev("AA:01"), dev("AA:02")];
    let (ev, a) = step(&mut w, Outcome::Command(Command::Broadcast(devices, BroadcastAction::Power(false))), 0);
    assert_eq!(ev, vec!["status Turning all lights OFF\u{2026}"]);
    assert_eq!(a, "control AA:01");
    let (ev, a) = step(&mut w, Outcome::Controlled(Err("boom".to_string())), 0);
    assert_eq!(ev, vec!["error H6072: boom"]);
    assert_eq!(a, "control AA:02");
    let (ev, a) = step(&mut w, Outcome::Controlled(Ok(())), 0);
    assert!(ev.is_empty());
    assert_eq!(a, "wait");
    step(&mut w, Outcome::Waited, 0);
    step(&mut w, Outcome::Queried(Ok(on_state())), 0);
    let (ev, a) = step(&mut w, Outcome::Queried(Ok(on_state())), 0);
    assert_eq!(ev, vec!["state AA:02", "status All lights updated."]);
    assert_eq!(a, "idle");
}

#[test]
fn flow_empty_broadcast_only_waits() {
    let mut w = WorkerState::new();
    let (_, a) = step(&mut w, Outcome::Command(Command::Broadcast(vec![], BroadcastAction::Brightness(5))), 0);
    assert_eq!(a, "wait");
    let (ev, a) = step(&mut w, Outcome::Waited, 0);
    assert_eq!(ev, vec!["status All lights updated."]);
    assert_eq!(a, "idle");
}

#[test]
fn flow_expects_only_what_the_job_waits_for() {
    let mut w = WorkerState::new();
    assert!(!w.expects(&Outcome::Waited, 0));
    assert!(!w.expects(&Outcome::Controlled(Ok(())), 0));
    step(&mut w, Outcome::Command(Command::Rediscover), 0);
    assert!(!w.expects(&Outcome::Command(Command::RefreshAll), 0));
    assert!(!w.expects(&Outcome::SceneSet, 0));
    assert!(w.expects(&Outcome::Discovered(Ok(vec![])), 0));
}

#[test]
fn flow_failed_refresh_of_offline_device_updates_backoff() {
    let mut w = WorkerState::new();
    step(&mut w, Outcome::Command(Command::RefreshState(dev("AA:01"))), 0);
    step(&mut w, Outcome::Queried(Err(GoveeError::Timeout)), 1000);
    step(&mut w, Outcome::Command(Command::RefreshState(dev("AA:01"))), 2000);
    let (ev, a) = step(&mut w, Outcome::Queried(Err(GoveeError::Timeout)), 2000);
    assert!(ev.is_empty());
    assert_eq!(a, "idle");
    let e = w.offline.get(&"AA:01".to_string()).unwrap();
    assert_eq!((e.retry_count, e.next_retry_ms), (1, 12000));
}
