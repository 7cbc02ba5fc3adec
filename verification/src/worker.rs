//! The background worker's commands and events, and the decisions it makes
//! between network calls: what it reports, and which devices it keeps
//! retrying with a stepped backoff (5 s, 10 s, 30 s, then 60 s until the
//! device answers again).
use vstd::prelude::*;
use vstd::string::*;
use std::time::Duration;
use crate::error::GoveeError;
use crate::models::{Color, Device, DeviceState};
use crate::table::{MacMap, pairs_match};
use crate::text::{decimal, push_decimal};
use crate::flow::Job;

verus! {

/// Commands sent from the GUI thread to the async worker.
#[derive(Debug)]
pub enum Command {
    SetPower(Device, bool),
    SetBrightness(Device, u8),
    SetColor(Device, Color),
    SetColorTemp(Device, u16),
    RefreshState(Device),
    /// Refresh the state of every known device at once.
    RefreshAll,
    Rediscover,
    /// Send the same action to every device in the list, then refresh each.
    Broadcast(Vec<Device>, BroadcastAction),
    /// Apply a scene: turn each device on, set its paired colour and brightness,
    /// then refresh.  Each entry is `(device, rgb_color, brightness_pct)`.
    ApplyScene(Vec<(Device, Color, u8)>),
}

/// The control action applied to all devices in a [`Command::Broadcast`].
#[derive(Debug, Clone, Copy, PartialEq, Eq, Structural)]
pub enum BroadcastAction {
    Power(bool),
    Brightness(u8),
    Color(Color),
    ColorTemp(u16),
}

/// Events sent from the async worker back to the GUI thread.
#[derive(Debug)]
pub enum WorkerEvent {
    Discovered(Vec<Device>),
    StateUpdated { mac: String, state: DeviceState },
    /// A device failed a state refresh and has entered the reconnect backoff.
    DeviceOffline(String),
    /// A device that was offline has successfully responded again.
    DeviceOnline(String),
    Status(String),
    Error(String),
}

/// A worker event with its texts taken as character sequences.
pub enum EventView {
    Discovered(Seq<Device>),
    StateUpdated(Seq<char>, DeviceState),
    DeviceOffline(Seq<char>),
    DeviceOnline(Seq<char>),
    Status(Seq<char>),
    Error(Seq<char>),
}

impl View for WorkerEvent {
    type V = EventView;

    open spec fn view(&self) -> EventView {
        match self {
            WorkerEvent::Discovered(d) => EventView::Discovered(d@),
            WorkerEvent::StateUpdated { mac, state } => EventView::StateUpdated(mac@, *state),
            WorkerEvent::DeviceOffline(m) => EventView::DeviceOffline(m@),
            WorkerEvent::DeviceOnline(m) => EventView::DeviceOnline(m@),
            WorkerEvent::Status(s) => EventView::Status(s@),
            WorkerEvent::Error(s) => EventView::Error(s@),
        }
    }
}

/// The views of a list of events.
pub open spec fn events_view(v: Seq<WorkerEvent>) -> Seq<EventView> {
    v.map_values(|e: WorkerEvent| e@)
}

// ── Backoff ──────────────────────────────────────────────────────────────────

/// Seconds to wait before the next retry after `retry_count` failed retries:
/// 5, 10, 30, then 60 from the fourth on.
pub open spec fn backoff_seconds(retry_count: nat) -> nat {
    if retry_count == 0 {
        5
    } else if retry_count == 1 {
        10
    } else if retry_count == 2 {
        30
    } else {
        60
    }
}

/// What `Duration::from_secs` returns for a number of seconds.
pub uninterp spec fn duration_of_secs(secs: u64) -> Duration;

/// Calls `std::time::Duration::from_secs`; the result is named by `duration_of_secs`.
#[verifier::external_body]
fn duration_from_secs(secs: u64) -> (d: Duration)
    ensures
        d == duration_of_secs(secs),
{
    Duration::from_secs(secs)
}

/// The backoff in seconds after `retry_count` failed retries.
pub fn backoff_secs(retry_count: u32) -> (s: u64)
    ensures
        s == backoff_seconds(retry_count as nat),
{
    if retry_count == 0 {
        5
    } else if retry_count == 1 {
        10
    } else if retry_count == 2 {
        30
    } else {
        60
    }
}

/// The backoff after `retry_count` failed retries, as a `Duration`.
pub fn backoff(retry_count: u32) -> (d: Duration)
    ensures
        d == duration_of_secs(backoff_seconds(retry_count as nat) as u64),
{
    duration_from_secs(backoff_secs(retry_count))
}

/// The backoff steps up and then stays: each step is at least the one
/// before, every step lies in 5–60 seconds, and from the fourth retry on it is 60 seconds.
pub proof fn backoff_steps(retry_count: nat)
    ensures
        backoff_seconds(retry_count) <= backoff_seconds(retry_count + 1),
        5 <= backoff_seconds(retry_count) <= 60,
        retry_count >= 3 ==> backoff_seconds(retry_count) == 60,
{
}

// ── Offline table ───────────────────────────────────────────────────────────

/// A device that failed a state refresh and is being retried.
pub struct OfflineEntry {
    pub device: Device,
    /// How many retries have failed so far.
    pub retry_count: u32,
    /// When the next retry is due, in milliseconds on the worker's clock.
    pub next_retry_ms: u64,
}

/// The latest time (in milliseconds) the worker's clock may show: the
/// longest backoff must still fit after it.
pub open spec fn clock_ok(now_ms: u64) -> bool {
    now_ms <= u64::MAX - 60_000
}

// ── Messages ─────────────────────────────────────────────────────────────────

pub open spec fn on_off_text(on: bool) -> Seq<char> {
    if on {
        "ON"@
    } else {
        "OFF"@
    }
}

pub open spec fn discovering_message() -> Seq<char> {
    "Discovering devices\u{2026}"@
}

pub open spec fn no_devices_message() -> Seq<char> {
    "No devices found. Enable LAN Control in the Govee app."@
}

pub open spec fn found_message(count: nat) -> Seq<char> {
    "Found "@ + decimal(count) + " device(s). Refreshing state\u{2026}"@
}

pub open spec fn ready_message(count: nat) -> Seq<char> {
    "Ready \u{2014} "@ + decimal(count) + " device(s)."@
}

pub open spec fn discovery_failed_message(err: Seq<char>) -> Seq<char> {
    "Discovery failed: "@ + err
}

pub open spec fn offline_message(name: Seq<char>) -> Seq<char> {
    name + " is offline \u{2014} retrying\u{2026}"@
}

pub open spec fn reconnected_message(name: Seq<char>) -> Seq<char> {
    name + " reconnected."@
}

pub open spec fn control_done_message(name: Seq<char>, action: BroadcastAction) -> Seq<char> {
    match action {
        BroadcastAction::Power(on) => name + " turned "@ + on_off_text(on) + "."@,
        BroadcastAction::Brightness(pct) => name + " brightness \u{2192} "@ + decimal(pct as nat) + "%."@,
        BroadcastAction::Color(c) => name + " color \u{2192} "@ + c.hex_text() + "."@,
        BroadcastAction::ColorTemp(k) => name + " color temp \u{2192} "@ + decimal(k as nat) + "K."@,
    }
}

pub open spec fn control_failed_message(action: BroadcastAction, err: Seq<char>) -> Seq<char> {
    match action {
        BroadcastAction::Power(_) => "Power error: "@ + err,
        BroadcastAction::Brightness(_) => "Brightness error: "@ + err,
        BroadcastAction::Color(_) => "Color error: "@ + err,
        BroadcastAction::ColorTemp(_) => "Color temp error: "@ + err,
    }
}

pub open spec fn refreshed_message(name: Seq<char>) -> Seq<char> {
    name + " state refreshed."@
}

pub open spec fn nothing_to_refresh_message() -> Seq<char> {
    "No devices to refresh."@
}

pub open spec fn refreshing_message(count: nat) -> Seq<char> {
    "Refreshing "@ + decimal(count) + " device(s)\u{2026}"@
}

pub open spec fn refreshed_all_message(online: nat, count: nat) -> Seq<char> {
    "Refreshed \u{2014} "@ + decimal(online) + "/"@ + decimal(count) + " online."@
}

pub open spec fn applying_scene_message(count: nat) -> Seq<char> {
    "Applying scene to "@ + decimal(count) + " device(s)\u{2026}"@
}

pub open spec fn scene_applied_message() -> Seq<char> {
    "Scene applied."@
}

pub open spec fn broadcast_message(action: BroadcastAction) -> Seq<char> {
    match action {
        BroadcastAction::Power(on) => "Turning all lights "@ + on_off_text(on) + "\u{2026}"@,
        BroadcastAction::Brightness(pct) => "Setting all brightness \u{2192} "@ + decimal(pct as nat)
            + "%\u{2026}"@,
        BroadcastAction::Color(c) => "Setting all color \u{2192} "@ + c.hex_text() + "\u{2026}"@,
        BroadcastAction::ColorTemp(k) => "Setting all color temp \u{2192} "@ + decimal(k as nat)
            + "K\u{2026}"@,
    }
}

pub open spec fn broadcast_failed_message(name: Seq<char>, err: Seq<char>) -> Seq<char> {
    name + ": "@ + err
}

pub open spec fn broadcast_done_message() -> Seq<char> {
    "All lights updated."@
}

fn on_off_str(on: bool) -> (s: &'static str)
    ensures
        s@ == on_off_text(on),
{
    if on {
        "ON"
    } else {
        "OFF"
    }
}

/// A status event with the text of a string slice.
fn status_of(text: &str) -> (e: WorkerEvent)
    ensures
        e@ == EventView::Status(text@),
{
    WorkerEvent::Status(String::from_str(text))
}

// ── Decisions ────────────────────────────────────────────────────────────────

/// An offline entry after one more failed attempt at `now_ms`: one more
/// failed retry, and the next retry due after the backoff for that count.
pub open spec fn bumped(e: OfflineEntry, now_ms: u64) -> OfflineEntry {
    OfflineEntry {
        device: e.device,
        retry_count: (e.retry_count + 1) as u32,
        next_retry_ms: (now_ms + backoff_seconds((e.retry_count + 1) as nat) * 1000) as u64,
    }
}

/// The entry for `mac`, if there is one, can count one more failed attempt.
pub open spec fn can_bump(table: Map<Seq<char>, OfflineEntry>, mac: Seq<char>) -> bool {
    table.contains_key(mac) ==> table[mac].retry_count < u32::MAX
}

/// What the offline table becomes after a state refresh of `device`: a
/// device that answered leaves it; one that did not enters it with no failed
/// retries and its first retry due after the first backoff step, or, when it
/// is already there, has its backoff updated as after a failed retry.
pub open spec fn table_after_refresh(
    table: Map<Seq<char>, OfflineEntry>,
    device: Device,
    answered: bool,
    now_ms: u64,
) -> Map<Seq<char>, OfflineEntry> {
    if answered {
        table.remove(device.mac@)
    } else if table.contains_key(device.mac@) {
        table.insert(device.mac@, bumped(table[device.mac@], now_ms))
    } else {
        table.insert(
            device.mac@,
            OfflineEntry {
                device,
                retry_count: 0,
                next_retry_ms: (now_ms + backoff_seconds(0) * 1000) as u64,
            },
        )
    }
}

/// What the offline table becomes after a retry of the offline device `mac`
/// at `now_ms`: a device that answered leaves it; one that did not has its
/// backoff updated. A mac that is not in the table changes nothing.
pub open spec fn table_after_retry(
    table: Map<Seq<char>, OfflineEntry>,
    mac: Seq<char>,
    answered: bool,
    now_ms: u64,
) -> Map<Seq<char>, OfflineEntry> {
    if !table.contains_key(mac) {
        table
    } else if answered {
        table.remove(mac)
    } else {
        table.insert(mac, bumped(table[mac], now_ms))
    }
}

/// The events of a state refresh: a device that answered is announced back
/// online (when it was offline) and its state is reported; a device that did
/// not answer is announced offline only the first time.
pub open spec fn refresh_events(
    was_offline: bool,
    device: Device,
    result: Result<DeviceState, GoveeError>,
) -> Seq<EventView> {
    match result {
        Ok(state) => if was_offline {
            seq![
                EventView::DeviceOnline(device.mac@),
                EventView::StateUpdated(device.mac@, state),
            ]
        } else {
            seq![EventView::StateUpdated(device.mac@, state)]
        },
        Err(_) => if was_offline {
            seq![]
        } else {
            seq![
                EventView::DeviceOffline(device.mac@),
                EventView::Error(offline_message(device.display_text())),
            ]
        },
    }
}

/// The macs whose retry is due at `now_ms`.
pub open spec fn is_due(table: Map<Seq<char>, OfflineEntry>, mac: Seq<char>, now_ms: u64) -> bool {
    table.contains_key(mac) && table[mac].next_retry_ms <= now_ms
}

/// The set of macs of a list of devices.
pub open spec fn mac_set(devices: Seq<Device>) -> Set<Seq<char>> {
    Set::new(|k: Seq<char>| exists|i: int| 0 <= i < devices.len() && devices[i].mac@ == k)
}

/// A device that stops answering is announced offline once: the first failed
/// refresh reports it and records it with no failed retries; a second failed
/// refresh reports nothing and only updates its backoff (one failed retry,
/// the next due 10 s later); every other entry stays as it was.
pub proof fn offline_announced_once(
    table: Map<Seq<char>, OfflineEntry>,
    device: Device,
    first: GoveeError,
    second: GoveeError,
    first_ms: u64,
    second_ms: u64,
)
    requires
        !table.contains_key(device.mac@),
        clock_ok(first_ms),
    ensures
        ({
            let after = table_after_refresh(table, device, false, first_ms);
            &&& refresh_events(false, device, Err(first)) == seq![
                EventView::DeviceOffline(device.mac@),
                EventView::Error(offline_message(device.display_text())),
            ]
            &&& after.contains_key(device.mac@)
            &&& after[device.mac@].retry_count == 0
            &&& after[device.mac@].next_retry_ms == first_ms + 5000
            &&& refresh_events(after.contains_key(device.mac@), device, Err(second)).len() == 0
            &&& table_after_refresh(after, device, false, second_ms) == after.insert(
                device.mac@,
                OfflineEntry {
                    device,
                    retry_count: 1,
                    next_retry_ms: (second_ms + 10000) as u64,
                },
            )
        }),
{
}

/// The offline table after failed retries of `mac` at each of `times`, in order.
pub open spec fn after_failed_retries(
    table: Map<Seq<char>, OfflineEntry>,
    mac: Seq<char>,
    times: Seq<u64>,
) -> Map<Seq<char>, OfflineEntry>
    decreases times.len(),
{
    if times.len() == 0 {
        table
    } else {
        table_after_retry(after_failed_retries(table, mac, times.drop_last()), mac, false, times.last())
    }
}

proof fn lemma_failed_retries(table: Map<Seq<char>, OfflineEntry>, device: Device, t0: u64, times: Seq<u64>)
    requires
        !table.contains_key(device.mac@),
        clock_ok(t0),
        forall|j: int| 0 <= j < times.len() ==> clock_ok(#[trigger] times[j]),
        times.len() < u32::MAX,
    ensures
        ({
            let after = after_failed_retries(table_after_refresh(table, device, false, t0), device.mac@, times);
            &&& after.contains_key(device.mac@)
            &&& after[device.mac@].retry_count == times.len()
            &&& after[device.mac@].next_retry_ms == if times.len() == 0 {
                t0 + 5000
            } else {
                times.last() + backoff_seconds(times.len()) * 1000
            }
            &&& after.remove(device.mac@) == table
        }),
    decreases times.len(),
{
    let mac = device.mac@;
    let start = table_after_refresh(table, device, false, t0);
    if times.len() == 0 {
        assert(start.remove(mac) =~= table);
    } else {
        let front = times.drop_last();
        assert forall|j: int| 0 <= j < front.len() implies clock_ok(#[trigger] front[j]) by {
            assert(front[j] == times[j]);
        }
        lemma_failed_retries(table, device, t0, front);
        let before = after_failed_retries(start, mac, front);
        let after = after_failed_retries(start, mac, times);
        assert(after == before.insert(mac, bumped(before[mac], times.last())));
        assert(clock_ok(times[times.len() - 1]));
        assert(after.remove(mac) =~= before.remove(mac));
    }
}

/// The whole reconnect schedule of a device that keeps failing: once a
/// refresh at `t0` finds it offline, and it is retried only when due and
/// fails each time (at `times`), the first retry comes no sooner than 5 s
/// after `t0`, retry `j + 1` no sooner than the backoff for `j` failed
/// retries after retry `j` (5 s, 10 s, 30 s, then 60 s), the device stays
/// offline with one failed retry counted per retry, its next retry is due
/// after the backoff for that count, and no other entry changes.
pub proof fn retry_schedule(table: Map<Seq<char>, OfflineEntry>, device: Device, t0: u64, times: Seq<u64>)
    requires
        !table.contains_key(device.mac@),
        clock_ok(t0),
        forall|j: int| 0 <= j < times.len() ==> clock_ok(#[trigger] times[j]),
        times.len() < u32::MAX,
        forall|j: int|
            0 <= j < times.len() ==> is_due(
                after_failed_retries(table_after_refresh(table, device, false, t0), device.mac@, times.take(j)),
                device.mac@,
                #[trigger] times[j],
            ),
    ensures
        times.len() > 0 ==> times[0] >= t0 + 5000,
        forall|j: int|
            0 < j < times.len() ==> #[trigger] times[j] >= times[j - 1] + backoff_seconds((j - 1) as nat + 1)
                * 1000,
        ({
            let after = after_failed_retries(table_after_refresh(table, device, false, t0), device.mac@, times);
            &&& after.contains_key(device.mac@)
            &&& after[device.mac@].retry_count == times.len()
            &&& after[device.mac@].next_retry_ms == if times.len() == 0 {
                t0 + 5000
            } else {
                times.last() + backoff_seconds(times.len()) * 1000
            }
            &&& after.remove(device.mac@) == table
        }),
{
    lemma_failed_retries(table, device, t0, times);
    assert forall|j: int| #![trigger times[j]] 0 <= j < times.len() implies (if j == 0 {
        times[j] >= t0 + 5000
    } else {
        times[j] >= times[j - 1] + backoff_seconds((j - 1) as nat + 1) * 1000
    }) by {
        let pre = times.take(j);
        assert forall|i: int| 0 <= i < pre.len() implies clock_ok(#[trigger] pre[i]) by {
            assert(pre[i] == times[i]);
        }
        lemma_failed_retries(table, device, t0, pre);
        if j > 0 {
            assert(pre.last() == times[j - 1]);
        }
        assert(clock_ok(times[j]));
    }
    if times.len() > 0 {
        assert(times[0] >= t0 + 5000);
    }
}

/// A device that answers a refresh is no longer offline, and it is announced
/// back online exactly when it was offline before.
pub proof fn answer_ends_offline(table: Map<Seq<char>, OfflineEntry>, device: Device, state: DeviceState, now_ms: u64)
    ensures
        !table_after_refresh(table, device, true, now_ms).contains_key(device.mac@),
        refresh_events(table.contains_key(device.mac@), device, Ok(state)).last() == EventView::StateUpdated(
            device.mac@,
            state,
        ),
        (refresh_events(table.contains_key(device.mac@), device, Ok(state))[0] == EventView::DeviceOnline(
            device.mac@,
        )) <==> table.contains_key(device.mac@),
{
}

/// A device that goes offline at `now_ms` is first due for a retry five
/// seconds later, and not before.
pub proof fn first_retry_after_five_seconds(
    table: Map<Seq<char>, OfflineEntry>,
    device: Device,
    now_ms: u64,
    t: u64,
)
    requires
        !table.contains_key(device.mac@),
        clock_ok(now_ms),
    ensures
        is_due(table_after_refresh(table, device, false, now_ms), device.mac@, t) <==> t >= now_ms + 5000,
{
}

/// The state the worker keeps between commands: every device discovered in
/// this session, and the devices being retried.
pub struct WorkerState {
    pub known: Vec<Device>,
    pub offline: MacMap<OfflineEntry>,
    /// The command in progress.
    pub job: Job,
}

pub(crate) fn copy_devices(devices: &Vec<Device>) -> (r: Vec<Device>)
    ensures
        r@ == devices@,
{
    let mut r: Vec<Device> = Vec::new();
    let mut i: usize = 0;
    while i < devices.len()
        invariant
            i <= devices@.len(),
            r@ == devices@.subrange(0, i as int),
        decreases devices@.len() - i,
    {
        r.push(devices[i].duplicate());
        i = i + 1;
        proof {
            assert(r@ =~= devices@.subrange(0, i as int));
        }
    }
    proof {
        assert(devices@.subrange(0, devices@.len() as int) =~= devices@);
    }
    r
}

impl WorkerState {
    pub fn new() -> (w: WorkerState)
        ensures
            w.known@.len() == 0,
            w.offline@ == Map::<Seq<char>, OfflineEntry>::empty(),
            w.job == Job::Idle,
    {
        WorkerState { known: Vec::new(), offline: MacMap::new(), job: Job::Idle }
    }

    /// The status shown while a discovery runs.
    pub fn begin_discovery(&self) -> (e: WorkerEvent)
        ensures
            e@ == EventView::Status(discovering_message()),
    {
        status_of("Discovering devices\u{2026}")
    }

    /// What a discovery that found `devices` reports. When it found some,
    /// they leave the offline table (a fresh discovery clears their stale
    /// entries) and the caller refreshes each of them next.
    pub fn discovery_found(&mut self, devices: &Vec<Device>) -> (events: Vec<WorkerEvent>)
        ensures
            final(self).known == old(self).known,
            final(self).job == old(self).job,
            devices@.len() == 0 ==> final(self).offline@ == old(self).offline@ && events_view(events@)
                == seq![EventView::Discovered(Seq::<Device>::empty()), EventView::Status(no_devices_message())],
            devices@.len() > 0 ==> final(self).offline@ == old(self).offline@.remove_keys(mac_set(devices@))
                && events_view(events@) == seq![
                    EventView::Discovered(devices@),
                    EventView::Status(found_message(devices@.len())),
                ],
    {
        let mut events: Vec<WorkerEvent> = Vec::new();
        if devices.len() == 0 {
            events.push(WorkerEvent::Discovered(Vec::new()));
            events.push(status_of("No devices found. Enable LAN Control in the Govee app."));
            proof {
                assert(events_view(events@) =~= seq![
                    EventView::Discovered(Seq::<Device>::empty()),
                    EventView::Status(no_devices_message()),
                ]);
            }
            return events;
        }
        events.push(WorkerEvent::Discovered(copy_devices(devices)));
        let mut text = String::new();
        text.append("Found ");
        push_decimal(&mut text, devices.len() as u64);
        text.append(" device(s). Refreshing state\u{2026}");
        proof {
            assert(text@ =~= found_message(devices@.len()));
        }
        events.push(WorkerEvent::Status(text));
        let ghost start = self.offline@;
        let mut i: usize = 0;
        while i < devices.len()
            invariant
                i <= devices@.len(),
                self.known == old(self).known,
                self.job == old(self).job,
                self.offline@ == start.remove_keys(mac_set(devices@.subrange(0, i as int))),
            decreases devices@.len() - i,
        {
            self.offline.remove(&devices[i].mac);
            proof {
                let pre = devices@.subrange(0, i as int);
                let post = devices@.subrange(0, i + 1);
                let before = mac_set(pre);
                let after = mac_set(post);
                let m = devices@[i as int].mac@;
                assert(after =~= before.insert(m)) by {
                    assert forall|k: Seq<char>| after.contains(k) implies before.insert(m).contains(k) by {
                        let j = choose|j: int| 0 <= j < post.len() && #[trigger] post[j].mac@ == k;
                        if j < i {
                            assert(pre[j].mac@ == k);
                        }
                    }
                    assert forall|k: Seq<char>| before.insert(m).contains(k) implies after.contains(k) by {
                        if k == m {
                            assert(post[i as int].mac@ == k);
                        } else {
                            let j = choose|j: int| 0 <= j < pre.len() && #[trigger] pre[j].mac@ == k;
                            assert(post[j].mac@ == k);
                        }
                    }
                }
                assert(self.offline@ =~= start.remove_keys(after));
            }
            i = i + 1;
        }
        proof {
            assert(devices@.subrange(0, devices@.len() as int) =~= devices@);
            assert(events_view(events@) =~= seq![
                EventView::Discovered(devices@),
                EventView::Status(found_message(devices@.len())),
            ]);
        }
        events
    }

    /// Records the devices of a finished discovery as the known devices and
    /// reports how many there are.
    pub fn discovery_done(&mut self, devices: Vec<Device>) -> (e: WorkerEvent)
        ensures
            final(self).known@ == devices@,
            final(self).offline@ == old(self).offline@,
            final(self).job == old(self).job,
            e@ == EventView::Status(ready_message(devices@.len())),
    {
        let count = devices.len();
        self.known = devices;
        let mut text = String::new();
        text.append("Ready \u{2014} ");
        push_decimal(&mut text, count as u64);
        text.append(" device(s).");
        proof {
            assert(text@ =~= ready_message(count as nat));
        }
        WorkerEvent::Status(text)
    }

    /// What a failed discovery reports, given the error's text.
    pub fn discovery_failed(&self, err: &str) -> (events: Vec<WorkerEvent>)
        ensures
            events_view(events@) == seq![
                EventView::Discovered(Seq::<Device>::empty()),
                EventView::Error(discovery_failed_message(err@)),
            ],
    {
        let mut text = String::new();
        text.append("Discovery failed: ");
        text.append(err);
        let mut events: Vec<WorkerEvent> = Vec::new();
        events.push(WorkerEvent::Discovered(Vec::new()));
        events.push(WorkerEvent::Error(text));
        proof {
            assert(events_view(events@) =~= seq![
                EventView::Discovered(Seq::<Device>::empty()),
                EventView::Error(discovery_failed_message(err@)),
            ]);
        }
        events
    }

    /// Counts one more failed attempt for the offline device `mac` at `now_ms`.
    fn bump(&mut self, mac: &String, now_ms: u64)
        requires
            clock_ok(now_ms),
            old(self).offline@.contains_key(mac@),
            old(self).offline@[mac@].retry_count < u32::MAX,
        ensures
            final(self).known == old(self).known,
            final(self).job == old(self).job,
            final(self).offline@ == old(self).offline@.insert(mac@, bumped(old(self).offline@[mac@], now_ms)),
    {
        let (device, retry_count) = match self.offline.get(mac) {
            Some(e) => (e.device.duplicate(), e.retry_count),
            None => {
                return;
            },
        };
        let next = retry_count + 1;
        let entry = OfflineEntry { device, retry_count: next, next_retry_ms: now_ms + backoff_secs(next) * 1000 };
        self.offline.insert(mac.clone(), entry);
    }

    /// Takes the outcome of a state refresh of `device` at time `now_ms`:
    /// updates the offline table and gives the events to send.
    pub fn refresh(
        &mut self,
        device: &Device,
        result: Result<DeviceState, GoveeError>,
        now_ms: u64,
    ) -> (events: Vec<WorkerEvent>)
        requires
            clock_ok(now_ms),
            result is Err ==> can_bump(old(self).offline@, device.mac@),
        ensures
            final(self).known == old(self).known,
            final(self).job == old(self).job,
            final(self).offline@ == table_after_refresh(old(self).offline@, *device, result is Ok, now_ms),
            events_view(events@) == refresh_events(
                old(self).offline@.contains_key(device.mac@),
                *device,
                result,
            ),
    {
        let ghost was = self.offline@.contains_key(device.mac@);
        let mut events: Vec<WorkerEvent> = Vec::new();
        match result {
            Ok(state) => {
                let removed = self.offline.remove(&device.mac);
                if removed.is_some() {
                    events.push(WorkerEvent::DeviceOnline(device.mac.clone()));
                }
                events.push(WorkerEvent::StateUpdated { mac: device.mac.clone(), state });
                proof {
                    assert(events_view(events@) =~= refresh_events(was, *device, result));
                }
            },
            Err(e) => {
                let already = self.offline.contains_key(&device.mac);
                if !already {
                    let entry = OfflineEntry {
                        device: device.duplicate(),
                        retry_count: 0,
                        next_retry_ms: now_ms + backoff_secs(0) * 1000,
                    };
                    self.offline.insert(device.mac.clone(), entry);
                    events.push(WorkerEvent::DeviceOffline(device.mac.clone()));
                    let mut text = String::new();
                    text.append(device.display_name());
                    text.append(" is offline \u{2014} retrying\u{2026}");
                    events.push(WorkerEvent::Error(text));
                } else {
                    self.bump(&device.mac, now_ms);
                }
                proof {
                    assert(events_view(events@) =~= refresh_events(was, *device, result));
                }
            },
        }
        events
    }

    /// Whether any offline device's retry is due at `now_ms`.
    pub fn any_due(&self, now_ms: u64) -> (b: bool)
        ensures
            b == exists|k: Seq<char>| #[trigger] is_due(self.offline@, k, now_ms),
    {
        let macs = self.due(now_ms);
        proof {
            if macs@.len() > 0 {
                assert(string_views(macs@)[0] == macs@[0]@);
                assert(is_due(self.offline@, macs@[0]@, now_ms));
            }
            if exists|k: Seq<char>| #[trigger] is_due(self.offline@, k, now_ms) {
                let k = choose|k: Seq<char>| #[trigger] is_due(self.offline@, k, now_ms);
                assert(string_views(macs@).contains(k));
            }
        }
        macs.len() > 0
    }

    /// The device an offline entry retries, or `None` when `mac` is not offline.
    pub fn retry_target(&self, mac: &String) -> (d: Option<Device>)
        ensures
            match d {
                Some(dev) => self.offline@.contains_key(mac@) && dev == self.offline@[mac@].device,
                None => !self.offline@.contains_key(mac@),
            },
    {
        match self.offline.get(mac) {
            Some(e) => Some(e.device.duplicate()),
            None => None,
        }
    }

    /// Takes the outcome of a retry of the offline device `mac` at `now_ms`.
    /// A device that answered leaves the table and is announced back online
    /// with its state; one that did not stays, with one more failed retry and
    /// its next retry due after the backoff for that count. A mac that is not
    /// in the table is ignored.
    pub fn retry(
        &mut self,
        mac: &String,
        result: Result<DeviceState, GoveeError>,
        now_ms: u64,
    ) -> (events: Vec<WorkerEvent>)
        requires
            clock_ok(now_ms),
            can_bump(old(self).offline@, mac@),
        ensures
            final(self).known == old(self).known,
            final(self).job == old(self).job,
            final(self).offline@ == table_after_retry(old(self).offline@, mac@, result is Ok, now_ms),
            !old(self).offline@.contains_key(mac@) ==> events@.len() == 0,
            old(self).offline@.contains_key(mac@) ==> events_view(events@) == match result {
                Ok(state) => seq![
                    EventView::DeviceOnline(mac@),
                    EventView::StateUpdated(mac@, state),
                    EventView::Status(reconnected_message(old(self).offline@[mac@].device.display_text())),
                ],
                Err(_) => Seq::<EventView>::empty(),
            },
    {
        let mut events: Vec<WorkerEvent> = Vec::new();
        let device = match self.offline.get(mac) {
            Some(e) => e.device.duplicate(),
            None => {
                return events;
            },
        };
        match result {
            Ok(state) => {
                self.offline.remove(mac);
                events.push(WorkerEvent::DeviceOnline(mac.clone()));
                events.push(WorkerEvent::StateUpdated { mac: mac.clone(), state });
                let mut text = String::new();
                text.append(device.display_name());
                text.append(" reconnected.");
                events.push(WorkerEvent::Status(text));
                proof {
                    assert(events_view(events@) =~= seq![
                        EventView::DeviceOnline(mac@),
                        EventView::StateUpdated(mac@, state),
                        EventView::Status(reconnected_message(device.display_text())),
                    ]);
                }
            },
            Err(_) => {
                self.bump(mac, now_ms);
                proof {
                    assert(events_view(events@) =~= Seq::<EventView>::empty());
                }
            },
        }
        events
    }

    /// The status after a control command succeeded on `device`.
    pub fn control_done(&self, device: &Device, action: BroadcastAction) -> (e: WorkerEvent)
        ensures
            e@ == EventView::Status(control_done_message(device.display_text(), action)),
    {
        let mut text = String::new();
        text.append(device.display_name());
        match action {
            BroadcastAction::Power(on) => {
                text.append(" turned ");
                text.append(on_off_str(on));
                text.append(".");
            },
            BroadcastAction::Brightness(pct) => {
                text.append(" brightness \u{2192} ");
                push_decimal(&mut text, pct as u64);
                text.append("%.");
            },
            BroadcastAction::Color(c) => {
                text.append(" color \u{2192} ");
                let hex = c.to_hex_string();
                text.append(hex.as_str());
                text.append(".");
            },
            BroadcastAction::ColorTemp(k) => {
                text.append(" color temp \u{2192} ");
                push_decimal(&mut text, k as u64);
                text.append("K.");
            },
        }
        proof {
            assert(text@ =~= control_done_message(device.display_text(), action));
        }
        WorkerEvent::Status(text)
    }

    /// The error after a control command failed, given the error's text.
    pub fn control_failed(&self, action: BroadcastAction, err: &str) -> (e: WorkerEvent)
        ensures
            e@ == EventView::Error(control_failed_message(action, err@)),
    {
        let mut text = String::new();
        match action {
            BroadcastAction::Power(_) => text.append("Power error: "),
            BroadcastAction::Brightness(_) => text.append("Brightness error: "),
            BroadcastAction::Color(_) => text.append("Color error: "),
            BroadcastAction::ColorTemp(_) => text.append("Color temp error: "),
        }
        text.append(err);
        proof {
            assert(text@ =~= control_failed_message(action, err@));
        }
        WorkerEvent::Error(text)
    }

    /// The status after a single refresh, given only when the device is not offline.
    pub fn refreshed(&self, device: &Device) -> (e: Option<WorkerEvent>)
        ensures
            self.offline@.contains_key(device.mac@) ==> e is None,
            !self.offline@.contains_key(device.mac@) ==> (e matches Some(ev) && ev@ == EventView::Status(
                refreshed_message(device.display_text()),
            )),
    {
        if self.offline.contains_key(&device.mac) {
            None
        } else {
            let mut text = String::new();
            text.append(device.display_name());
            text.append(" state refreshed.");
            proof {
                assert(text@ =~= refreshed_message(device.display_text()));
            }
            Some(WorkerEvent::Status(text))
        }
    }

    /// Starts a refresh of every known device: the status to show and the
    /// devices to refresh (none when no device is known).
    pub fn refresh_all_start(&self) -> (r: (WorkerEvent, Vec<Device>))
        ensures
            self.known@.len() == 0 ==> r.0@ == EventView::Status(nothing_to_refresh_message())
                && r.1@.len() == 0,
            self.known@.len() > 0 ==> r.0@ == EventView::Status(refreshing_message(self.known@.len()))
                && r.1@ == self.known@,
    {
        if self.known.len() == 0 {
            return (status_of("No devices to refresh."), Vec::new());
        }
        let mut text = String::new();
        text.append("Refreshing ");
        push_decimal(&mut text, self.known.len() as u64);
        text.append(" device(s)\u{2026}");
        proof {
            assert(text@ =~= refreshing_message(self.known@.len()));
        }
        (WorkerEvent::Status(text), copy_devices(&self.known))
    }

    /// The status after refreshing `count` devices: how many of them are not offline.
    pub fn refresh_all_done(&self, count: usize) -> (e: WorkerEvent)
        requires
            self.offline@.dom().len() <= count,
        ensures
            e@ == EventView::Status(
                refreshed_all_message((count - self.offline@.dom().len()) as nat, count as nat),
            ),
    {
        let online = count - self.offline.len();
        let mut text = String::new();
        text.append("Refreshed \u{2014} ");
        push_decimal(&mut text, online as u64);
        text.append("/");
        push_decimal(&mut text, count as u64);
        text.append(" online.");
        proof {
            assert(text@ =~= refreshed_all_message(online as nat, count as nat));
        }
        WorkerEvent::Status(text)
    }

    /// Forgets every offline device before a new discovery.
    pub fn rediscover(&mut self)
        ensures
            final(self).known == old(self).known,
            final(self).job == old(self).job,
            final(self).offline@ == Map::<Seq<char>, OfflineEntry>::empty(),
    {
        self.offline.clear();
    }

    /// The status when a scene starts on `count` devices.
    pub fn scene_start(&self, count: usize) -> (e: WorkerEvent)
        ensures
            e@ == EventView::Status(applying_scene_message(count as nat)),
    {
        let mut text = String::new();
        text.append("Applying scene to ");
        push_decimal(&mut text, count as u64);
        text.append(" device(s)\u{2026}");
        proof {
            assert(text@ =~= applying_scene_message(count as nat));
        }
        WorkerEvent::Status(text)
    }

    /// The status when a scene has been applied.
    pub fn scene_done(&self) -> (e: WorkerEvent)
        ensures
            e@ == EventView::Status(scene_applied_message()),
    {
        status_of("Scene applied.")
    }

    /// The status when an action starts on a list of devices.
    pub fn broadcast_start(&self, action: BroadcastAction) -> (e: WorkerEvent)
        ensures
            e@ == EventView::Status(broadcast_message(action)),
    {
        let mut text = String::new();
        match action {
            BroadcastAction::Power(on) => {
                text.append("Turning all lights ");
                text.append(on_off_str(on));
                text.append("\u{2026}");
            },
            BroadcastAction::Brightness(pct) => {
                text.append("Setting all brightness \u{2192} ");
                push_decimal(&mut text, pct as u64);
                text.append("%\u{2026}");
            },
            BroadcastAction::Color(c) => {
                text.append("Setting all color \u{2192} ");
                let hex = c.to_hex_string();
                text.append(hex.as_str());
                text.append("\u{2026}");
            },
            BroadcastAction::ColorTemp(k) => {
                text.append("Setting all color temp \u{2192} ");
                push_decimal(&mut text, k as u64);
                text.append("K\u{2026}");
            },
        }
        proof {
            assert(text@ =~= broadcast_message(action));
        }
        WorkerEvent::Status(text)
    }

    /// The error when an action failed on one device of a list, given the error's text.
    pub fn broadcast_failed(&self, device: &Device, err: &str) -> (e: WorkerEvent)
        ensures
            e@ == EventView::Error(broadcast_failed_message(device.display_text(), err@)),
    {
        let mut text = String::new();
        text.append(device.display_name());
        text.append(": ");
        text.append(err);
        proof {
            assert(text@ =~= broadcast_failed_message(device.display_text(), err@));
        }
        WorkerEvent::Error(text)
    }

    /// The status when an action has been applied to a list of devices.
    pub fn broadcast_done(&self) -> (e: WorkerEvent)
        ensures
            e@ == EventView::Status(broadcast_done_message()),
    {
        status_of("All lights updated.")
    }

    /// The macs of the offline devices whose retry is due at `now_ms`, each
    /// once, in the order the devices went offline.
    pub fn due(&self, now_ms: u64) -> (macs: Vec<String>)
        ensures
            string_views(macs@) == due_keys(self.offline.pair_seq(), now_ms),
            forall|k: Seq<char>|
                #![trigger is_due(self.offline@, k, now_ms)]
                is_due(self.offline@, k, now_ms) <==> string_views(macs@).contains(k),
            string_views(macs@).no_duplicates(),
    {
        let pairs = self.offline.pairs();
        let mut macs: Vec<String> = Vec::new();
        let mut i: usize = 0;
        while i < pairs.len()
            invariant
                i <= pairs@.len(),
                string_views(macs@) == due_keys(pairs@.subrange(0, i as int), now_ms),
            decreases pairs@.len() - i,
        {
            proof {
                assert(pairs@.subrange(0, i + 1).drop_last() =~= pairs@.subrange(0, i as int));
            }
            if pairs[i].1.next_retry_ms <= now_ms {
                macs.push(pairs[i].0.clone());
            }
            proof {
                assert(string_views(macs@) =~= due_keys(pairs@.subrange(0, i + 1), now_ms));
            }
            i = i + 1;
        }
        proof {
            assert(pairs@.subrange(0, pairs@.len() as int) =~= pairs@);
            lemma_due_keys_members(pairs@, now_ms);
            lemma_due_keys_distinct(pairs@, now_ms);
            assert forall|k: Seq<char>|
                #![trigger is_due(self.offline@, k, now_ms)]
                is_due(self.offline@, k, now_ms) <==> string_views(macs@).contains(k) by {
                if is_due(self.offline@, k, now_ms) {
                    let j = choose|j: int| 0 <= j < pairs@.len() && #[trigger] pairs@[j].0@ == k;
                    assert(pairs@[j].1 == self.offline@[k]);
                }
                if string_views(macs@).contains(k) {
                    let j = choose|j: int|
                        0 <= j < pairs@.len() && #[trigger] pairs@[j].0@ == k && pairs@[j].1.next_retry_ms <= now_ms;
                    assert(self.offline@.contains_key(pairs@[j].0@));
                }
            }
        }
        macs
    }
}

/// The characters of each string of a list.
pub open spec fn string_views(s: Seq<String>) -> Seq<Seq<char>> {
    s.map_values(|x: String| x@)
}

/// The keys of the pairs whose retry is due at `now_ms`, in order.
pub open spec fn due_keys(pairs: Seq<(String, OfflineEntry)>, now_ms: u64) -> Seq<Seq<char>>
    decreases pairs.len(),
{
    if pairs.len() == 0 {
        seq![]
    } else {
        let rest = due_keys(pairs.drop_last(), now_ms);
        if pairs.last().1.next_retry_ms <= now_ms {
            rest.push(pairs.last().0@)
        } else {
            rest
        }
    }
}

proof fn lemma_due_keys_members(pairs: Seq<(String, OfflineEntry)>, now_ms: u64)
    ensures
        forall|k: Seq<char>|
            #[trigger] due_keys(pairs, now_ms).contains(k) <==> exists|j: int|
                0 <= j < pairs.len() && #[trigger] pairs[j].0@ == k && pairs[j].1.next_retry_ms <= now_ms,
    decreases pairs.len(),
{
    if pairs.len() > 0 {
        let front = pairs.drop_last();
        lemma_due_keys_members(front, now_ms);
        assert forall|k: Seq<char>|
            #[trigger] due_keys(pairs, now_ms).contains(k) <==> exists|j: int|
                0 <= j < pairs.len() && #[trigger] pairs[j].0@ == k && pairs[j].1.next_retry_ms <= now_ms by {
            let rest = due_keys(front, now_ms);
            let n = pairs.len() - 1;
            assert(pairs.last() == pairs[n]);
            if due_keys(pairs, now_ms).contains(k) {
                if rest.contains(k) {
                    let j = choose|j: int|
                        0 <= j < front.len() && #[trigger] front[j].0@ == k && front[j].1.next_retry_ms <= now_ms;
                    assert(pairs[j] == front[j]);
                } else {
                    assert(pairs[n].1.next_retry_ms <= now_ms);
                    let r = rest.push(pairs[n].0@);
                    assert(due_keys(pairs, now_ms) == r);
                    let idx = choose|idx: int| 0 <= idx < r.len() && r[idx] == k;
                    if idx < rest.len() {
                        assert(rest[idx] == k);
                    }
                    assert(pairs[n].0@ == k);
                }
            }
            if exists|j: int| 0 <= j < pairs.len() && #[trigger] pairs[j].0@ == k && pairs[j].1.next_retry_ms <= now_ms {
                let j = choose|j: int|
                    0 <= j < pairs.len() && #[trigger] pairs[j].0@ == k && pairs[j].1.next_retry_ms <= now_ms;
                if j < pairs.len() - 1 {
                    assert(front[j] == pairs[j]);
                    assert(front[j].0@ == k);
                    assert(rest.contains(k));
                    let idx = choose|idx: int| 0 <= idx < rest.len() && rest[idx] == k;
                    if pairs[n].1.next_retry_ms <= now_ms {
                        let r = rest.push(pairs[n].0@);
                        assert(due_keys(pairs, now_ms) == r);
                        assert(r[idx] == k);
                    } else {
                        assert(due_keys(pairs, now_ms) == rest);
                    }
                } else {
                    let r = rest.push(pairs[n].0@);
                    assert(due_keys(pairs, now_ms) == r);
                    assert(r[rest.len() as int] == k);
                }
            }
        }
    }
}

proof fn lemma_due_keys_distinct(pairs: Seq<(String, OfflineEntry)>, now_ms: u64)
    requires
        forall|i: int, j: int|
            0 <= i < pairs.len() && 0 <= j < pairs.len() && i != j ==> #[trigger] pairs[i].0@
                != #[trigger] pairs[j].0@,
    ensures
        due_keys(pairs, now_ms).no_duplicates(),
    decreases pairs.len(),
{
    if pairs.len() > 0 {
        let front = pairs.drop_last();
        assert forall|i: int, j: int|
            0 <= i < front.len() && 0 <= j < front.len() && i != j implies #[trigger] front[i].0@
                != #[trigger] front[j].0@ by {
            assert(front[i] == pairs[i] && front[j] == pairs[j]);
        }
        lemma_due_keys_distinct(front, now_ms);
        lemma_due_keys_members(front, now_ms);
        let n = pairs.len() - 1;
        if pairs[n].1.next_retry_ms <= now_ms {
            let rest = due_keys(front, now_ms);
            if rest.contains(pairs[n].0@) {
                let j = choose|j: int|
                    0 <= j < front.len() && #[trigger] front[j].0@ == pairs[n].0@ && front[j].1.next_retry_ms
                        <= now_ms;
                assert(pairs[j].0@ != pairs[n].0@);
            }
            let r = rest.push(pairs[n].0@);
            assert forall|a: int, b: int| 0 <= a < r.len() && 0 <= b < r.len() && a != b implies r[a] != r[b] by {
                if a == rest.len() {
                    assert(rest.contains(r[b]));
                } else if b == rest.len() {
                    assert(rest.contains(r[a]));
                }
            }
        }
    }
}

} // verus!
