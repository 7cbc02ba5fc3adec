//! The worker's handling of one command, as a state machine: given what the
//! last network call gave, it says what to report, how its state changes and
//! which call to make next. The caller performs the calls and feeds their
//! outcomes back until the machine is idle again.
use vstd::prelude::*;
use crate::error::GoveeError;
use crate::models::{Color, Device, DeviceState};
use crate::worker::{
    BroadcastAction, Command, EventView, OfflineEntry, WorkerEvent, WorkerState, applying_scene_message,
    broadcast_done_message, broadcast_failed_message, broadcast_message, can_bump, clock_ok,
    control_done_message, control_failed_message, discovering_message, discovery_failed_message,
    events_view, found_message, mac_set, no_devices_message, nothing_to_refresh_message,
    ready_message, refresh_events, refreshed_all_message, refreshed_message, refreshing_message,
    scene_applied_message, table_after_refresh,
};

verus! {

/// What happens once the devices of a job have been refreshed.
pub enum Finish {
    /// Nothing more.
    Nothing,
    /// Report that the device was refreshed, unless it is offline.
    Refreshed(Device),
    /// The refreshed devices become the known devices (end of a discovery).
    Ready,
    /// Report how many of the `count` devices are online.
    RefreshedAll(usize),
    /// Report that the scene was applied.
    SceneApplied,
    /// Report that the broadcast is done.
    BroadcastDone,
}

/// The command in progress and what it waits for.
pub enum Job {
    /// No command in progress.
    Idle,
    /// Waiting for a discovery scan.
    Discovering,
    /// Waiting for the control call of a single-device command.
    Controlling(Device, BroadcastAction),
    /// Waiting for a scene's calls on the entry at the index.
    Scene(Vec<(Device, Color, u8)>, usize),
    /// Waiting for a broadcast's control call on the device at the index.
    Broadcasting(Vec<Device>, BroadcastAction, usize),
    /// Waiting the post-command delay before refreshing the devices.
    Waiting(Vec<Device>, Finish),
    /// Waiting for the state of the device at the index.
    Refreshing(Vec<Device>, usize, Finish),
}

/// A job with its lists taken as sequences.
pub enum JobView {
    Idle,
    Discovering,
    Controlling(Device, BroadcastAction),
    Scene(Seq<(Device, Color, u8)>, int),
    Broadcasting(Seq<Device>, BroadcastAction, int),
    Waiting(Seq<Device>, Finish),
    Refreshing(Seq<Device>, int, Finish),
}

impl View for Job {
    type V = JobView;

    open spec fn view(&self) -> JobView {
        match self {
            Job::Idle => JobView::Idle,
            Job::Discovering => JobView::Discovering,
            Job::Controlling(d, a) => JobView::Controlling(*d, *a),
            Job::Scene(es, i) => JobView::Scene(es@, *i as int),
            Job::Broadcasting(ds, a, i) => JobView::Broadcasting(ds@, *a, *i as int),
            Job::Waiting(ds, f) => JobView::Waiting(ds@, *f),
            Job::Refreshing(ds, i, f) => JobView::Refreshing(ds@, *i as int, *f),
        }
    }
}

/// A worker command with its lists taken as sequences.
pub enum CommandView {
    SetPower(Device, bool),
    SetBrightness(Device, u8),
    SetColor(Device, Color),
    SetColorTemp(Device, u16),
    RefreshState(Device),
    RefreshAll,
    Rediscover,
    Broadcast(Seq<Device>, BroadcastAction),
    ApplyScene(Seq<(Device, Color, u8)>),
}

impl View for Command {
    type V = CommandView;

    open spec fn view(&self) -> CommandView {
        match self {
            Command::SetPower(d, on) => CommandView::SetPower(*d, *on),
            Command::SetBrightness(d, p) => CommandView::SetBrightness(*d, *p),
            Command::SetColor(d, c) => CommandView::SetColor(*d, *c),
            Command::SetColorTemp(d, k) => CommandView::SetColorTemp(*d, *k),
            Command::RefreshState(d) => CommandView::RefreshState(*d),
            Command::RefreshAll => CommandView::RefreshAll,
            Command::Rediscover => CommandView::Rediscover,
            Command::Broadcast(ds, a) => CommandView::Broadcast(ds@, *a),
            Command::ApplyScene(es) => CommandView::ApplyScene(es@),
        }
    }
}

/// What the last step asked for gave.
pub enum Outcome {
    /// A new command (taken only when the worker is idle).
    Command(Command),
    /// The devices a discovery found, or the text of its error.
    Discovered(Result<Vec<Device>, String>),
    /// The result of a control call, with the text of its error.
    Controlled(Result<(), String>),
    /// A scene's calls on one device are done (their errors are only logged).
    SceneSet,
    /// The result of a state query.
    Queried(Result<DeviceState, GoveeError>),
    /// The post-command delay has passed.
    Waited,
}

/// An outcome with its lists and texts taken as sequences.
pub enum OutcomeView {
    Command(CommandView),
    Discovered(Result<Seq<Device>, Seq<char>>),
    Controlled(Result<(), Seq<char>>),
    SceneSet,
    Queried(Result<DeviceState, GoveeError>),
    Waited,
}

impl View for Outcome {
    type V = OutcomeView;

    open spec fn view(&self) -> OutcomeView {
        match self {
            Outcome::Command(c) => OutcomeView::Command(c@),
            Outcome::Discovered(Ok(ds)) => OutcomeView::Discovered(Ok(ds@)),
            Outcome::Discovered(Err(t)) => OutcomeView::Discovered(Err(t@)),
            Outcome::Controlled(Ok(())) => OutcomeView::Controlled(Ok(())),
            Outcome::Controlled(Err(t)) => OutcomeView::Controlled(Err(t@)),
            Outcome::SceneSet => OutcomeView::SceneSet,
            Outcome::Queried(r) => OutcomeView::Queried(*r),
            Outcome::Waited => OutcomeView::Waited,
        }
    }
}

/// The next network call to make, or `Idle` when the command is finished.
pub enum Action {
    /// Scan for devices; answer with `Outcome::Discovered`.
    Discover,
    /// Apply a control action to a device; answer with `Outcome::Controlled`.
    Control(Device, BroadcastAction),
    /// Turn the device on, then set the brightness and the color (errors are
    /// only logged); answer with `Outcome::SceneSet`.
    SetScene(Device, Color, u8),
    /// Query the device's state; answer with `Outcome::Queried`.
    Query(Device),
    /// Wait the post-command delay; answer with `Outcome::Waited`.
    Wait,
    /// The command is finished.
    Idle,
}

/// The worker's state as a value.
pub struct WorkerView {
    pub known: Seq<Device>,
    pub offline: Map<Seq<char>, OfflineEntry>,
    pub job: JobView,
}

impl View for WorkerState {
    type V = WorkerView;

    open spec fn view(&self) -> WorkerView {
        WorkerView { known: self.known@, offline: self.offline@, job: self.job@ }
    }
}

/// One step of the machine: the state after it, the events it reports and the next call.
pub struct Transition {
    pub state: WorkerView,
    pub events: Seq<EventView>,
    pub action: Action,
}

/// The devices of a scene's entries.
pub open spec fn entry_devices(es: Seq<(Device, Color, u8)>) -> Seq<Device> {
    es.map_values(|e: (Device, Color, u8)| e.0)
}

/// What finishing a job reports, and how it changes the state.
pub open spec fn finish(s: WorkerView, devices: Seq<Device>, f: Finish) -> (WorkerView, Seq<EventView>) {
    match f {
        Finish::Nothing => (s, seq![]),
        Finish::Refreshed(d) => (
            s,
            if s.offline.contains_key(d.mac@) {
                seq![]
            } else {
                seq![EventView::Status(refreshed_message(d.display_text()))]
            },
        ),
        Finish::Ready => (WorkerView { known: devices, ..s }, seq![EventView::Status(ready_message(devices.len()))]),
        Finish::RefreshedAll(count) => (
            s,
            seq![
                EventView::Status(
                    refreshed_all_message((count - s.offline.dom().len()) as nat, count as nat),
                ),
            ],
        ),
        Finish::SceneApplied => (s, seq![EventView::Status(scene_applied_message())]),
        Finish::BroadcastDone => (s, seq![EventView::Status(broadcast_done_message())]),
    }
}

/// How a command starts. A single-device command makes its control call;
/// a single refresh queries the device; a refresh of every known device
/// reports how many it refreshes (or that there are none) and queries the
/// first; a rediscovery forgets the offline devices and scans; a scene or a
/// broadcast reports its start and works through its devices in order.
pub open spec fn start(s: WorkerView, c: CommandView) -> Transition {
    let idle = WorkerView { job: JobView::Idle, ..s };
    match c {
        CommandView::SetPower(d, on) => Transition {
            state: WorkerView { job: JobView::Controlling(d, BroadcastAction::Power(on)), ..s },
            events: seq![],
            action: Action::Control(d, BroadcastAction::Power(on)),
        },
        CommandView::SetBrightness(d, p) => Transition {
            state: WorkerView { job: JobView::Controlling(d, BroadcastAction::Brightness(p)), ..s },
            events: seq![],
            action: Action::Control(d, BroadcastAction::Brightness(p)),
        },
        CommandView::SetColor(d, col) => Transition {
            state: WorkerView { job: JobView::Controlling(d, BroadcastAction::Color(col)), ..s },
            events: seq![],
            action: Action::Control(d, BroadcastAction::Color(col)),
        },
        CommandView::SetColorTemp(d, k) => Transition {
            state: WorkerView { job: JobView::Controlling(d, BroadcastAction::ColorTemp(k)), ..s },
            events: seq![],
            action: Action::Control(d, BroadcastAction::ColorTemp(k)),
        },
        CommandView::RefreshState(d) => Transition {
            state: WorkerView { job: JobView::Refreshing(seq![d], 0, Finish::Refreshed(d)), ..s },
            events: seq![],
            action: Action::Query(d),
        },
        CommandView::RefreshAll => if s.known.len() == 0 {
            Transition {
                state: idle,
                events: seq![EventView::Status(nothing_to_refresh_message())],
                action: Action::Idle,
            }
        } else {
            Transition {
                state: WorkerView {
                    job: JobView::Refreshing(s.known, 0, Finish::RefreshedAll(s.known.len() as usize)),
                    ..s
                },
                events: seq![EventView::Status(refreshing_message(s.known.len()))],
                action: Action::Query(s.known[0]),
            }
        },
        CommandView::Rediscover => Transition {
            state: WorkerView { offline: Map::empty(), job: JobView::Discovering, ..s },
            events: seq![EventView::Status(discovering_message())],
            action: Action::Discover,
        },
        CommandView::ApplyScene(es) => if es.len() == 0 {
            Transition {
                state: WorkerView { job: JobView::Waiting(seq![], Finish::SceneApplied), ..s },
                events: seq![EventView::Status(applying_scene_message(0))],
                action: Action::Wait,
            }
        } else {
            Transition {
                state: WorkerView { job: JobView::Scene(es, 0), ..s },
                events: seq![EventView::Status(applying_scene_message(es.len()))],
                action: Action::SetScene(es[0].0, es[0].1, es[0].2),
            }
        },
        CommandView::Broadcast(ds, a) => if ds.len() == 0 {
            Transition {
                state: WorkerView { job: JobView::Waiting(seq![], Finish::BroadcastDone), ..s },
                events: seq![EventView::Status(broadcast_message(a))],
                action: Action::Wait,
            }
        } else {
            Transition {
                state: WorkerView { job: JobView::Broadcasting(ds, a, 0), ..s },
                events: seq![EventView::Status(broadcast_message(a))],
                action: Action::Control(ds[0], a),
            }
        },
    }
}

/// One step of the machine from state `s` on outcome `o` at time `now_ms`.
///
/// A discovery that found devices reports them, clears their stale offline
/// entries and refreshes each before they become the known devices; one that
/// found none or failed reports that and stops. A control call that failed is
/// reported and ends the command; one that succeeded is reported, and the
/// device is refreshed after the delay. A broadcast reports each device whose
/// call failed and goes on with the next; after the last device (and after
/// the last scene entry) it waits the delay and refreshes every device. Each
/// refresh updates the offline table as `table_after_refresh` says and reports
/// as `refresh_events` says; after the last one the job's finish is reported.
pub open spec fn next(s: WorkerView, o: OutcomeView, now_ms: u64) -> Transition {
    let idle = WorkerView { job: JobView::Idle, ..s };
    match (s.job, o) {
        (JobView::Idle, OutcomeView::Command(c)) => start(s, c),
        (JobView::Discovering, OutcomeView::Discovered(Ok(ds))) => if ds.len() == 0 {
            Transition {
                state: idle,
                events: seq![EventView::Discovered(Seq::<Device>::empty()), EventView::Status(no_devices_message())],
                action: Action::Idle,
            }
        } else {
            Transition {
                state: WorkerView {
                    offline: s.offline.remove_keys(mac_set(ds)),
                    job: JobView::Refreshing(ds, 0, Finish::Ready),
                    ..s
                },
                events: seq![EventView::Discovered(ds), EventView::Status(found_message(ds.len()))],
                action: Action::Query(ds[0]),
            }
        },
        (JobView::Discovering, OutcomeView::Discovered(Err(t))) => Transition {
            state: idle,
            events: seq![
                EventView::Discovered(Seq::<Device>::empty()),
                EventView::Error(discovery_failed_message(t)),
            ],
            action: Action::Idle,
        },
        (JobView::Controlling(d, a), OutcomeView::Controlled(Ok(_))) => Transition {
            state: WorkerView { job: JobView::Waiting(seq![d], Finish::Nothing), ..s },
            events: seq![EventView::Status(control_done_message(d.display_text(), a))],
            action: Action::Wait,
        },
        (JobView::Controlling(d, a), OutcomeView::Controlled(Err(t))) => Transition {
            state: idle,
            events: seq![EventView::Error(control_failed_message(a, t))],
            action: Action::Idle,
        },
        (JobView::Scene(es, i), OutcomeView::SceneSet) => if i + 1 < es.len() {
            Transition {
                state: WorkerView { job: JobView::Scene(es, i + 1), ..s },
                events: seq![],
                action: Action::SetScene(es[i + 1].0, es[i + 1].1, es[i + 1].2),
            }
        } else {
            Transition {
                state: WorkerView { job: JobView::Waiting(entry_devices(es), Finish::SceneApplied), ..s },
                events: seq![],
                action: Action::Wait,
            }
        },
        (JobView::Broadcasting(ds, a, i), OutcomeView::Controlled(r)) => {
            let events = match r {
                Ok(_) => seq![],
                Err(t) => seq![EventView::Error(broadcast_failed_message(ds[i].display_text(), t))],
            };
            if i + 1 < ds.len() {
                Transition {
                    state: WorkerView { job: JobView::Broadcasting(ds, a, i + 1), ..s },
                    events,
                    action: Action::Control(ds[i + 1], a),
                }
            } else {
                Transition {
                    state: WorkerView { job: JobView::Waiting(ds, Finish::BroadcastDone), ..s },
                    events,
                    action: Action::Wait,
                }
            }
        },
        (JobView::Waiting(ds, f), OutcomeView::Waited) => if ds.len() == 0 {
            let (s2, events) = finish(idle, ds, f);
            Transition { state: s2, events, action: Action::Idle }
        } else {
            Transition {
                state: WorkerView { job: JobView::Refreshing(ds, 0, f), ..s },
                events: seq![],
                action: Action::Query(ds[0]),
            }
        },
        (JobView::Refreshing(ds, i, f), OutcomeView::Queried(r)) => {
            let s1 = WorkerView {
                offline: table_after_refresh(s.offline, ds[i], r is Ok, now_ms),
                ..s
            };
            let events = refresh_events(s.offline.contains_key(ds[i].mac@), ds[i], r);
            if i + 1 < ds.len() {
                Transition {
                    state: WorkerView { job: JobView::Refreshing(ds, i + 1, f), ..s1 },
                    events,
                    action: Action::Query(ds[i + 1]),
                }
            } else {
                let (s2, more) = finish(WorkerView { job: JobView::Idle, ..s1 }, ds, f);
                Transition { state: s2, events: events + more, action: Action::Idle }
            }
        },
        _ => Transition { state: s, events: seq![], action: Action::Idle },
    }
}

/// Finishing `f` is possible: reporting how many devices are online needs
/// no more offline devices than were refreshed.
pub open spec fn finish_ok(offline: Map<Seq<char>, OfflineEntry>, f: Finish) -> bool {
    match f {
        Finish::RefreshedAll(count) => offline.dom().len() <= count,
        _ => true,
    }
}

/// The outcome is what the job waits for, the job's index lies in its list,
/// a failed refresh of a device already offline can count one more failed
/// retry, and a step that finishes the job can report.
pub open spec fn expects(s: WorkerView, o: OutcomeView, now_ms: u64) -> bool {
    match (s.job, o) {
        (JobView::Idle, OutcomeView::Command(_)) => true,
        (JobView::Discovering, OutcomeView::Discovered(_)) => true,
        (JobView::Controlling(_, _), OutcomeView::Controlled(_)) => true,
        (JobView::Scene(es, i), OutcomeView::SceneSet) => 0 <= i < es.len(),
        (JobView::Broadcasting(ds, _, i), OutcomeView::Controlled(_)) => 0 <= i < ds.len(),
        (JobView::Waiting(ds, f), OutcomeView::Waited) => ds.len() == 0 ==> finish_ok(s.offline, f),
        (JobView::Refreshing(ds, i, f), OutcomeView::Queried(r)) => 0 <= i < ds.len() && (r is Err
            ==> can_bump(s.offline, ds[i].mac@)) && (i + 1 == ds.len() ==> finish_ok(
            table_after_refresh(s.offline, ds[i], r is Ok, now_ms),
            f,
        )),
        _ => false,
    }
}

/// The job's index lies within its list.
pub open spec fn job_wf(job: JobView) -> bool {
    match job {
        JobView::Scene(es, i) => 0 <= i < es.len(),
        JobView::Broadcasting(ds, _, i) => 0 <= i < ds.len(),
        JobView::Refreshing(ds, i, _) => 0 <= i < ds.len(),
        _ => true,
    }
}

/// A step asks for no further call exactly when it leaves the worker idle,
/// ready for the next command.
pub proof fn idle_action_iff_idle_job(s: WorkerView, o: OutcomeView, now_ms: u64)
    requires
        expects(s, o, now_ms),
    ensures
        (next(s, o, now_ms).action is Idle) <==> (next(s, o, now_ms).state.job is Idle),
{
}

/// Every step keeps the job's index within its list.
pub proof fn step_keeps_job_wf(s: WorkerView, o: OutcomeView, now_ms: u64)
    requires
        job_wf(s.job),
        expects(s, o, now_ms),
    ensures
        job_wf(next(s, o, now_ms).state.job),
{
}

/// A single-device command taken by an idle worker reports nothing yet,
/// makes the control call for that device with the command's own value, and
/// waits for that call: turning a light off sends `Power(false)`, a brightness
/// sends that brightness, a color that color, a temperature that temperature.
pub proof fn single_device_command_carries_its_value(
    s: WorkerView,
    d: Device,
    on: bool,
    pct: u8,
    color: Color,
    kelvin: u16,
    now_ms: u64,
)
    requires
        s.job is Idle,
    ensures
        next(s, OutcomeView::Command(CommandView::SetPower(d, on)), now_ms).action == Action::Control(
            d,
            BroadcastAction::Power(on),
        ),
        next(s, OutcomeView::Command(CommandView::SetPower(d, on)), now_ms).state.job == JobView::Controlling(
            d,
            BroadcastAction::Power(on),
        ),
        next(s, OutcomeView::Command(CommandView::SetPower(d, on)), now_ms).events.len() == 0,
        next(s, OutcomeView::Command(CommandView::SetBrightness(d, pct)), now_ms).action == Action::Control(
            d,
            BroadcastAction::Brightness(pct),
        ),
        next(s, OutcomeView::Command(CommandView::SetBrightness(d, pct)), now_ms).state.job
            == JobView::Controlling(d, BroadcastAction::Brightness(pct)),
        next(s, OutcomeView::Command(CommandView::SetColor(d, color)), now_ms).action == Action::Control(
            d,
            BroadcastAction::Color(color),
        ),
        next(s, OutcomeView::Command(CommandView::SetColor(d, color)), now_ms).state.job
            == JobView::Controlling(d, BroadcastAction::Color(color)),
        next(s, OutcomeView::Command(CommandView::SetColorTemp(d, kelvin)), now_ms).action == Action::Control(
            d,
            BroadcastAction::ColorTemp(kelvin),
        ),
        next(s, OutcomeView::Command(CommandView::SetColorTemp(d, kelvin)), now_ms).state.job
            == JobView::Controlling(d, BroadcastAction::ColorTemp(kelvin)),
        next(s, OutcomeView::Command(CommandView::RefreshState(d)), now_ms).action == Action::Query(d),
{
}

/// A power call that succeeded reports the device turned on when the call
/// turned it on, and off when it turned it off, then waits to refresh that
/// device; one that failed reports the error and ends the command.
pub proof fn power_report_follows_the_value(s: WorkerView, d: Device, on: bool, err: Seq<char>, now_ms: u64)
    requires
        s.job == JobView::Controlling(d, BroadcastAction::Power(on)),
    ensures
        next(s, OutcomeView::Controlled(Ok(())), now_ms).events == seq![
            EventView::Status(
                d.display_text() + " turned "@ + (if on {
                    "ON"@
                } else {
                    "OFF"@
                }) + "."@,
            ),
        ],
        next(s, OutcomeView::Controlled(Ok(())), now_ms).action == Action::Wait,
        next(s, OutcomeView::Controlled(Ok(())), now_ms).state.job == JobView::Waiting(seq![d], Finish::Nothing),
        next(s, OutcomeView::Controlled(Err(err)), now_ms).events == seq![
            EventView::Error("Power error: "@ + err),
        ],
        next(s, OutcomeView::Controlled(Err(err)), now_ms).state.job is Idle,
{
}

/// A broadcast applies the same action to each of its devices in list
/// order, whatever the previous call gave; a scene sets each entry in order.
pub proof fn lists_are_worked_through_in_order(
    s: WorkerView,
    ds: Seq<Device>,
    es: Seq<(Device, Color, u8)>,
    a: BroadcastAction,
    i: int,
    r: Result<(), Seq<char>>,
    now_ms: u64,
)
    requires
        0 <= i,
        i + 1 < ds.len(),
        i + 1 < es.len(),
    ensures
        next(WorkerView { job: JobView::Broadcasting(ds, a, i), ..s }, OutcomeView::Controlled(r), now_ms).action
            == Action::Control(ds[i + 1], a),
        next(WorkerView { job: JobView::Scene(es, i), ..s }, OutcomeView::SceneSet, now_ms).action
            == Action::SetScene(es[i + 1].0, es[i + 1].1, es[i + 1].2),
        next(
            WorkerView { job: JobView::Idle, ..s },
            OutcomeView::Command(CommandView::Broadcast(ds, a)),
            now_ms,
        ).action == Action::Control(ds[0], a),
        next(WorkerView { job: JobView::Idle, ..s }, OutcomeView::Command(CommandView::ApplyScene(es)), now_ms).action
            == Action::SetScene(es[0].0, es[0].1, es[0].2),
{
}

fn copy_entry_devices(es: &Vec<(Device, Color, u8)>) -> (ds: Vec<Device>)
    ensures
        ds@ == entry_devices(es@),
{
    let mut ds: Vec<Device> = Vec::new();
    let mut i: usize = 0;
    while i < es.len()
        invariant
            i <= es@.len(),
            ds@ == entry_devices(es@.subrange(0, i as int)),
        decreases es@.len() - i,
    {
        ds.push(es[i].0.duplicate());
        i = i + 1;
        proof {
            assert(ds@ =~= entry_devices(es@.subrange(0, i as int)));
        }
    }
    proof {
        assert(es@.subrange(0, es@.len() as int) =~= es@);
    }
    ds
}

/// Whether `f` can be reported after refreshing `device` with the given answer at `now_ms`.
fn finish_ok_after(w: &WorkerState, device: &Device, answered: bool, f: &Finish, now_ms: u64) -> (b: bool)
    ensures
        b == finish_ok(table_after_refresh(w.offline@, *device, answered, now_ms), *f),
{
    match f {
        Finish::RefreshedAll(count) => {
            let n = w.offline.len();
            let present = w.offline.contains_key(&device.mac);
            proof {
                let k = device.mac@;
                let t = table_after_refresh(w.offline@, *device, answered, now_ms);
                if answered {
                    assert(t.dom() =~= w.offline@.dom().remove(k));
                } else if !present {
                    assert(t.dom() =~= w.offline@.dom().insert(k));
                }
            }
            if answered {
                if present {
                    n - 1 <= *count
                } else {
                    n <= *count
                }
            } else if present {
                n <= *count
            } else {
                n < *count
            }
        },
        _ => true,
    }
}

impl WorkerState {
    /// Whether the machine can take `outcome` at `now_ms`: it is what the
    /// job waits for, and a step that finishes the job can report.
    pub fn expects(&self, outcome: &Outcome, now_ms: u64) -> (b: bool)
        ensures
            b == expects(self@, outcome@, now_ms),
    {
        match (&self.job, outcome) {
            (Job::Idle, Outcome::Command(_)) => true,
            (Job::Discovering, Outcome::Discovered(_)) => true,
            (Job::Controlling(_, _), Outcome::Controlled(_)) => true,
            (Job::Scene(es, i), Outcome::SceneSet) => *i < es.len(),
            (Job::Broadcasting(ds, _, i), Outcome::Controlled(_)) => *i < ds.len(),
            (Job::Waiting(ds, f), Outcome::Waited) => {
                if ds.len() == 0 {
                    match f {
                        Finish::RefreshedAll(count) => self.offline.len() <= *count,
                        _ => true,
                    }
                } else {
                    true
                }
            },
            (Job::Refreshing(ds, i, f), Outcome::Queried(r)) => {
                if *i < ds.len() {
                    let bump_ok = match self.offline.get(&ds[*i].mac) {
                        Some(e) => r.is_ok() || e.retry_count < u32::MAX,
                        None => true,
                    };
                    if !bump_ok {
                        false
                    } else if *i + 1 == ds.len() {
                        finish_ok_after(self, &ds[*i], r.is_ok(), f, now_ms)
                    } else {
                        true
                    }
                } else {
                    false
                }
            },
            _ => false,
        }
    }
}

impl WorkerState {
    /// Finishes a job whose devices have been refreshed.
    fn finish_job(&mut self, devices: Vec<Device>, f: Finish) -> (events: Vec<WorkerEvent>)
        requires
            old(self).job == Job::Idle,
            finish_ok(old(self).offline@, f),
        ensures
            final(self)@ == finish(old(self)@, devices@, f).0,
            events_view(events@) == finish(old(self)@, devices@, f).1,
    {
        let mut events: Vec<WorkerEvent> = Vec::new();
        match f {
            Finish::Nothing => {},
            Finish::Refreshed(d) => {
                match self.refreshed(&d) {
                    Some(e) => events.push(e),
                    None => {},
                }
            },
            Finish::Ready => {
                let e = self.discovery_done(devices);
                events.push(e);
            },
            Finish::RefreshedAll(count) => {
                let e = self.refresh_all_done(count);
                events.push(e);
            },
            Finish::SceneApplied => {
                let e = self.scene_done();
                events.push(e);
            },
            Finish::BroadcastDone => {
                let e = self.broadcast_done();
                events.push(e);
            },
        }
        proof {
            assert(events_view(events@) =~= finish(old(self)@, devices@, f).1);
        }
        events
    }

    /// Starts a command.
    fn start_command(&mut self, c: Command) -> (r: (Vec<WorkerEvent>, Action))
        requires
            old(self).job == Job::Idle,
        ensures
            final(self)@ == start(old(self)@, c@).state,
            events_view(r.0@) == start(old(self)@, c@).events,
            r.1 == start(old(self)@, c@).action,
    {
        let mut events: Vec<WorkerEvent> = Vec::new();
        let action = match c {
            Command::SetPower(d, on) => {
                let a = BroadcastAction::Power(on);
                let d2 = d.duplicate();
                self.job = Job::Controlling(d, a);
                Action::Control(d2, a)
            },
            Command::SetBrightness(d, p) => {
                let a = BroadcastAction::Brightness(p);
                let d2 = d.duplicate();
                self.job = Job::Controlling(d, a);
                Action::Control(d2, a)
            },
            Command::SetColor(d, col) => {
                let a = BroadcastAction::Color(col);
                let d2 = d.duplicate();
                self.job = Job::Controlling(d, a);
                Action::Control(d2, a)
            },
            Command::SetColorTemp(d, k) => {
                let a = BroadcastAction::ColorTemp(k);
                let d2 = d.duplicate();
                self.job = Job::Controlling(d, a);
                Action::Control(d2, a)
            },
            Command::RefreshState(d) => {
                let d2 = d.duplicate();
                let d3 = d.duplicate();
                let mut list: Vec<Device> = Vec::new();
                list.push(d);
                self.job = Job::Refreshing(list, 0, Finish::Refreshed(d3));
                proof {
                    assert(self.job@ == JobView::Refreshing(seq![d2], 0, Finish::Refreshed(d2)));
                }
                Action::Query(d2)
            },
            Command::RefreshAll => {
                let (e, snapshot) = self.refresh_all_start();
                events.push(e);
                if snapshot.len() == 0 {
                    Action::Idle
                } else {
                    let first = snapshot[0].duplicate();
                    let count = snapshot.len();
                    self.job = Job::Refreshing(snapshot, 0, Finish::RefreshedAll(count));
                    Action::Query(first)
                }
            },
            Command::Rediscover => {
                self.rediscover();
                let e = self.begin_discovery();
                events.push(e);
                self.job = Job::Discovering;
                Action::Discover
            },
            Command::ApplyScene(es) => {
                let e = self.scene_start(es.len());
                events.push(e);
                if es.len() == 0 {
                    self.job = Job::Waiting(Vec::new(), Finish::SceneApplied);
                    Action::Wait
                } else {
                    let first = (es[0].0.duplicate(), es[0].1, es[0].2);
                    self.job = Job::Scene(es, 0);
                    Action::SetScene(first.0, first.1, first.2)
                }
            },
            Command::Broadcast(ds, a) => {
                let e = self.broadcast_start(a);
                events.push(e);
                if ds.len() == 0 {
                    self.job = Job::Waiting(Vec::new(), Finish::BroadcastDone);
                    Action::Wait
                } else {
                    let first = ds[0].duplicate();
                    self.job = Job::Broadcasting(ds, a, 0);
                    Action::Control(first, a)
                }
            },
        };
        proof {
            assert(events_view(events@) =~= start(old(self)@, c@).events);
            assert(self@ == start(old(self)@, c@).state);
        }
        (events, action)
    }

    /// Takes the outcome of the last call at `now_ms`: updates the state,
    /// gives the events to report and the next call to make.
    pub fn step(&mut self, outcome: Outcome, now_ms: u64) -> (r: (Vec<WorkerEvent>, Action))
        requires
            clock_ok(now_ms),
            expects(old(self)@, outcome@, now_ms),
        ensures
            final(self)@ == next(old(self)@, outcome@, now_ms).state,
            events_view(r.0@) == next(old(self)@, outcome@, now_ms).events,
            r.1 == next(old(self)@, outcome@, now_ms).action,
    {
        let ghost s0 = self@;
        let ghost o = outcome@;
        let mut job = Job::Idle;
        std::mem::swap(&mut job, &mut self.job);
        match job {
            Job::Idle => match outcome {
                Outcome::Command(c) => self.start_command(c),
                _ => (Vec::new(), Action::Idle),
            },
            Job::Discovering => match outcome {
                Outcome::Discovered(Ok(ds)) => {
                    let events = self.discovery_found(&ds);
                    if ds.len() == 0 {
                        (events, Action::Idle)
                    } else {
                        let first = ds[0].duplicate();
                        self.job = Job::Refreshing(ds, 0, Finish::Ready);
                        (events, Action::Query(first))
                    }
                },
                Outcome::Discovered(Err(t)) => (self.discovery_failed(t.as_str()), Action::Idle),
                _ => (Vec::new(), Action::Idle),
            },
            Job::Controlling(d, a) => match outcome {
                Outcome::Controlled(Ok(())) => {
                    let mut events: Vec<WorkerEvent> = Vec::new();
                    events.push(self.control_done(&d, a));
                    let mut list: Vec<Device> = Vec::new();
                    list.push(d);
                    self.job = Job::Waiting(list, Finish::Nothing);
                    proof {
                        assert(events_view(events@) =~= next(s0, o, now_ms).events);
                        assert(self@ == next(s0, o, now_ms).state);
                    }
                    (events, Action::Wait)
                },
                Outcome::Controlled(Err(t)) => {
                    let mut events: Vec<WorkerEvent> = Vec::new();
                    events.push(self.control_failed(a, t.as_str()));
                    proof {
                        assert(events_view(events@) =~= next(s0, o, now_ms).events);
                    }
                    (events, Action::Idle)
                },
                _ => (Vec::new(), Action::Idle),
            },
            Job::Scene(es, i) => match outcome {
                Outcome::SceneSet => {
                    assert(i < es.len());
                    if i + 1 < es.len() {
                        let e = &es[i + 1];
                        let act = Action::SetScene(e.0.duplicate(), e.1, e.2);
                        self.job = Job::Scene(es, i + 1);
                        (Vec::new(), act)
                    } else {
                        let ds = copy_entry_devices(&es);
                        self.job = Job::Waiting(ds, Finish::SceneApplied);
                        (Vec::new(), Action::Wait)
                    }
                },
                _ => (Vec::new(), Action::Idle),
            },
            Job::Broadcasting(ds, a, i) => match outcome {
                Outcome::Controlled(r) => {
                    let mut events: Vec<WorkerEvent> = Vec::new();
                    match r {
                        Ok(()) => {},
                        Err(t) => events.push(self.broadcast_failed(&ds[i], t.as_str())),
                    }
                    proof {
                        assert(events_view(events@) =~= next(s0, o, now_ms).events);
                    }
                    assert(i < ds.len());
                    if i + 1 < ds.len() {
                        let act = Action::Control(ds[i + 1].duplicate(), a);
                        self.job = Job::Broadcasting(ds, a, i + 1);
                        (events, act)
                    } else {
                        self.job = Job::Waiting(ds, Finish::BroadcastDone);
                        (events, Action::Wait)
                    }
                },
                _ => (Vec::new(), Action::Idle),
            },
            Job::Waiting(ds, f) => match outcome {
                Outcome::Waited => {
                    if ds.len() == 0 {
                        let events = self.finish_job(ds, f);
                        (events, Action::Idle)
                    } else {
                        let first = ds[0].duplicate();
                        self.job = Job::Refreshing(ds, 0, f);
                        (Vec::new(), Action::Query(first))
                    }
                },
                _ => (Vec::new(), Action::Idle),
            },
            Job::Refreshing(ds, i, f) => match outcome {
                Outcome::Queried(r) => {
                    let mut events = self.refresh(&ds[i], r, now_ms);
                    assert(i < ds.len());
                    if i + 1 < ds.len() {
                        let act = Action::Query(ds[i + 1].duplicate());
                        self.job = Job::Refreshing(ds, i + 1, f);
                        (events, act)
                    } else {
                        let mut more = self.finish_job(ds, f);
                        let ghost first_part = events@;
                        let ghost rest = more@;
                        events.append(&mut more);
                        proof {
                            assert(events_view(events@) =~= events_view(first_part) + events_view(rest));
                        }
                        (events, Action::Idle)
                    }
                },
                _ => (Vec::new(), Action::Idle),
            },
        }
    }
}

} // verus!
