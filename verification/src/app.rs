//! The GUI's state, how the worker's events update it, light groups and device names.
use vstd::prelude::*;
use vstd::string::*;
use std::sync::mpsc::{Receiver, Sender};
use crate::models::{Color, Device, DeviceState};
use crate::text::{hex_byte, hex_char};
use crate::table::MacMap;
use crate::config::{Group, GroupView};
use crate::worker::{BroadcastAction, Command, EventView, WorkerEvent, copy_devices, events_view, string_views};
use crate::flow::CommandView;
use crate::text::{decimal, push_decimal};

verus! {

/// `std::sync::mpsc::Sender`, the GUI's end of the command channel.
#[verifier::external_type_specification]
#[verifier::external_body]
#[verifier::reject_recursive_types(T)]
pub struct ExSender<T>(Sender<T>);

/// `std::sync::mpsc::Receiver`, the GUI's end of the event channel.
#[verifier::external_type_specification]
#[verifier::external_body]
#[verifier::reject_recursive_types(T)]
pub struct ExReceiver<T>(Receiver<T>);

/// Calls `Sender::send`. Nothing is stated of the outcome: a worker that has
/// stopped makes the send fail, and the failure is ignored.
#[verifier::external_body]
fn channel_send(tx: &Sender<Command>, cmd: Command) {
    let _ = tx.send(cmd);
}

/// Calls `Receiver::try_iter` and collects every event already waiting.
/// Which events these are depends on the worker thread, so nothing is stated
/// of them.
#[verifier::external_body]
fn channel_drain(rx: &Receiver<WorkerEvent>) -> Vec<WorkerEvent> {
    rx.try_iter().collect()
}

/// Top-level application state, owned by the GUI event loop.
pub struct GoveeApp {
    // ── Device data ──────────────────────────────────────────────────────────
    pub devices: Vec<Device>,
    pub states: MacMap<DeviceState>,
    pub selected: usize,
    // ── Status bar ───────────────────────────────────────────────────────────
    pub status: String,
    pub status_is_error: bool,
    // ── Pending control values (what the sliders/picker currently show) ──────
    /// Brightness slider value (1–100).
    pub pending_brightness: u8,
    /// Color shown by the color picker.
    pub pending_color: Color,
    /// Color temperature slider value in Kelvin (2 000–9 000).
    pub pending_color_temp: u16,
    /// When `true` the color section shows the Kelvin slider; otherwise RGB.
    pub use_color_temp: bool,
    // ── Names, groups and tabs ───────────────────────────────────────────────
    /// MAC → name the user gave the device.
    pub names: MacMap<String>,
    /// MACs of the devices the worker reported offline.
    pub offline_macs: MacMap<()>,
    /// The user's groups, at most `MAX_GROUPS`.
    pub groups: Vec<Group>,
    /// The tab the central panel shows.
    pub tab: Tab,
    /// The MAC of the device being renamed, if any.
    pub renaming: Option<String>,
    /// The name being typed for that device.
    pub rename_buf: String,
    /// The index of the group being renamed, if any.
    pub renaming_group: Option<usize>,
    /// The name being typed for that group.
    pub group_rename_buf: String,
    // ── Channels ─────────────────────────────────────────────────────────────
    pub cmd_tx: Sender<Command>,
    pub evt_rx: Receiver<WorkerEvent>,
}

/// The most groups the user can have.
pub const MAX_GROUPS: usize = 10;

/// The tabs of the central panel.
#[derive(Debug, Clone, Copy, PartialEq, Eq, Structural)]
pub enum Tab {
    /// Controls for every device at once.
    All,
    /// Controls for the selected device.
    Individual,
    /// Controls for the group at the index.
    Group(usize),
}

/// The GUI state without its channels.
pub struct AppView {
    pub devices: Seq<Device>,
    pub states: Map<Seq<char>, DeviceState>,
    pub selected: usize,
    pub status: Seq<char>,
    pub status_is_error: bool,
    pub pending_brightness: u8,
    pub pending_color: Color,
    pub pending_color_temp: u16,
    pub use_color_temp: bool,
    pub names: Map<Seq<char>, Seq<char>>,
    pub offline: Set<Seq<char>>,
    pub groups: Seq<GroupView>,
    pub tab: Tab,
    pub renaming: Option<Seq<char>>,
    pub rename_buf: Seq<char>,
    pub renaming_group: Option<usize>,
    pub group_rename_buf: Seq<char>,
}

/// The views of a list of groups.
pub open spec fn groups_view(gs: Seq<Group>) -> Seq<GroupView> {
    gs.map_values(|g: Group| g@)
}

/// The names of a name table, taken as character sequences.
pub open spec fn names_view(m: Map<Seq<char>, String>) -> Map<Seq<char>, Seq<char>> {
    m.map_values(|n: String| n@)
}

impl View for GoveeApp {
    type V = AppView;

    open spec fn view(&self) -> AppView {
        AppView {
            devices: self.devices@,
            states: self.states@,
            selected: self.selected,
            status: self.status@,
            status_is_error: self.status_is_error,
            pending_brightness: self.pending_brightness,
            pending_color: self.pending_color,
            pending_color_temp: self.pending_color_temp,
            use_color_temp: self.use_color_temp,
            names: names_view(self.names@),
            offline: self.offline_macs@.dom(),
            groups: groups_view(self.groups@),
            tab: self.tab,
            renaming: match self.renaming {
                Some(m) => Some(m@),
                None => None,
            },
            rename_buf: self.rename_buf@,
            renaming_group: self.renaming_group,
            group_rename_buf: self.group_rename_buf@,
        }
    }
}

/// The status text shown before the worker reports anything.
pub open spec fn starting_message() -> Seq<char> {
    "Starting\u{2026}"@
}

/// The GUI state at start: no devices, white at full brightness, 4000 K, RGB
/// mode, no names, nothing offline, no groups, the All tab, nothing being renamed.
pub open spec fn initial_view() -> AppView {
    AppView {
        devices: Seq::empty(),
        states: Map::empty(),
        selected: 0,
        status: starting_message(),
        status_is_error: false,
        pending_brightness: 100,
        pending_color: Color { r: 255, g: 255, b: 255 },
        pending_color_temp: 4000,
        use_color_temp: false,
        names: Map::empty(),
        offline: Set::empty(),
        groups: Seq::empty(),
        tab: Tab::All,
        renaming: None,
        rename_buf: Seq::empty(),
        renaming_group: None,
        group_rename_buf: Seq::empty(),
    }
}

/// How one worker event changes the GUI state. A discovery replaces the
/// device list and selects the first device; a state update is recorded and
/// mirrored into the pending controls (the Kelvin slider for a white-mode
/// state, the color picker otherwise); status and error texts replace the
/// status line; a device reported offline is marked so until it is reported
/// online again or a discovery starts the list afresh.
pub open spec fn after_event(a: AppView, e: EventView) -> AppView {
    match e {
        EventView::Discovered(ds) => AppView { selected: 0, devices: ds, offline: Set::empty(), ..a },
        EventView::StateUpdated(mac, st) => if st.color_temp_kelvin > 0 {
            AppView {
                pending_brightness: st.brightness,
                use_color_temp: true,
                pending_color_temp: st.color_temp_kelvin,
                states: a.states.insert(mac, st),
                ..a
            }
        } else {
            AppView {
                pending_brightness: st.brightness,
                use_color_temp: false,
                pending_color: st.color,
                states: a.states.insert(mac, st),
                ..a
            }
        },
        EventView::Status(m) => AppView { status: m, status_is_error: false, ..a },
        EventView::Error(m) => AppView { status: m, status_is_error: true, ..a },
        EventView::DeviceOffline(m) => AppView { offline: a.offline.insert(m), ..a },
        EventView::DeviceOnline(m) => AppView { offline: a.offline.remove(m), ..a },
    }
}

/// The GUI state after a list of events, taken in order.
pub open spec fn after_events(a: AppView, es: Seq<EventView>) -> AppView
    decreases es.len(),
{
    if es.len() == 0 {
        a
    } else {
        after_event(after_events(a, es.drop_last()), es.last())
    }
}

impl GoveeApp {
    /// Create a new app wired to the given channel pair.
    pub fn new(cmd_tx: Sender<Command>, evt_rx: Receiver<WorkerEvent>) -> (app: GoveeApp)
        ensures
            app@ == initial_view(),
            app.cmd_tx == cmd_tx,
            app.evt_rx == evt_rx,
    {
        let status = String::from_str("Starting\u{2026}");
        let app = GoveeApp {
            devices: Vec::new(),
            states: MacMap::new(),
            selected: 0,
            status,
            status_is_error: false,
            pending_brightness: 100,
            pending_color: Color::white(),
            pending_color_temp: 4_000,
            use_color_temp: false,
            names: MacMap::new(),
            offline_macs: MacMap::new(),
            groups: Vec::new(),
            tab: Tab::All,
            renaming: None,
            rename_buf: String::new(),
            renaming_group: None,
            group_rename_buf: String::new(),
            cmd_tx,
            evt_rx,
        };
        proof {
            assert(names_view(app.names@) =~= Map::empty());
            assert(app.offline_macs@.dom() =~= Set::empty());
            assert(groups_view(app.groups@) =~= Seq::empty());
        }
        app
    }

    /// The selected device, or `None` when the selection is past the end of the list.
    pub fn selected_device(&self) -> (d: Option<&Device>)
        ensures
            match d {
                Some(dev) => self.selected < self.devices@.len() && *dev == self.devices@[self.selected as int],
                None => self.selected >= self.devices@.len(),
            },
    {
        if self.selected < self.devices.len() {
            Some(&self.devices[self.selected])
        } else {
            None
        }
    }

    /// Moves the selection one device up, staying at the top.
    pub fn move_up(&mut self)
        ensures
            final(self)@ == (AppView {
                selected: if old(self).selected > 0 {
                    (old(self).selected - 1) as usize
                } else {
                    0
                },
                ..old(self)@
            }),
            final(self).cmd_tx == old(self).cmd_tx,
            final(self).evt_rx == old(self).evt_rx,
    {
        if self.selected > 0 {
            self.selected -= 1;
        }
    }

    /// Moves the selection one device down, staying at the last device.
    pub fn move_down(&mut self)
        ensures
            final(self)@ == (AppView {
                selected: if old(self).devices@.len() > 0 && old(self).selected + 1 < old(self).devices@.len() {
                    (old(self).selected + 1) as usize
                } else {
                    old(self).selected
                },
                ..old(self)@
            }),
            final(self).cmd_tx == old(self).cmd_tx,
            final(self).evt_rx == old(self).evt_rx,
    {
        if self.devices.len() > 0 && self.selected < self.devices.len() - 1 {
            self.selected += 1;
        }
    }

    /// Updates the state with one worker event.
    pub fn apply_event(&mut self, evt: WorkerEvent)
        ensures
            final(self)@ == after_event(old(self)@, evt@),
            final(self).cmd_tx == old(self).cmd_tx,
            final(self).evt_rx == old(self).evt_rx,
    {
        match evt {
            WorkerEvent::Discovered(devices) => {
                self.selected = 0;
                self.devices = devices;
                self.offline_macs.clear();
                proof {
                    assert(self.offline_macs@.dom() =~= Set::<Seq<char>>::empty());
                }
            },
            WorkerEvent::StateUpdated { mac, state } => {
                self.pending_brightness = state.brightness;
                if state.color_temp_kelvin > 0 {
                    self.use_color_temp = true;
                    self.pending_color_temp = state.color_temp_kelvin;
                } else {
                    self.use_color_temp = false;
                    self.pending_color = state.color;
                }
                self.states.insert(mac, state);
            },
            WorkerEvent::Status(msg) => {
                self.status = msg;
                self.status_is_error = false;
            },
            WorkerEvent::Error(msg) => {
                self.status = msg;
                self.status_is_error = true;
            },
            WorkerEvent::DeviceOffline(m) => {
                self.offline_macs.insert(m, ());
            },
            WorkerEvent::DeviceOnline(m) => {
                self.offline_macs.remove(&m);
            },
        }
    }

    /// Updates the state with each of `events`, in order.
    pub fn apply_events(&mut self, events: Vec<WorkerEvent>)
        ensures
            final(self)@ == after_events(old(self)@, events_view(events@)),
            final(self).cmd_tx == old(self).cmd_tx,
            final(self).evt_rx == old(self).evt_rx,
    {
        let ghost all = events@;
        let mut rest = events;
        let ghost mut done: int = 0;
        while rest.len() > 0
            invariant
                0 <= done <= all.len(),
                rest@ == all.subrange(done, all.len() as int),
                self@ == after_events(old(self)@, events_view(all.subrange(0, done))),
                self.cmd_tx == old(self).cmd_tx,
                self.evt_rx == old(self).evt_rx,
            decreases rest@.len(),
        {
            let evt = rest.remove(0);
            proof {
                assert(all[done] == evt);
                assert(events_view(all.subrange(0, done + 1)).drop_last() =~= events_view(
                    all.subrange(0, done),
                ));
            }
            self.apply_event(evt);
            proof {
                done = done + 1;
                assert(rest@ =~= all.subrange(done, all.len() as int));
            }
        }
        proof {
            assert(all.subrange(0, all.len() as int) =~= all);
        }
    }

    /// Drains every pending worker event and updates the state with each, in
    /// the order they arrived.
    pub fn process_events(&mut self)
        ensures
            exists|es: Seq<EventView>| final(self)@ == after_events(old(self)@, es),
            final(self).cmd_tx == old(self).cmd_tx,
            final(self).evt_rx == old(self).evt_rx,
    {
        let events = channel_drain(&self.evt_rx);
        let ghost es = events_view(events@);
        self.apply_events(events);
        assert(self@ == after_events(old(self)@, es));
    }

    /// Send a command to the async worker (fire-and-forget).
    pub fn send(&self, cmd: Command) {
        channel_send(&self.cmd_tx, cmd);
    }
}

// ── Groups and names ─────────────────────────────────────────────────────────

/// The name a new group gets: `Group n`, where `n` counts it among the groups.
pub open spec fn new_group_name(n: nat) -> Seq<char> {
    "Group "@ + decimal(n)
}

/// Whether a device belongs to a group.
pub open spec fn in_group(g: GroupView) -> spec_fn(Device) -> bool {
    |d: Device| g.macs.contains(d.mac@)
}

/// Whether a MAC differs from `mac`.
pub open spec fn other_mac(mac: Seq<char>) -> spec_fn(Seq<char>) -> bool {
    |m: Seq<char>| m != mac
}

/// The devices of the group at `idx`, in device-list order (none when there is no such group).
pub open spec fn group_members(a: AppView, idx: int) -> Seq<Device> {
    if 0 <= idx < a.groups.len() {
        a.devices.filter(in_group(a.groups[idx]))
    } else {
        Seq::empty()
    }
}

/// A group with `mac` taken out when it holds it, and added at the end otherwise.
pub open spec fn toggled(g: GroupView, mac: Seq<char>) -> GroupView {
    if g.macs.contains(mac) {
        GroupView { name: g.name, macs: g.macs.filter(other_mac(mac)) }
    } else {
        GroupView { name: g.name, macs: g.macs.push(mac) }
    }
}

/// The display name of the first device with `mac`, or the empty text when no device has it.
pub open spec fn device_name_of(ds: Seq<Device>, mac: Seq<char>) -> Seq<char>
    decreases ds.len(),
{
    if ds.len() == 0 {
        Seq::empty()
    } else if ds[0].mac@ == mac {
        ds[0].display_text()
    } else {
        device_name_of(ds.drop_first(), mac)
    }
}

/// The name shown for `mac`: the name the user gave it, else the device's own display name.
pub open spec fn shown_text(a: AppView, mac: Seq<char>) -> Seq<char> {
    if a.names.contains_key(mac) {
        a.names[mac]
    } else {
        device_name_of(a.devices, mac)
    }
}

/// Whether a device counts as connected: it has a name and is not offline.
pub open spec fn is_connected(a: AppView) -> spec_fn(Device) -> bool {
    |d: Device| a.names.contains_key(d.mac@) && !a.offline.contains(d.mac@)
}

/// The tab after a stale group tab is dropped: a group tab whose group is gone becomes `All`.
pub open spec fn live_tab(a: AppView) -> Tab {
    match a.tab {
        Tab::Group(i) => if i >= a.groups.len() {
            Tab::All
        } else {
            a.tab
        },
        _ => a.tab,
    }
}

/// Toggling a MAC takes out exactly that MAC when the group holds it, and
/// adds it at the end otherwise: the group holds the MAC afterwards exactly
/// when it did not before, every other MAC stays in or out as it was, and
/// the name stays.
pub proof fn toggle_changes_only_that_mac(g: GroupView, m: Seq<char>)
    ensures
        toggled(g, m).name == g.name,
        toggled(g, m).macs.contains(m) <==> !g.macs.contains(m),
        !g.macs.contains(m) ==> toggled(g, m).macs == g.macs.push(m),
        forall|x: Seq<char>| x != m ==> (#[trigger] toggled(g, m).macs.contains(x) <==> g.macs.contains(x)),
{
    let t = toggled(g, m);
    if g.macs.contains(m) {
        let f = g.macs.filter(other_mac(m));
        if f.contains(m) {
            let i = choose|i: int| 0 <= i < f.len() && f[i] == m;
            g.macs.lemma_filter_pred(other_mac(m), i);
        }
        assert forall|x: Seq<char>| x != m implies (#[trigger] t.macs.contains(x) <==> g.macs.contains(x)) by {
            if g.macs.contains(x) {
                let i = choose|i: int| 0 <= i < g.macs.len() && g.macs[i] == x;
                g.macs.lemma_filter_contains(other_mac(m), i);
            }
            if f.contains(x) {
                g.macs.lemma_filter_contains_rev(other_mac(m), x);
            }
        }
    } else {
        assert(t.macs.last() == m);
        assert forall|x: Seq<char>| x != m implies (#[trigger] t.macs.contains(x) <==> g.macs.contains(x)) by {
            if g.macs.contains(x) {
                let i = choose|i: int| 0 <= i < g.macs.len() && g.macs[i] == x;
                assert(t.macs[i] == x);
            }
            if t.macs.contains(x) {
                let i = choose|i: int| 0 <= i < t.macs.len() && t.macs[i] == x;
                assert(g.macs[i] == x);
            }
        }
    }
}

/// The devices of a group are exactly the listed devices whose MAC the group
/// holds, each as often as it is listed and in list order.
pub proof fn group_members_are_the_listed_members(a: AppView, idx: int, d: Device)
    requires
        0 <= idx < a.groups.len(),
    ensures
        group_members(a, idx).contains(d) <==> a.devices.contains(d) && a.groups[idx].macs.contains(d.mac@),
        group_members(a, idx).len() <= a.devices.len(),
{
    let p = in_group(a.groups[idx]);
    a.devices.lemma_filter_len(p);
    if a.devices.contains(d) && a.groups[idx].macs.contains(d.mac@) {
        let i = choose|i: int| 0 <= i < a.devices.len() && a.devices[i] == d;
        a.devices.lemma_filter_contains(p, i);
    }
    if group_members(a, idx).contains(d) {
        a.devices.lemma_filter_contains_rev(p, d);
        let i = choose|i: int| 0 <= i < group_members(a, idx).len() && group_members(a, idx)[i] == d;
        a.devices.lemma_filter_pred(p, i);
    }
}

fn contains_mac(macs: &Vec<String>, mac: &String) -> (b: bool)
    ensures
        b == string_views(macs@).contains(mac@),
{
    let mut i: usize = 0;
    while i < macs.len()
        invariant
            i <= macs@.len(),
            forall|j: int| 0 <= j < i ==> #[trigger] macs@[j]@ != mac@,
        decreases macs@.len() - i,
    {
        if macs[i] == *mac {
            proof {
                assert(string_views(macs@)[i as int] == mac@);
            }
            return true;
        }
        i = i + 1;
    }
    proof {
        if string_views(macs@).contains(mac@) {
            let k = choose|k: int| 0 <= k < string_views(macs@).len() && string_views(macs@)[k] == mac@;
            assert(macs@[k]@ == mac@);
        }
    }
    false
}

fn without_mac(macs: &Vec<String>, mac: &String) -> (r: Vec<String>)
    ensures
        string_views(r@) == string_views(macs@).filter(other_mac(mac@)),
{
    let ghost all = string_views(macs@);
    let mut r: Vec<String> = Vec::new();
    let mut i: usize = 0;
    while i < macs.len()
        invariant
            i <= macs@.len(),
            all == string_views(macs@),
            string_views(r@) == all.take(i as int).filter(other_mac(mac@)),
        decreases macs@.len() - i,
    {
        proof {
            reveal(Seq::filter);
            assert(all.take(i + 1).drop_last() =~= all.take(i as int));
            assert(all.take(i + 1).last() == macs@[i as int]@);
        }
        if macs[i] != *mac {
            let ghost before = r@;
            r.push(macs[i].clone());
            proof {
                assert(string_views(r@) =~= string_views(before).push(macs@[i as int]@));
            }
        }
        i = i + 1;
    }
    proof {
        assert(all.take(macs@.len() as int) =~= all);
    }
    r
}

impl GoveeApp {
    /// Adds an empty group named `Group n` (n counting it) unless there are
    /// already `MAX_GROUPS`; tells whether it was added.
    pub fn add_group(&mut self) -> (added: bool)
        ensures
            added <==> old(self).groups@.len() < MAX_GROUPS,
            final(self)@ == (if added {
                AppView {
                    groups: old(self)@.groups.push(
                        GroupView { name: new_group_name(old(self).groups@.len() + 1), macs: Seq::empty() },
                    ),
                    ..old(self)@
                }
            } else {
                old(self)@
            }),
            final(self).cmd_tx == old(self).cmd_tx,
            final(self).evt_rx == old(self).evt_rx,
    {
        if self.groups.len() >= MAX_GROUPS {
            return false;
        }
        let mut name = String::new();
        name.append("Group ");
        push_decimal(&mut name, (self.groups.len() + 1) as u64);
        let ghost before = self.groups@;
        let g = Group { name, macs: Vec::new() };
        proof {
            assert(string_views(g.macs@) =~= Seq::<Seq<char>>::empty());
        }
        self.groups.push(g);
        proof {
            assert(groups_view(self.groups@) =~= groups_view(before).push(g@));
        }
        true
    }

    /// Takes `mac` out of the group at `idx` when the group holds it, and
    /// adds it otherwise; every other group stays as it was.
    pub fn toggle_device_in_group(&mut self, idx: usize, mac: &str)
        requires
            idx < old(self).groups@.len(),
        ensures
            final(self)@ == (AppView {
                groups: old(self)@.groups.update(idx as int, toggled(old(self)@.groups[idx as int], mac@)),
                ..old(self)@
            }),
            final(self).cmd_tx == old(self).cmd_tx,
            final(self).evt_rx == old(self).evt_rx,
    {
        let m = String::from_str(mac);
        let ghost before = self.groups@;
        let mut g = self.groups.remove(idx);
        let ghost gv = g@;
        if contains_mac(&g.macs, &m) {
            g.macs = without_mac(&g.macs, &m);
        } else {
            let ghost old_macs = g.macs@;
            g.macs.push(m);
            proof {
                assert(string_views(g.macs@) =~= string_views(old_macs).push(mac@));
            }
        }
        proof {
            assert(g@ == toggled(gv, mac@));
        }
        self.groups.insert(idx, g);
        proof {
            assert(self.groups@ =~= before.update(idx as int, g));
            assert(groups_view(self.groups@) =~= groups_view(before).update(idx as int, g@));
        }
    }

    /// Deletes the group at `idx` and goes back to the All tab; an index past
    /// the groups changes nothing.
    pub fn delete_group(&mut self, idx: usize)
        ensures
            final(self)@ == (if idx < old(self).groups@.len() {
                AppView {
                    groups: old(self)@.groups.remove(idx as int),
                    tab: Tab::All,
                    renaming_group: None,
                    ..old(self)@
                }
            } else {
                old(self)@
            }),
            final(self).cmd_tx == old(self).cmd_tx,
            final(self).evt_rx == old(self).evt_rx,
    {
        if idx < self.groups.len() {
            let ghost before = self.groups@;
            self.groups.remove(idx);
            self.tab = Tab::All;
            self.renaming_group = None;
            proof {
                assert(groups_view(self.groups@) =~= groups_view(before).remove(idx as int));
            }
        }
    }

    /// Drops a group tab whose group no longer exists, going back to All.
    pub fn reset_stale_tab(&mut self)
        ensures
            final(self)@ == (AppView { tab: live_tab(old(self)@), ..old(self)@ }),
            final(self).cmd_tx == old(self).cmd_tx,
            final(self).evt_rx == old(self).evt_rx,
    {
        match self.tab {
            Tab::Group(i) => {
                if i >= self.groups.len() {
                    self.tab = Tab::All;
                }
            },
            _ => {},
        }
    }

    /// The devices of the group at `idx`, in device-list order.
    pub fn group_devices(&self, idx: usize) -> (ds: Vec<Device>)
        ensures
            ds@ == group_members(self@, idx as int),
    {
        let mut ds: Vec<Device> = Vec::new();
        if idx >= self.groups.len() {
            return ds;
        }
        let g = &self.groups[idx];
        let ghost gv = g@;
        proof {
            assert(self@.groups[idx as int] == gv);
        }
        let mut i: usize = 0;
        while i < self.devices.len()
            invariant
                i <= self.devices@.len(),
                gv == g@,
                ds@ == self.devices@.take(i as int).filter(in_group(gv)),
            decreases self.devices@.len() - i,
        {
            proof {
                reveal(Seq::filter);
                assert(self.devices@.take(i + 1).drop_last() =~= self.devices@.take(i as int));
                assert(self.devices@.take(i + 1).last() == self.devices@[i as int]);
            }
            if contains_mac(&g.macs, &self.devices[i].mac) {
                ds.push(self.devices[i].duplicate());
            }
            i = i + 1;
        }
        proof {
            assert(self.devices@.take(self.devices@.len() as int) =~= self.devices@);
        }
        ds
    }

    /// The command that applies `action` to every device.
    pub fn broadcast(&self, action: BroadcastAction) -> (c: Command)
        ensures
            c@ == CommandView::Broadcast(self.devices@, action),
    {
        Command::Broadcast(copy_devices(&self.devices), action)
    }

    /// The command that applies `action` to the devices of the group at `idx`.
    pub fn broadcast_group(&self, idx: usize, action: BroadcastAction) -> (c: Command)
        ensures
            c@ == CommandView::Broadcast(group_members(self@, idx as int), action),
    {
        Command::Broadcast(self.group_devices(idx), action)
    }

    /// The name shown for `mac`: the name the user gave it, else the display
    /// name of the first device with that MAC, else the empty text.
    pub fn shown_name(&self, mac: &str) -> (n: String)
        ensures
            n@ == shown_text(self@, mac@),
    {
        let m = String::from_str(mac);
        match self.names.get(&m) {
            Some(n) => {
                return n.clone();
            },
            None => {},
        }
        let n = self.devices.len();
        let mut i: usize = 0;
        proof {
            assert(!self@.names.contains_key(mac@));
            assert(self.devices@.subrange(0, n as int) =~= self.devices@);
        }
        while i < n
            invariant
                n == self.devices@.len(),
                i <= n,
                m@ == mac@,
                !self@.names.contains_key(mac@),
                device_name_of(self.devices@, mac@) == device_name_of(
                    self.devices@.subrange(i as int, n as int),
                    mac@,
                ),
            decreases n - i,
        {
            let ghost rest = self.devices@.subrange(i as int, n as int);
            proof {
                assert(rest[0] == self.devices@[i as int]);
                assert(rest.drop_first() =~= self.devices@.subrange(i + 1, n as int));
            }
            if self.devices[i].mac == m {
                return String::from_str(self.devices[i].display_name());
            }
            i = i + 1;
        }
        proof {
            assert(self.devices@.subrange(n as int, n as int).len() == 0);
        }
        String::new()
    }

    /// Starts renaming the device `mac`, with its shown name in the text field.
    pub fn start_rename(&mut self, mac: &str)
        ensures
            final(self)@ == (AppView {
                renaming: Some(mac@),
                rename_buf: shown_text(old(self)@, mac@),
                ..old(self)@
            }),
            final(self).cmd_tx == old(self).cmd_tx,
            final(self).evt_rx == old(self).evt_rx,
    {
        let buf = self.shown_name(mac);
        self.rename_buf = buf;
        self.renaming = Some(String::from_str(mac));
    }

    /// Saves the typed name for the device being renamed and ends the
    /// rename; with no rename going on nothing changes.
    pub fn commit_rename(&mut self)
        ensures
            final(self)@ == (match old(self)@.renaming {
                Some(m) => AppView {
                    names: old(self)@.names.insert(m, old(self)@.rename_buf),
                    renaming: None,
                    rename_buf: Seq::empty(),
                    ..old(self)@
                },
                None => old(self)@,
            }),
            final(self).cmd_tx == old(self).cmd_tx,
            final(self).evt_rx == old(self).evt_rx,
    {
        if self.renaming.is_none() {
            return;
        }
        let mut target: Option<String> = None;
        std::mem::swap(&mut target, &mut self.renaming);
        let mut buf = String::new();
        std::mem::swap(&mut buf, &mut self.rename_buf);
        match target {
            Some(m) => {
                let ghost before = self.names@;
                let ghost k = m@;
                let ghost v = buf@;
                self.names.insert(m, buf);
                proof {
                    assert(names_view(self.names@) =~= names_view(before).insert(k, v));
                }
            },
            None => {},
        }
    }

    /// Ends a rename without saving.
    pub fn cancel_rename(&mut self)
        ensures
            final(self)@ == (AppView { renaming: None, rename_buf: Seq::empty(), ..old(self)@ }),
            final(self).cmd_tx == old(self).cmd_tx,
            final(self).evt_rx == old(self).evt_rx,
    {
        self.renaming = None;
        self.rename_buf = String::new();
    }

    /// Starts renaming the group at `idx`, with its name in the text field; an
    /// index past the groups changes nothing.
    pub fn start_rename_group(&mut self, idx: usize)
        ensures
            final(self)@ == (if idx < old(self).groups@.len() {
                AppView {
                    renaming_group: Some(idx),
                    group_rename_buf: old(self)@.groups[idx as int].name,
                    ..old(self)@
                }
            } else {
                old(self)@
            }),
            final(self).cmd_tx == old(self).cmd_tx,
            final(self).evt_rx == old(self).evt_rx,
    {
        if idx < self.groups.len() {
            let name = self.groups[idx].name.clone();
            proof {
                assert(self@.groups[idx as int].name == self.groups@[idx as int].name@);
            }
            self.group_rename_buf = name;
            self.renaming_group = Some(idx);
        }
    }

    /// Gives the group being renamed the typed name and ends the rename
    /// (a group that is gone is left alone); with no rename going on
    /// nothing changes.
    pub fn commit_rename_group(&mut self)
        ensures
            final(self)@ == (match old(self)@.renaming_group {
                Some(i) => if i < old(self)@.groups.len() {
                    AppView {
                        groups: old(self)@.groups.update(
                            i as int,
                            GroupView { name: old(self)@.group_rename_buf, macs: old(self)@.groups[i as int].macs },
                        ),
                        renaming_group: None,
                        group_rename_buf: Seq::empty(),
                        ..old(self)@
                    }
                } else {
                    AppView { renaming_group: None, group_rename_buf: Seq::empty(), ..old(self)@ }
                },
                None => old(self)@,
            }),
            final(self).cmd_tx == old(self).cmd_tx,
            final(self).evt_rx == old(self).evt_rx,
    {
        match self.renaming_group {
            None => {},
            Some(i) => {
                let mut buf = String::new();
                std::mem::swap(&mut buf, &mut self.group_rename_buf);
                self.renaming_group = None;
                if i < self.groups.len() {
                    let ghost before = self.groups@;
                    let mut g = self.groups.remove(i);
                    g.name = buf;
                    self.groups.insert(i, g);
                    proof {
                        assert(self.groups@ =~= before.update(i as int, g));
                        assert(groups_view(self.groups@) =~= groups_view(before).update(i as int, g@));
                    }
                }
            },
        }
    }

    /// Ends a group rename without saving.
    pub fn cancel_rename_group(&mut self)
        ensures
            final(self)@ == (AppView { renaming_group: None, group_rename_buf: Seq::empty(), ..old(self)@ }),
            final(self).cmd_tx == old(self).cmd_tx,
            final(self).evt_rx == old(self).evt_rx,
    {
        self.renaming_group = None;
        self.group_rename_buf = String::new();
    }

    /// How many devices are connected: named by the user and not offline.
    pub fn connected_count(&self) -> (n: usize)
        ensures
            n == self@.devices.filter(is_connected(self@)).len(),
    {
        let ghost a = self@;
        let mut n: usize = 0;
        let mut i: usize = 0;
        while i < self.devices.len()
            invariant
                a == self@,
                i <= self.devices@.len(),
                n <= i,
                n == self.devices@.take(i as int).filter(is_connected(a)).len(),
            decreases self.devices@.len() - i,
        {
            proof {
                reveal(Seq::filter);
                assert(self.devices@.take(i + 1).drop_last() =~= self.devices@.take(i as int));
                assert(self.devices@.take(i + 1).last() == self.devices@[i as int]);
            }
            let mac = &self.devices[i].mac;
            let named = self.names.contains_key(mac);
            let off = self.offline_macs.contains_key(mac);
            if named && !off {
                n = n + 1;
            }
            i = i + 1;
        }
        proof {
            assert(self.devices@.take(self.devices@.len() as int) =~= self.devices@);
        }
        n
    }
}

// ── Hex color text ───────────────────────────────────────────────────────────

/// `s` without its leading `#`, if it has one.
pub open spec fn strip_hash(s: Seq<char>) -> Seq<char> {
    if s.len() > 0 && s[0] == '#' {
        s.drop_first()
    } else {
        s
    }
}

/// The value of a hexadecimal digit (either case), or `None` for any other character.
pub open spec fn hex_digit_value(c: char) -> Option<u8> {
    if '0' <= c <= '9' {
        Some((c as u8 - 48) as u8)
    } else if 'a' <= c <= 'f' {
        Some((c as u8 - 87) as u8)
    } else if 'A' <= c <= 'F' {
        Some((c as u8 - 55) as u8)
    } else {
        None
    }
}

/// A byte written as two hexadecimal digits, high digit first.
pub open spec fn hex_pair(a: char, b: char) -> Option<u8> {
    match (hex_digit_value(a), hex_digit_value(b)) {
        (Some(x), Some(y)) => Some((16 * x + y) as u8),
        _ => None,
    }
}

/// The color a `RRGGBB` or `#RRGGBB` text names, or `None` when it names none.
pub open spec fn hex_color(s: Seq<char>) -> Option<Color> {
    let t = strip_hash(s);
    if t.len() != 6 {
        None
    } else {
        match (hex_pair(t[0], t[1]), hex_pair(t[2], t[3]), hex_pair(t[4], t[5])) {
            (Some(r), Some(g), Some(b)) => Some(Color { r, g, b }),
            _ => None,
        }
    }
}

proof fn lemma_hex_char_value(d: nat)
    requires
        d < 16,
    ensures
        hex_digit_value(hex_char(d)) == Some(d as u8),
{
}

proof fn lemma_hex_byte_pair(b: u8)
    ensures
        hex_pair(hex_byte(b)[0], hex_byte(b)[1]) == Some(b),
{
    lemma_hex_char_value((b / 16) as nat);
    lemma_hex_char_value((b % 16) as nat);
}

/// Reading back the `#RRGGBB` text of a color gives the same color.
pub proof fn hex_text_round_trip(c: Color)
    ensures
        hex_color(c.hex_text()) == Some(c),
{
    let s = c.hex_text();
    lemma_hex_byte_pair(c.r);
    lemma_hex_byte_pair(c.g);
    lemma_hex_byte_pair(c.b);
    let t = hex_byte(c.r) + hex_byte(c.g) + hex_byte(c.b);
    assert(s.drop_first() =~= t);
    assert(strip_hash(s) == t);
    assert(t[0] == hex_byte(c.r)[0] && t[1] == hex_byte(c.r)[1]);
    assert(t[2] == hex_byte(c.g)[0] && t[3] == hex_byte(c.g)[1]);
    assert(t[4] == hex_byte(c.b)[0] && t[5] == hex_byte(c.b)[1]);
}

fn hex_digit_of(c: char) -> (v: Option<u8>)
    ensures
        v == hex_digit_value(c),
{
    if '0' <= c && c <= '9' {
        Some((c as u8) - 48)
    } else if 'a' <= c && c <= 'f' {
        Some((c as u8) - 87)
    } else if 'A' <= c && c <= 'F' {
        Some((c as u8) - 55)
    } else {
        None
    }
}

fn hex_pair_of(a: char, b: char) -> (v: Option<u8>)
    ensures
        v == hex_pair(a, b),
{
    match (hex_digit_of(a), hex_digit_of(b)) {
        (Some(x), Some(y)) => Some(16 * x + y),
        _ => None,
    }
}

/// Parse a CSS-style hex color string (`RRGGBB` or `#RRGGBB`) into a [`Color`]:
/// an optional `#`, then exactly six hexadecimal digits of either case.
/// Any other text gives `None`.
pub fn parse_hex_color(s: &str) -> (c: Option<Color>)
    ensures
        c == hex_color(s@),
{
    let n = s.unicode_len();
    let i: usize = if n > 0 && s.get_char(0) == '#' {
        1
    } else {
        0
    };
    proof {
        assert(strip_hash(s@) =~= s@.subrange(i as int, n as int));
    }
    if n - i != 6 {
        return None;
    }
    let r = hex_pair_of(s.get_char(i), s.get_char(i + 1));
    let g = hex_pair_of(s.get_char(i + 2), s.get_char(i + 3));
    let b = hex_pair_of(s.get_char(i + 4), s.get_char(i + 5));
    match (r, g, b) {
        (Some(r), Some(g), Some(b)) => Some(Color::new(r, g, b)),
        _ => None,
    }
}

} // verus!
