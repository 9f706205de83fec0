//! The device collection and its two selection cursors.
//!
//! `Devices` pairs the ordered device list with a cursor over it and an
//! independent cursor over the selected device's child-outlet list. The
//! child cursor is deliberately not reset when the device selection
//! changes, so it can go stale against a new device's child list; every
//! reader of the collection therefore indexes defensively. The toggle
//! decision and the per-panel view models are computed here as plain
//! values; drawing them and carrying commands to the wire happen
//! outside the library.

use vstd::prelude::*;

use crate::cursor::{spec_step_next, spec_step_prev, Cursor};
use crate::model::Device;

verus! {

/// The relay command that a toggle decision asks the device registry to
/// carry out. `device` and `relay` index the device list and the
/// selected device's relays.
#[derive(Clone, Copy, Debug, PartialEq, Eq, Structural)]
pub enum ToggleAction {
    /// No device is selected, or the selected device has no sysinfo
    /// snapshot yet: nothing to do.
    Nothing,
    /// Toggle the single relay of a childless device.
    Single { device: usize },
    /// Toggle one relay of a multi-relay device by its index.
    ById { device: usize, relay: usize },
}

/// What the device-info panel shows of the selected device.
pub enum DeviceInfo {
    /// The alias out of the selected device's sysinfo snapshot.
    Alias(String),
    /// A device is selected but carries no sysinfo snapshot.
    NoSysinfo,
    /// No device is selected.
    NoSelection,
}

/// One line of the children panel: a child outlet's alias next to its
/// telemetry record's current draw.
pub struct ChildRow {
    pub alias: String,
    pub current_ma: u32,
}

/// What the children panel shows of the selected device.
pub enum ChildrenView {
    /// A multi-relay device with telemetry: child outlets zipped with
    /// their telemetry records, cut to the shorter of the two lists.
    Rows(Vec<ChildRow>),
    /// A childless device: its alias alone.
    SingleOutlet(String),
    /// No selection, no sysinfo, or no telemetry fetched yet.
    Empty,
}

/// What the bottom action bar shows of the selected device.
pub enum BottomBar {
    /// A childless device: its alias, offered for a single toggle.
    SingleOutlet(String),
    /// A multi-relay device: the aliases of its child outlets in order.
    ChildLabels(Vec<String>),
    /// No selection or no sysinfo snapshot.
    Unavailable,
}

/// The ordered device list with its device cursor and child cursor.
pub struct Devices {
    pub devices: Vec<Device>,
    pub state: Cursor,
    pub child_state: Cursor,
}

/// The toggle decision for the current selection: a no-op without a
/// selected device or a sysinfo snapshot; "toggle single relay" when the
/// snapshot reports no children; otherwise "toggle relay by index" with
/// the device cursor's index as the relay index. The child cursor is
/// never consulted, which mirrors the observed coupling of the console.
pub open spec fn spec_toggle_action(d: Devices) -> ToggleAction {
    match d.state.selected {
        None => ToggleAction::Nothing,
        Some(p) => if (p as int) < d.devices@.len() {
            match d.devices@[p as int].sysinfo {
                None => ToggleAction::Nothing,
                Some(si) => if si.child_num > 0 {
                    ToggleAction::ById { device: p, relay: p }
                } else {
                    ToggleAction::Single { device: p }
                },
            }
        } else {
            ToggleAction::Nothing
        },
    }
}

impl Devices {
    /// The device cursor stays inside the device list.
    pub open spec fn wf(self) -> bool {
        self.state.in_bounds(self.devices.len())
    }

    /// The length of the selected device's child-outlet list; zero when
    /// no device is selected or no sysinfo snapshot is held.
    pub open spec fn spec_child_len(self) -> usize {
        match self.state.selected {
            None => 0usize,
            Some(p) => if (p as int) < self.devices@.len() {
                match self.devices@[p as int].sysinfo {
                    None => 0usize,
                    Some(si) => si.children@.len() as usize,
                }
            } else {
                0usize
            },
        }
    }

    pub fn new() -> (r: Devices)
        ensures
            r.devices@.len() == 0,
            r.state.selected == Option::<usize>::None,
            r.child_state.selected == Option::<usize>::None,
    {
        Devices { devices: Vec::new(), state: Cursor::new(), child_state: Cursor::new() }
    }

    /// The length of the selected device's child-outlet list.
    pub fn child_len(&self) -> (r: usize)
        ensures
            r == self.spec_child_len(),
    {
        match self.state.selected() {
            None => 0,
            Some(p) => {
                if p < self.devices.len() {
                    match &self.devices[p].sysinfo {
                        None => 0,
                        Some(si) => si.children.len(),
                    }
                } else {
                    0
                }
            }
        }
    }

    /// Retreat the device cursor by one, saturating at the first device.
    pub fn prev(&mut self)
        ensures
            final(self).state.selected == spec_step_prev(
                old(self).state.selected,
                old(self).devices.len(),
            ),
            final(self).devices == old(self).devices,
            final(self).child_state == old(self).child_state,
            final(self).wf(),
    {
        let len = self.devices.len();
        self.state.select_previous(len);
    }

    /// Advance the device cursor by one, saturating at the last device.
    pub fn next(&mut self)
        ensures
            final(self).state.selected == spec_step_next(
                old(self).state.selected,
                old(self).devices.len(),
            ),
            final(self).devices == old(self).devices,
            final(self).child_state == old(self).child_state,
            final(self).wf(),
    {
        let len = self.devices.len();
        self.state.select_next(len);
    }

    /// Retreat the child cursor by one within the selected device's
    /// child-outlet list, saturating at the first child.
    pub fn prev_child(&mut self)
        ensures
            final(self).child_state.selected == spec_step_prev(
                old(self).child_state.selected,
                old(self).spec_child_len(),
            ),
            final(self).devices == old(self).devices,
            final(self).state == old(self).state,
    {
        let len = self.child_len();
        self.child_state.select_previous(len);
    }

    /// Advance the child cursor by one within the selected device's
    /// child-outlet list, saturating at the last child.
    pub fn next_child(&mut self)
        ensures
            final(self).child_state.selected == spec_step_next(
                old(self).child_state.selected,
                old(self).spec_child_len(),
            ),
            final(self).devices == old(self).devices,
            final(self).state == old(self).state,
    {
        let len = self.child_len();
        self.child_state.select_next(len);
    }

    /// Decide which relay a toggle of the current selection addresses.
    /// The decision is a value; carrying it to the device happens
    /// outside the library, fire-and-forget.
    pub fn toggle_selected_child_outlet(&self) -> (r: ToggleAction)
        ensures
            r == spec_toggle_action(*self),
    {
        match self.state.selected() {
            None => ToggleAction::Nothing,
            Some(p) => {
                if p < self.devices.len() {
                    match &self.devices[p].sysinfo {
                        None => ToggleAction::Nothing,
                        Some(si) => {
                            if si.child_num > 0 {
                                ToggleAction::ById { device: p, relay: p }
                            } else {
                                ToggleAction::Single { device: p }
                            }
                        }
                    }
                } else {
                    ToggleAction::Nothing
                }
            }
        }
    }

    /// The device-list panel's rows: one address per device, in order.
    pub fn device_list_items(&self) -> (r: Vec<String>)
        ensures
            r@.len() == self.devices@.len(),
            forall|i: int| 0 <= i < r@.len() ==> r@[i]@ == self.devices@[i].ip_addr@,
    {
        let mut items: Vec<String> = Vec::new();
        let mut k: usize = 0;
        while k < self.devices.len()
            invariant
                k <= self.devices@.len(),
                items@.len() == k as int,
                forall|i: int| 0 <= i < k as int ==> items@[i]@ == self.devices@[i].ip_addr@,
            decreases self.devices@.len() - k,
        {
            items.push(self.devices[k].ip_addr.clone());
            k += 1;
        }
        items
    }

    /// The info panel's content: the selected device's alias when a
    /// sysinfo snapshot is held, and a defined placeholder otherwise.
    pub fn device_info(&self) -> (r: DeviceInfo)
        ensures
            (match self.state.selected {
                None => r is NoSelection,
                Some(p) => if (p as int) < self.devices@.len() {
                    match self.devices@[p as int].sysinfo {
                        None => r is NoSysinfo,
                        Some(si) => r matches DeviceInfo::Alias(a) && a@ == si.alias@,
                    }
                } else {
                    r is NoSelection
                },
            }),
    {
        match self.state.selected() {
            None => DeviceInfo::NoSelection,
            Some(p) => {
                if p < self.devices.len() {
                    match &self.devices[p].sysinfo {
                        None => DeviceInfo::NoSysinfo,
                        Some(si) => DeviceInfo::Alias(si.alias.clone()),
                    }
                } else {
                    DeviceInfo::NoSelection
                }
            }
        }
    }

    /// The children panel's content. For a multi-relay device the rows
    /// zip child outlets with telemetry records and stop at the shorter
    /// list, so a telemetry list that diverges from the child list can
    /// never be indexed out of bounds.
    pub fn children_view(&self) -> (r: ChildrenView)
        ensures
            (match self.state.selected {
                None => r is Empty,
                Some(p) => if (p as int) < self.devices@.len() {
                    match self.devices@[p as int].sysinfo {
                        None => r is Empty,
                        Some(si) => if si.child_num > 0 {
                            if self.devices@[p as int].realtime@.len() > 0 {
                                r matches ChildrenView::Rows(rows) && {
                                    let ch = si.children@;
                                    let rt = self.devices@[p as int].realtime@;
                                    &&& rows@.len() == (if ch.len() <= rt.len() {
                                        ch.len()
                                    } else {
                                        rt.len()
                                    })
                                    &&& forall|i: int|
                                        0 <= i < rows@.len() ==> rows@[i].alias@ == ch[i].alias@
                                            && rows@[i].current_ma == rt[i].current_ma
                                }
                            } else {
                                r is Empty
                            }
                        } else {
                            r matches ChildrenView::SingleOutlet(a) && a@ == si.alias@
                        },
                    }
                } else {
                    r is Empty
                },
            }),
    {
        match self.state.selected() {
            None => ChildrenView::Empty,
            Some(p) => {
                if p < self.devices.len() {
                    let dev = &self.devices[p];
                    match &dev.sysinfo {
                        None => ChildrenView::Empty,
                        Some(si) => {
                            if si.child_num > 0 {
                                if dev.realtime.len() > 0 {
                                    let n: usize = if si.children.len() <= dev.realtime.len() {
                                        si.children.len()
                                    } else {
                                        dev.realtime.len()
                                    };
                                    let mut rows: Vec<ChildRow> = Vec::new();
                                    let mut k: usize = 0;
                                    while k < n
                                        invariant
                                            n <= si.children@.len(),
                                            n <= dev.realtime@.len(),
                                            k <= n,
                                            rows@.len() == k as int,
                                            forall|i: int|
                                                0 <= i < k as int ==> rows@[i].alias@
                                                    == si.children@[i].alias@ && rows@[i].current_ma
                                                    == dev.realtime@[i].current_ma,
                                        decreases n - k,
                                    {
                                        rows.push(
                                            ChildRow {
                                                alias: si.children[k].alias.clone(),
                                                current_ma: dev.realtime[k].current_ma,
                                            },
                                        );
                                        k += 1;
                                    }
                                    ChildrenView::Rows(rows)
                                } else {
                                    ChildrenView::Empty
                                }
                            } else {
                                ChildrenView::SingleOutlet(si.alias.clone())
                            }
                        }
                    }
                } else {
                    ChildrenView::Empty
                }
            }
        }
    }

    /// The bottom bar's content: a single-toggle label for a childless
    /// device, the child aliases in order for a multi-relay device, and
    /// a defined placeholder otherwise.
    pub fn bottom_bar(&self) -> (r: BottomBar)
        ensures
            (match self.state.selected {
                None => r is Unavailable,
                Some(p) => if (p as int) < self.devices@.len() {
                    match self.devices@[p as int].sysinfo {
                        None => r is Unavailable,
                        Some(si) => if si.child_num == 0 {
                            r matches BottomBar::SingleOutlet(a) && a@ == si.alias@
                        } else {
                            r matches BottomBar::ChildLabels(ls) && ls@.len() == si.children@.len()
                                && forall|i: int|
                                0 <= i < ls@.len() ==> ls@[i]@ == si.children@[i].alias@
                        },
                    }
                } else {
                    r is Unavailable
                },
            }),
    {
        match self.state.selected() {
            None => BottomBar::Unavailable,
            Some(p) => {
                if p < self.devices.len() {
                    match &self.devices[p].sysinfo {
                        None => BottomBar::Unavailable,
                        Some(si) => {
                            if si.child_num == 0 {
                                BottomBar::SingleOutlet(si.alias.clone())
                            } else {
                                let mut labels: Vec<String> = Vec::new();
                                let mut k: usize = 0;
                                while k < si.children.len()
                                    invariant
                                        k <= si.children@.len(),
                                        labels@.len() == k as int,
                                        forall|i: int|
                                            0 <= i < k as int ==> labels@[i]@
                                                == si.children@[i].alias@,
                                    decreases si.children@.len() - k,
                                {
                                    labels.push(si.children[k].alias.clone());
                                    k += 1;
                                }
                                BottomBar::ChildLabels(labels)
                            }
                        }
                    }
                } else {
                    BottomBar::Unavailable
                }
            }
        }
    }
}

/// Law: toggling a selected device whose sysinfo snapshot reports no
/// children decides "toggle single relay" on that device, never "toggle
/// relay by index".
pub proof fn lemma_toggle_single_relay(d: Devices, p: usize)
    requires
        d.state.selected == Some(p),
        (p as int) < d.devices@.len(),
        d.devices@[p as int].sysinfo matches Some(si) && si.child_num == 0,
    ensures
        spec_toggle_action(d) == (ToggleAction::Single { device: p }),
{
}

/// Law: toggling a selected device whose sysinfo snapshot reports
/// children decides "toggle relay by index" with the device cursor's
/// index as the relay index.
pub proof fn lemma_toggle_by_device_cursor(d: Devices, p: usize)
    requires
        d.state.selected == Some(p),
        (p as int) < d.devices@.len(),
        d.devices@[p as int].sysinfo matches Some(si) && si.child_num > 0,
    ensures
        spec_toggle_action(d) == (ToggleAction::ById { device: p, relay: p }),
{
}

/// Law: the toggle decision never consults the child cursor: two
/// collections that agree on the device list and the device cursor
/// decide the same action, whatever their child cursors hold.
pub proof fn lemma_toggle_ignores_child_cursor(d1: Devices, d2: Devices)
    requires
        d1.devices == d2.devices,
        d1.state == d2.state,
    ensures
        spec_toggle_action(d1) == spec_toggle_action(d2),
{
}

impl Default for Devices {
    /// An empty collection with no selections.
    fn default() -> (r: Devices)
        ensures
            r.devices@.len() == 0,
            r.state.selected == Option::<usize>::None,
            r.child_state.selected == Option::<usize>::None,
    {
        Devices::new()
    }
}

} // verus!
