//! The console state and its command dispatcher.
//!
//! `App` aggregates the focus, the run mode and the device collection.
//! A key press runs through two passes, both always: a global pass that
//! can quit or change focus, then a focus-scoped pass, interpreted
//! under the focus the global pass left, that moves a cursor or decides
//! a toggle. The dispatcher only decides; reading keys, drawing and
//! talking to devices happen outside the library.

use vstd::prelude::*;

use crate::cursor::{spec_step_next, spec_step_prev};
use crate::devices::{spec_toggle_action, Devices, ToggleAction};
use crate::focus::{spec_focus_next, spec_focus_prev, Focus, Mode};
use crate::model::{Device, Telemetry};

verus! {

/// A key press as the dispatcher reads it. Only presses reach the
/// dispatcher; any key it does not bind is `Other` and leaves the state
/// unchanged.
#[derive(Clone, Copy, Debug, PartialEq, Eq)]
pub enum Key {
    Char(char),
    Esc,
    Up,
    Down,
    Other,
}

/// Whether the key quits the console.
pub open spec fn spec_quits(key: Key) -> bool {
    key == Key::Char('q') || key == Key::Esc
}

/// The run mode after the global dispatch pass: `Quit` on a quit key,
/// otherwise the mode as it was.
pub open spec fn spec_mode_after(m: Mode, key: Key) -> Mode {
    if spec_quits(key) {
        Mode::Quit
    } else {
        m
    }
}

/// Law: the run mode is monotonic: once it is `Quit`, no dispatched key
/// leaves `Quit`.
pub proof fn lemma_quit_is_monotonic(key: Key)
    ensures
        spec_mode_after(Mode::Quit, key) == Mode::Quit,
{
}

/// The focus after the global dispatch pass: a direct jump for the
/// dedicated panel keys, a cyclic retreat or advance for the cycle
/// keys, and otherwise the focus as it was.
pub open spec fn spec_focus_after(f: Focus, key: Key) -> Focus {
    match key {
        Key::Char(c) => if c == 'd' {
            Focus::Devices
        } else if c == 's' {
            Focus::Stats
        } else if c == 'c' {
            Focus::Children
        } else if c == 'k' {
            spec_focus_prev(f)
        } else if c == 'j' {
            spec_focus_next(f)
        } else {
            f
        },
        _ => f,
    }
}

/// The console state: which panel has focus, whether the loop keeps
/// running, and the device collection with its cursors.
pub struct App {
    pub focused: Focus,
    pub mode: Mode,
    pub devices: Devices,
}

impl App {
    /// The device cursor stays inside the device list.
    pub open spec fn wf(self) -> bool {
        self.devices.wf()
    }

    /// Start on the Devices panel, running, with an empty collection.
    pub fn new() -> (r: App)
        ensures
            r.focused == Focus::Devices,
            r.mode == Mode::Running,
            r.devices.devices@.len() == 0,
            r.devices.state.selected == Option::<usize>::None,
            r.devices.child_state.selected == Option::<usize>::None,
            r.wf(),
    {
        App { focused: Focus::Devices, mode: Mode::Running, devices: Devices::new() }
    }

    /// The loop keeps going until the mode reaches `Quit`.
    pub fn is_running(&self) -> (r: bool)
        ensures
            r == (self.mode != Mode::Quit),
    {
        self.mode != Mode::Quit
    }

    /// Install a discovered device list, selecting the first device
    /// when the list is non-empty and clearing the selection when it is
    /// empty. The child cursor is left as it was.
    pub fn set_devices(&mut self, devs: Vec<Device>)
        ensures
            final(self).devices.devices == devs,
            final(self).devices.state.selected == (if devs@.len() > 0 {
                Some(0usize)
            } else {
                Option::<usize>::None
            }),
            final(self).devices.child_state == old(self).devices.child_state,
            final(self).focused == old(self).focused,
            final(self).mode == old(self).mode,
            final(self).wf(),
    {
        let nonempty = devs.len() > 0;
        self.devices.devices = devs;
        self.devices.state.select(if nonempty { Some(0) } else { None });
    }

    /// Cyclic focus retreat.
    pub fn prev(&mut self)
        ensures
            final(self).focused == spec_focus_prev(old(self).focused),
            final(self).mode == old(self).mode,
            final(self).devices == old(self).devices,
    {
        self.focused = match self.focused {
            Focus::Devices => Focus::Children,
            Focus::Stats => Focus::Devices,
            Focus::Children => Focus::Stats,
        };
    }

    /// Cyclic focus advance.
    pub fn next(&mut self)
        ensures
            final(self).focused == spec_focus_next(old(self).focused),
            final(self).mode == old(self).mode,
            final(self).devices == old(self).devices,
    {
        self.focused = match self.focused {
            Focus::Devices => Focus::Stats,
            Focus::Stats => Focus::Children,
            Focus::Children => Focus::Devices,
        };
    }

    /// Dispatch one key press: the global pass first (quit, focus jump,
    /// focus cycle), then the focus-scoped pass under the focus the
    /// global pass left (cursor moves; the toggle decision on the
    /// Children panel). Both passes run for every key. The returned
    /// action is for the caller to carry to the device registry.
    pub fn handle_key_press(&mut self, key: Key) -> (r: ToggleAction)
        ensures
            final(self).mode == spec_mode_after(old(self).mode, key),
            final(self).focused == spec_focus_after(old(self).focused, key),
            final(self).devices.devices == old(self).devices.devices,
            final(self).devices.state.selected == (if spec_focus_after(old(self).focused, key)
                == Focus::Devices && key == Key::Up {
                spec_step_prev(old(self).devices.state.selected, old(self).devices.devices.len())
            } else if spec_focus_after(old(self).focused, key) == Focus::Devices && key
                == Key::Down {
                spec_step_next(old(self).devices.state.selected, old(self).devices.devices.len())
            } else {
                old(self).devices.state.selected
            }),
            final(self).devices.child_state.selected == (if spec_focus_after(
                old(self).focused,
                key,
            ) == Focus::Children && key == Key::Up {
                spec_step_prev(old(self).devices.child_state.selected, old(self).devices.spec_child_len())
            } else if spec_focus_after(old(self).focused, key) == Focus::Children && key
                == Key::Down {
                spec_step_next(old(self).devices.child_state.selected, old(self).devices.spec_child_len())
            } else {
                old(self).devices.child_state.selected
            }),
            r == (if spec_focus_after(old(self).focused, key) == Focus::Children && key
                == Key::Char(' ') {
                spec_toggle_action(old(self).devices)
            } else {
                ToggleAction::Nothing
            }),
            old(self).wf() ==> final(self).wf(),
    {
        match key {
            Key::Char(c) => {
                if c == 'q' {
                    self.mode = Mode::Quit;
                } else if c == 'd' {
                    self.focused = Focus::Devices;
                } else if c == 's' {
                    self.focused = Focus::Stats;
                } else if c == 'c' {
                    self.focused = Focus::Children;
                } else if c == 'k' {
                    self.prev();
                } else if c == 'j' {
                    self.next();
                }
            }
            Key::Esc => {
                self.mode = Mode::Quit;
            }
            _ => {}
        }
        let mut action = ToggleAction::Nothing;
        match self.focused {
            Focus::Devices => {
                match key {
                    Key::Up => self.devices.prev(),
                    Key::Down => self.devices.next(),
                    _ => {}
                }
            }
            Focus::Children => {
                match key {
                    Key::Char(c) => {
                        if c == ' ' {
                            action = self.devices.toggle_selected_child_outlet();
                        }
                    }
                    Key::Up => self.devices.prev_child(),
                    Key::Down => self.devices.next_child(),
                    _ => {}
                }
            }
            Focus::Stats => {}
        }
        action
    }

    /// Store a telemetry fetch's outcome. A successful fetch overwrites
    /// the selected device's telemetry in place; a failed fetch, or the
    /// lack of a selection, leaves everything unchanged, so a stale but
    /// valid display survives a transient failure.
    pub fn update_realtime(&mut self, fetched: Option<Vec<Telemetry>>)
        ensures
            final(self).focused == old(self).focused,
            final(self).mode == old(self).mode,
            final(self).devices.state == old(self).devices.state,
            final(self).devices.child_state == old(self).devices.child_state,
            ({
                let devs0 = old(self).devices.devices@;
                let devs1 = final(self).devices.devices@;
                match (old(self).devices.state.selected, fetched) {
                    (Some(p), Some(rt)) => if (p as int) < devs0.len() {
                        devs1 == devs0.update(
                            p as int,
                            (Device {
                                ip_addr: devs0[p as int].ip_addr,
                                sysinfo: devs0[p as int].sysinfo,
                                realtime: rt,
                            }),
                        )
                    } else {
                        devs1 == devs0
                    },
                    _ => devs1 == devs0,
                }
            }),
            old(self).wf() ==> final(self).wf(),
    {
        if let Some(p) = self.devices.state.selected() {
            if p < self.devices.devices.len() {
                if let Some(rt) = fetched {
                    let d = &mut self.devices.devices[p];
                    d.realtime = rt;
                }
            }
        }
    }
}

impl Default for App {
    /// Start on the Devices panel, running, with an empty collection.
    fn default() -> (r: App)
        ensures
            r.focused == Focus::Devices,
            r.mode == Mode::Running,
            r.devices.devices@.len() == 0,
            r.devices.state.selected == Option::<usize>::None,
            r.devices.child_state.selected == Option::<usize>::None,
    {
        App::new()
    }
}

} // verus!
