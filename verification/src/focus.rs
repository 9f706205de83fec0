//! Panel focus and run mode.
//!
//! Focus names the panel that interprets panel-scoped key input. It is
//! changed by a direct jump or by a cyclic advance/retreat; both cycles
//! visit all three panels. The run mode is monotonic: once `Quit` is
//! reached no transition leaves it.

use vstd::prelude::*;

verus! {

/// The panel that currently receives panel-scoped key events.
#[derive(Clone, Copy, Debug, PartialEq, Eq, Structural)]
pub enum Focus {
    Devices,
    Children,
    Stats,
}

/// Whether the run loop keeps going.
#[derive(Clone, Copy, Debug, PartialEq, Eq, Structural)]
pub enum Mode {
    Running,
    Quit,
}

/// Cyclic advance: Devices -> Stats -> Children -> Devices.
pub open spec fn spec_focus_next(f: Focus) -> Focus {
    match f {
        Focus::Devices => Focus::Stats,
        Focus::Stats => Focus::Children,
        Focus::Children => Focus::Devices,
    }
}

/// Cyclic retreat: Devices -> Children -> Stats -> Devices.
pub open spec fn spec_focus_prev(f: Focus) -> Focus {
    match f {
        Focus::Devices => Focus::Children,
        Focus::Stats => Focus::Devices,
        Focus::Children => Focus::Stats,
    }
}

/// Law: the cyclic advance applied three times returns to the starting
/// panel, from any starting panel.
pub proof fn lemma_focus_next_cycles(f: Focus)
    ensures
        spec_focus_next(spec_focus_next(spec_focus_next(f))) == f,
{
}

/// Law: the cyclic retreat applied three times returns to the starting
/// panel, from any starting panel.
pub proof fn lemma_focus_prev_cycles(f: Focus)
    ensures
        spec_focus_prev(spec_focus_prev(spec_focus_prev(f))) == f,
{
}

/// Law: starting from the Devices panel, a cyclic advance followed by a
/// cyclic retreat lands back on Devices.
pub proof fn lemma_focus_round_trip_from_devices()
    ensures
        spec_focus_prev(spec_focus_next(Focus::Devices)) == Focus::Devices,
{
}

} // verus!
