//! Selection cursors.
//!
//! A cursor is "no selection" or an index into an ordered collection.
//! Moving it one step in either direction saturates at the ends of the
//! collection instead of wrapping, and a move on an empty collection
//! clears the selection.

use vstd::prelude::*;

verus! {

/// One step forward: on an empty collection the selection is cleared;
/// with no selection the first element is selected; otherwise the index
/// advances by one and saturates at the last element. An index that
/// lies beyond the collection (a stale selection) is clamped back in.
pub open spec fn spec_step_next(sel: Option<usize>, len: usize) -> Option<usize> {
    if len == 0 {
        None
    } else {
        match sel {
            None => Some(0usize),
            Some(i) => if i + 1 < len {
                Some((i + 1) as usize)
            } else {
                Some((len - 1) as usize)
            },
        }
    }
}

/// One step back: on an empty collection the selection is cleared;
/// with no selection the first element is selected; otherwise the index
/// retreats by one and saturates at the first element. An index that
/// lies beyond the collection (a stale selection) is clamped back in.
pub open spec fn spec_step_prev(sel: Option<usize>, len: usize) -> Option<usize> {
    if len == 0 {
        None
    } else {
        match sel {
            None => Some(0usize),
            Some(i) => if i == 0 {
                Some(0usize)
            } else if i - 1 < len {
                Some((i - 1) as usize)
            } else {
                Some((len - 1) as usize)
            },
        }
    }
}

/// A selection cursor: "no selection" or an index into an ordered
/// collection whose length the move operations receive.
pub struct Cursor {
    pub selected: Option<usize>,
}

impl Cursor {
    /// The cursor is within bounds of a collection of length `len`:
    /// an index, if present, is below `len`, so an empty collection
    /// carries no selection.
    pub open spec fn in_bounds(self, len: usize) -> bool {
        match self.selected {
            Some(i) => i < len,
            None => true,
        }
    }

    pub fn new() -> (r: Cursor)
        ensures
            r.selected == Option::<usize>::None,
    {
        Cursor { selected: None }
    }

    /// The selected index, if any.
    pub fn selected(&self) -> (r: Option<usize>)
        ensures
            r == self.selected,
    {
        self.selected
    }

    /// Replace the selection outright.
    pub fn select(&mut self, sel: Option<usize>)
        ensures
            final(self).selected == sel,
    {
        self.selected = sel;
    }

    /// Advance the cursor by one within a collection of length `len`,
    /// saturating at the last element.
    pub fn select_next(&mut self, len: usize)
        ensures
            final(self).selected == spec_step_next(old(self).selected, len),
            final(self).in_bounds(len),
    {
        if len == 0 {
            self.selected = None;
        } else {
            match self.selected {
                None => {
                    self.selected = Some(0);
                }
                Some(i) => {
                    let next: usize = if i < len - 1 {
                        i + 1
                    } else {
                        len - 1
                    };
                    self.selected = Some(next);
                }
            }
        }
    }

    /// Retreat the cursor by one within a collection of length `len`,
    /// saturating at the first element.
    pub fn select_previous(&mut self, len: usize)
        ensures
            final(self).selected == spec_step_prev(old(self).selected, len),
            final(self).in_bounds(len),
    {
        if len == 0 {
            self.selected = None;
        } else {
            match self.selected {
                None => {
                    self.selected = Some(0);
                }
                Some(i) => {
                    let back: usize = if i == 0 {
                        0
                    } else if i - 1 < len {
                        i - 1
                    } else {
                        len - 1
                    };
                    self.selected = Some(back);
                }
            }
        }
    }
}

/// The cursor that results from a sequence of single-step moves
/// (`true` is a step forward, `false` a step back) applied in order,
/// starting from `sel`, over a collection of length `len`.
pub open spec fn apply_moves(sel: Option<usize>, len: usize, moves: Seq<bool>) -> Option<usize>
    decreases moves.len(),
{
    if moves.len() == 0 {
        sel
    } else {
        let before = apply_moves(sel, len, moves.drop_last());
        if moves.last() {
            spec_step_next(before, len)
        } else {
            spec_step_prev(before, len)
        }
    }
}

/// Law: any sequence of forward/back moves that starts from "no
/// selection" leaves the cursor inside `[0, len - 1]` whenever it holds
/// an index at all, and selects an index as soon as one move was made
/// on a non-empty collection.
pub proof fn lemma_moves_stay_in_bounds(len: usize, moves: Seq<bool>)
    ensures
        (Cursor { selected: apply_moves(None, len, moves) }).in_bounds(len),
        len > 0 && moves.len() > 0 ==> apply_moves(None, len, moves) is Some,
    decreases moves.len(),
{
    if moves.len() > 0 {
        lemma_moves_stay_in_bounds(len, moves.drop_last());
    }
}

/// Law: a step back saturates: at index 0 the cursor stays at index 0.
pub proof fn lemma_prev_saturates(len: usize)
    requires
        len > 0,
    ensures
        spec_step_prev(Some(0usize), len) == Some(0usize),
{
}

/// Law: a step forward saturates: at the last index the cursor stays
/// at the last index.
pub proof fn lemma_next_saturates(len: usize)
    requires
        len > 0,
    ensures
        spec_step_next(Some((len - 1) as usize), len) == Some((len - 1) as usize),
{
}

} // verus!
