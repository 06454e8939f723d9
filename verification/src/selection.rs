//! Which body, if any, is selected, and how pointer presses change that.

use vstd::prelude::*;
use crate::vector::Vec2;

verus! {

/// The current selection: at most one body, named by its place in the simulation's
/// list. The place is only a reference: it does not keep the body there.
#[derive(Clone, Copy, Debug, PartialEq, Eq, Structural)]
pub enum Selection {
    Unselected,
    Selected(usize),
}

impl Selection {
    /// The selection that a hit, or a miss, leaves behind.
    pub open spec fn of_hit(hit: Option<usize>) -> Selection {
        match hit {
            Some(i) => Selection::Selected(i),
            None => Selection::Unselected,
        }
    }

    /// The body that a selection refers to, if it refers to one.
    pub open spec fn hit(self) -> Option<usize> {
        match self {
            Selection::Selected(i) => Some(i),
            Selection::Unselected => None,
        }
    }

    /// The selected body's place among `body_count` bodies: nothing where nothing is
    /// selected, and nothing where the place is no longer there.
    pub open spec fn resolved(self, body_count: int) -> Option<usize> {
        match self {
            Selection::Selected(i) if i < body_count => Some(i),
            _ => None,
        }
    }

    /// The selection after a frame in which the primary button was pressed at `click`,
    /// if it was, and the press hit the body `hit`, if any: a press selects what it
    /// hits and clears the selection where it hits nothing; without a press nothing
    /// changes.
    pub fn after_frame(self, click: Option<Vec2>, hit: Option<usize>) -> (next: Selection)
        ensures
            click is None ==> next == self,
            click is Some ==> next == Selection::of_hit(hit),
    {
        match click {
            None => self,
            Some(_) => match hit {
                Some(i) => Selection::Selected(i),
                None => Selection::Unselected,
            },
        }
    }

    /// The selected body's place among `body_count` bodies, if it is still there.
    pub fn resolve(self, body_count: usize) -> (r: Option<usize>)
        ensures
            r == self.resolved(body_count as int),
    {
        match self {
            Selection::Selected(i) => if i < body_count {
                Some(i)
            } else {
                None
            },
            Selection::Unselected => None,
        }
    }
}

} // verus!
