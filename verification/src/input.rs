//! Pointer input, as far as the simulation reads it.

use vstd::prelude::*;
use crate::vector::Vec2;

verus! {

/// A button of the pointing device.
#[derive(Clone, Copy, Debug, PartialEq, Eq, Structural)]
pub enum PointerButton {
    Primary,
    Secondary,
    Middle,
    Extra1,
    Extra2,
}

/// One input event of a frame.
#[derive(Clone, Copy, Debug, PartialEq, Eq, Structural)]
pub enum Event {
    /// A pointer button went down or up at `pos`.
    PointerButton { pos: Vec2, button: PointerButton, pressed: bool },
    /// Anything else.
    Other,
}

impl Event {
    /// The event is the primary button going down.
    pub open spec fn is_primary_press(self) -> bool {
        self matches Event::PointerButton { button, pressed, .. } && button
            == PointerButton::Primary && pressed
    }
}

/// `click` is where the first primary-button press among `events` happened, or nothing
/// where there is no such press.
pub open spec fn is_first_press(events: Seq<Event>, click: Option<Vec2>) -> bool {
    match click {
        Some(pos) => exists|i: int|
            0 <= i < events.len() && (#[trigger] events[i]).is_primary_press() && events[i]->pos
                == pos && forall|j: int| 0 <= j < i ==> !(#[trigger] events[j]).is_primary_press(),
        None => forall|j: int| 0 <= j < events.len() ==> !(#[trigger] events[j]).is_primary_press(),
    }
}

/// Where the primary button was first pressed in this frame, if it was.
pub fn get_click(events: &Vec<Event>) -> (click: Option<Vec2>)
    ensures
        is_first_press(events@, click),
{
    let mut i: usize = 0;
    while i < events.len()
        invariant
            i <= events.len(),
            forall|j: int| 0 <= j < i ==> !(#[trigger] events@[j]).is_primary_press(),
        decreases events.len() - i,
    {
        match events[i] {
            Event::PointerButton { pos, button: PointerButton::Primary, pressed: true } => {
                assert(events@[i as int].is_primary_press());
                return Some(pos);
            },
            _ => {},
        }
        i += 1;
    }
    None
}

} // verus!
