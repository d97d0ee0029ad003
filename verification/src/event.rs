//! What the host reports to the dropdown.

use vstd::prelude::*;
use crate::geometry::Point;

verus! {

/// An event as far as the dropdown reads it: its kind, and for a pointer
/// event the pointer's position in the dropdown's coordinates.
#[derive(Clone, Copy, Debug, PartialEq, Eq, Structural)]
pub enum Event {
    /// A pointer button went down.
    MouseDown(Point),
    /// A pointer button came up.
    MouseUp(Point),
    /// The pointer moved.
    MouseMove(Point),
    /// Any other event. It carries no position.
    Other,
}

impl Event {
    /// Whether this is a pointer button going down or coming up.
    pub open spec fn spec_is_click_half(&self) -> bool {
        *self is MouseDown || *self is MouseUp
    }

    /// Whether this is a pointer button going down or coming up.
    #[verifier::when_used_as_spec(spec_is_click_half)]
    pub fn is_click_half(&self) -> (r: bool)
        ensures
            r == self.spec_is_click_half(),
    {
        match self {
            Event::MouseDown(_) => true,
            Event::MouseUp(_) => true,
            _ => false,
        }
    }
}

} // verus!
