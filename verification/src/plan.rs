//! What the dropdown tells the host to do in each phase.

use vstd::prelude::*;
use crate::geometry::{LocalPoint, Rect};

verus! {

/// How an event reaches the panel.
#[derive(Clone, Copy, Debug, PartialEq, Eq, Structural)]
pub enum Forward {
    /// The panel does not see the event.
    Withheld,
    /// The panel sees the pointer event, of the same kind, at this position
    /// in its own coordinates.
    Shifted(LocalPoint),
    /// The panel sees the event exactly as the dropdown received it.
    Unchanged,
}

/// What is left to do once the dropdown has handled an event.
#[derive(Clone, Copy, Debug, PartialEq, Eq, Structural)]
pub struct EventOutcome {
    /// Whether the host is to schedule an update pass.
    pub request_update: bool,
    /// How the event goes on to the panel.
    pub panel: Forward,
}

/// Who hears of a lifecycle notice, and with which data.
#[derive(Debug, PartialEq, Eq)]
pub struct LifecyclePlan {
    /// The pair the button hears it with.
    pub button: (String, bool),
    /// Whether the panel hears it too, with the selection itself.
    pub panel: bool,
}

/// What the host does on a change of the selection.
#[derive(Debug, PartialEq, Eq)]
pub struct UpdatePlan {
    /// The pair the button had before the change.
    pub button_old: (String, bool),
    /// The pair the button has after it.
    pub button_new: (String, bool),
    /// Whether the host is to schedule a layout pass.
    pub request_layout: bool,
}

/// Where and how the panel is painted.
#[derive(Debug, PartialEq, Eq)]
pub struct PanelPaint {
    /// How far below the dropdown's origin the panel's origin lies: the
    /// drawing origin moves down by this much before the panel paints.
    pub drop: u32,
    /// What is visible of the panel, in the panel's coordinates.
    pub visible: Vec<Rect>,
    /// The rectangle the panel's drawing is clipped to, in the panel's
    /// coordinates.
    pub clip: Rect,
}

/// What the host paints, in order: the button, then the panel if there is
/// one to paint.
#[derive(Debug, PartialEq, Eq)]
pub struct PaintPlan {
    /// The pair the button paints.
    pub button: (String, bool),
    /// The panel's share, `None` while the panel is closed.
    pub panel: Option<PanelPaint>,
}

/// One row of the panel, top to bottom.
#[derive(Clone, Copy, Debug, PartialEq, Eq, Structural)]
pub enum Row {
    /// The row of the option with this index: its label, left-aligned. A
    /// click on it selects the option.
    Choice(usize),
    /// A divider [`SEPARATOR_HEIGHT`] high, filled with the theme's dark
    /// border colour.
    Separator,
}

/// The height of the divider between two options, in the units the host
/// lays its rows out in.
pub const SEPARATOR_HEIGHT: u32 = 2;

} // verus!
