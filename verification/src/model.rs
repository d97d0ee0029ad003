//! The dropdown as a mathematical state machine.
//!
//! Every executable method of [`crate::dropdown::Dropdown`] is stated against
//! one function of this file, and the laws of [`crate::laws`] are proved
//! about these functions.

use vstd::prelude::*;
use crate::constraints::{BoxConstraints, Extent, Limit};
use crate::event::Event;
use crate::geometry::{LocalPoint, Point, Rect, Size};
use crate::plan::{Forward, Row};
use crate::selection::Testing;

verus! {

/// The host's selection as contracts see it: label and value.
pub type Selection = (Seq<char>, Testing);

/// What the button works on: the selection's label and the open flag.
pub type ButtonData = (Seq<char>, bool);

/// The pair a click on the button leaves: the open flag flipped, the label
/// as it was.
pub open spec fn toggled(pair: ButtonData) -> ButtonData {
    (pair.0, !pair.1)
}

/// An optional button reply as contracts see it.
pub open spec fn reply_view(reply: Option<(String, bool)>) -> Option<ButtonData> {
    match reply {
        Some(r) => Some(r@),
        None => None,
    }
}

/// The dropdown's state.
pub struct State {
    /// The options in display order, fixed at construction.
    pub options: Seq<Selection>,
    /// The button's size as last measured.
    pub label_size: Size,
    /// The panel's size as last measured, zero where the panel was closed
    /// at the time.
    pub dropdown_size: Size,
    /// Whether the panel takes part in events, layout and painting.
    pub is_open: bool,
}

impl State {
    /// A freshly built dropdown: closed, nothing measured yet.
    pub open spec fn initial(options: Seq<Selection>) -> State {
        State { options, label_size: Size::zero(), dropdown_size: Size::zero(), is_open: false }
    }

    /// The pair the button is handed in place of the selection.
    pub open spec fn button_data(self, data: Selection) -> ButtonData {
        (data.0, self.is_open)
    }

    /// Whether the button receives `event`. A pointer button going down or
    /// coming up must be inside the button's rectangle, which spans the
    /// button's size as last measured from the origin, edges included. A
    /// move of the pointer and any other event always reach the button.
    pub open spec fn button_receives(self, event: Event) -> bool {
        match event {
            Event::MouseDown(p) => self.label_size.covers(p),
            Event::MouseUp(p) => self.label_size.covers(p),
            Event::MouseMove(_) => true,
            Event::Other => true,
        }
    }

    /// The state once the button has had its turn. Where the button was to
    /// receive the event and the host reports what it left, the open flag is
    /// the one it left. Nothing else moves.
    pub open spec fn after_button(self, event: Event, reply: Option<ButtonData>) -> State {
        match reply {
            Some(left) if self.button_receives(event) => State { is_open: left.1, ..self },
            _ => self,
        }
    }

    /// The selection once the button has had its turn. Where the button was
    /// to receive the event and the host reports what it left, the label is
    /// the one it left. The value is never touched.
    pub open spec fn data_after_button(
        self,
        event: Event,
        data: Selection,
        reply: Option<ButtonData>,
    ) -> Selection {
        match reply {
            Some(left) if self.button_receives(event) => (left.0, data.1),
            _ => data,
        }
    }

    /// Whether handling `event` asks the host for an update pass: a button
    /// going down or coming up on the dropdown's button does.
    pub open spec fn requests_update(self, event: Event) -> bool {
        event.is_click_half() && self.button_receives(event)
    }

    /// How `event` goes on to the panel, decided on the state the button
    /// left. A closed panel sees nothing. An open one sees a button going
    /// down or coming up only inside its measured size, every move of the
    /// pointer wherever it is, both at the position shifted up by the
    /// button's height, and any other event as it came.
    pub open spec fn panel_forward(self, event: Event) -> Forward {
        if !self.is_open {
            Forward::Withheld
        } else {
            match event {
                Event::MouseDown(p) => self.pointer_forward(p.below(self.label_size.height)),
                Event::MouseUp(p) => self.pointer_forward(p.below(self.label_size.height)),
                Event::MouseMove(p) => Forward::Shifted(p.below(self.label_size.height)),
                Event::Other => Forward::Unchanged,
            }
        }
    }

    /// A button going down or coming up at the panel-local position `q`
    /// reaches the panel when `q` is inside the panel as last measured.
    pub open spec fn pointer_forward(self, q: LocalPoint) -> Forward {
        if self.dropdown_size.contains(q) {
            Forward::Shifted(q)
        } else {
            Forward::Withheld
        }
    }

    /// The state once the pointer button has come up at `p` and the button,
    /// if it received that, has answered with a click.
    pub open spec fn after_button_click(self, data: Selection, p: Point) -> State {
        self.after_button(Event::MouseUp(p), Some(toggled(self.button_data(data))))
    }

    /// The selection once the pointer button has come up at `p` and the
    /// button, if it received that, has answered with a click.
    pub open spec fn data_after_button_click(self, data: Selection, p: Point) -> Selection {
        self.data_after_button(Event::MouseUp(p), data, Some(toggled(self.button_data(data))))
    }

    /// State and selection after a click on the row of option `i`: the
    /// row's handler has put the option in place of the selection `data`,
    /// and the host has reported the change.
    pub open spec fn after_option_click(self, data: Selection, i: int) -> (State, Selection) {
        (self.after_update(data, self.options[i]), self.options[i])
    }

    /// State and selection after clicks on the rows of the options `clicks`,
    /// one after the other, starting from the selection `data`.
    pub open spec fn after_option_clicks(self, data: Selection, clicks: Seq<int>) -> (
        State,
        Selection,
    )
        decreases clicks.len(),
    {
        if clicks.len() == 0 {
            (self, data)
        } else {
            let before = self.after_option_clicks(data, clicks.drop_last());
            before.0.after_option_click(before.1, clicks.last())
        }
    }

    /// The state after the host reports that the selection went from `old` to
    /// `new`: a change of the value closes the panel. Nothing else moves.
    pub open spec fn after_update(self, old: Selection, new: Selection) -> State {
        if old.1 != new.1 {
            State { is_open: false, ..self }
        } else {
            self
        }
    }

    /// The constraints the panel is measured under once the button has been
    /// measured at `button_size`, `None` while the panel is closed and not
    /// measured at all: no smallest size, at most as wide as the button, as
    /// high as it likes.
    pub open spec fn panel_constraints(self, button_size: Size) -> Option<BoxConstraints> {
        if self.is_open {
            Some(
                BoxConstraints {
                    min: Size::zero(),
                    max: Limit { width: Extent::Finite(button_size.width), height: Extent::Unbounded },
                },
            )
        } else {
            None
        }
    }

    /// The state after a layout pass in which the button measured
    /// `button_size` and the panel, if open, `panel_size`. A closed panel
    /// takes no room whatever `panel_size` says.
    pub open spec fn after_layout(self, button_size: Size, panel_size: Size) -> State {
        State {
            label_size: button_size,
            dropdown_size: if self.is_open {
                panel_size
            } else {
                Size::zero()
            },
            ..self
        }
    }

    /// The room the control takes in the dropdown's coordinates while open:
    /// as wide as the panel, and as high as the button and the panel
    /// together.
    pub open spec fn footprint(self) -> Rect {
        Rect {
            x0: 0,
            y0: 0,
            x1: self.dropdown_size.width as i64,
            y1: (self.dropdown_size.height + self.label_size.height) as i64,
        }
    }

    /// What is visible of the panel, in the panel's coordinates, when
    /// `region` is visible of the dropdown: each rectangle of `region` cut to
    /// the footprint, dropped if nothing is left of it, and moved up by the
    /// button's height.
    pub open spec fn visible(self, region: Seq<Rect>) -> Seq<Rect> {
        region.filter_map(seen_through(self.footprint(), self.label_size.height))
    }

    /// The rectangle the panel's drawing is clipped to: the panel's own
    /// size, from the panel's origin.
    pub open spec fn clip(self) -> Rect {
        self.dropdown_size.to_rect()
    }
}

/// [`Rect::seen_through`] as a function of the rectangle alone.
pub open spec fn seen_through(window: Rect, up: u32) -> spec_fn(Rect) -> Option<Rect> {
    |r: Rect| r.seen_through(window, up)
}

/// The rows of a panel over `count` options: the options in order, with one
/// separator between each two neighbours and none at either end.
pub open spec fn row_plan(count: nat) -> Seq<Row> {
    Seq::new(
        if count == 0 {
            0
        } else {
            (2 * count - 1) as nat
        },
        |k: int|
            if k % 2 == 0 {
                Row::Choice((k / 2) as usize)
            } else {
                Row::Separator
            },
    )
}

} // verus!
