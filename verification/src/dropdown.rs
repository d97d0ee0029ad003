//! The dropdown itself: its state and the decisions of each phase.

use vstd::prelude::*;
use crate::constraints::{BoxConstraints, Extent, Limit};
use crate::event::Event;
use crate::geometry::{LocalPoint, Rect, Size};
use crate::model::{reply_view, row_plan, seen_through, Selection, State};
use crate::plan::{EventOutcome, Forward, LifecyclePlan, PaintPlan, PanelPaint, Row, UpdatePlan};
use crate::selection::Testing;

verus! {

/// A dropdown: a button that shows the selection and a panel of options
/// that hangs below it while open.
pub struct Dropdown {
    options: Vec<(String, Testing)>,
    label_size: Size,
    dropdown_size: Size,
    is_open: bool,
}

impl View for Dropdown {
    type V = State;

    closed spec fn view(&self) -> State {
        State {
            options: self.options.deep_view(),
            label_size: self.label_size,
            dropdown_size: self.dropdown_size,
            is_open: self.is_open,
        }
    }
}

/// The options of the stock dropdown, in display order.
pub open spec fn stock_options() -> Seq<Selection> {
    seq![
        ("Hello"@, Testing::Hello),
        ("69"@, Testing::SixtyNine),
        ("nice"@, Testing::Nice),
    ]
}

impl Dropdown {
    /// A closed dropdown over the three stock options.
    pub fn new() -> (d: Dropdown)
        ensures
            d@ == State::initial(stock_options()),
    {
        let mut options: Vec<(String, Testing)> = Vec::new();
        options.push(("Hello".to_owned(), Testing::Hello));
        options.push(("69".to_owned(), Testing::SixtyNine));
        options.push(("nice".to_owned(), Testing::Nice));
        assert(options.deep_view() =~= stock_options());
        Dropdown::with_options(options)
    }

    /// A closed dropdown over `options`, which stay as given for its whole
    /// life.
    pub fn with_options(options: Vec<(String, Testing)>) -> (d: Dropdown)
        ensures
            d@ == State::initial(options.deep_view()),
    {
        Dropdown { options, label_size: Size::zero(), dropdown_size: Size::zero(), is_open: false }
    }

    /// Whether the panel is open.
    pub fn is_open(&self) -> (open: bool)
        ensures
            open == self@.is_open,
    {
        self.is_open
    }

    /// The button's size as last measured.
    pub fn label_size(&self) -> (size: Size)
        ensures
            size == self@.label_size,
    {
        self.label_size
    }

    /// The panel's size as last measured.
    pub fn dropdown_size(&self) -> (size: Size)
        ensures
            size == self@.dropdown_size,
    {
        self.dropdown_size
    }

    /// The options in display order.
    pub fn options(&self) -> (options: &Vec<(String, Testing)>)
        ensures
            options.deep_view() == self@.options,
            options.len() == self@.options.len(),
            forall|i: int| 0 <= i < options.len() ==> (#[trigger] options[i])@ == self@.options[i],
    {
        &self.options
    }

    /// The first half of event handling: whether the button receives
    /// `event`, and if so the pair it is to work on.
    ///
    /// The host hands the event and the pair to the button and passes what
    /// the button left of the pair to [`Dropdown::event`].
    pub fn button_event(&self, event: &Event, data: &(String, Testing)) -> (handed: Option<
        (String, bool),
    >)
        ensures
            handed is Some == self@.button_receives(*event),
            handed is Some ==> handed->0@ == self@.button_data(data@),
    {
        if self.button_receives(event) {
            Some((data.0.clone(), self.is_open))
        } else {
            None
        }
    }

    /// The second half of event handling. `reply` is what the button left of
    /// the pair that [`Dropdown::button_event`] handed out, `None` where the
    /// button was not asked.
    ///
    /// The open flag and the selection's label become those of the reply;
    /// then the panel's share is decided on the new state.
    pub fn event(
        &mut self,
        event: &Event,
        data: &mut (String, Testing),
        reply: Option<(String, bool)>,
    ) -> (out: EventOutcome)
        ensures
            final(self)@ == old(self)@.after_button(*event, reply_view(reply)),
            final(data)@ == old(self)@.data_after_button(*event, old(data)@, reply_view(reply)),
            out.request_update == old(self)@.requests_update(*event),
            out.panel == final(self)@.panel_forward(*event),
    {
        let asked = self.button_receives(event);
        if asked {
            match reply {
                Some(button_data) => {
                    self.is_open = button_data.1;
                    data.0 = button_data.0;
                },
                None => {},
            }
        }
        EventOutcome {
            request_update: asked && event.is_click_half(),
            panel: self.panel_forward(event),
        }
    }

    /// The pair the button is handed in place of the selection: the
    /// selection's label and the open flag.
    pub fn button_data(&self, data: &(String, Testing)) -> (pair: (String, bool))
        ensures
            pair@ == self@.button_data(data@),
    {
        (data.0.clone(), self.is_open)
    }

    /// The rows the panel is built of, top to bottom.
    pub fn rows(&self) -> (rows: Vec<Row>)
        ensures
            rows@ == row_plan(self@.options.len()),
    {
        let mut rows: Vec<Row> = Vec::new();
        let mut is_first = true;
        let mut index: usize = 0;
        while index < self.options.len()
            invariant
                index <= self.options.len(),
                is_first == (index == 0),
                rows@ == row_plan(index as nat),
            decreases self.options.len() - index,
        {
            if !is_first {
                rows.push(Row::Separator);
            }
            rows.push(Row::Choice(index));
            is_first = false;
            index += 1;
        }
        rows
    }

    /// A lifecycle notice goes to both parts, open or closed: to the button
    /// with its pair, to the panel with the selection.
    pub fn lifecycle(&self, data: &(String, Testing)) -> (plan: LifecyclePlan)
        ensures
            plan.button@ == self@.button_data(data@),
            plan.panel,
    {
        LifecyclePlan { button: self.button_data(data), panel: true }
    }

    /// The selection went from `old_data` to `data`. The button is told of
    /// the change with the open flag as it stood; then a change of the value
    /// closes the panel; and a layout pass is asked for in any case.
    pub fn update(&mut self, old_data: &(String, Testing), data: &(String, Testing)) -> (plan:
        UpdatePlan)
        ensures
            final(self)@ == old(self)@.after_update(old_data@, data@),
            plan.button_old@ == old(self)@.button_data(old_data@),
            plan.button_new@ == old(self)@.button_data(data@),
            plan.request_layout,
    {
        let plan = UpdatePlan {
            button_old: self.button_data(old_data),
            button_new: self.button_data(data),
            request_layout: true,
        };
        if old_data.1 != data.1 {
            self.is_open = false;
        }
        plan
    }

    /// The constraints the button is measured under when the dropdown is
    /// measured under `bc`: the same, without a smallest size.
    pub fn button_constraints(&self, bc: &BoxConstraints) -> (loose: BoxConstraints)
        ensures
            loose == bc.loosen(),
    {
        bc.loosen()
    }

    /// The constraints the panel is measured under once the button has been
    /// measured at `button_size`, `None` while the panel is closed and is
    /// not to be measured.
    pub fn panel_constraints(&self, button_size: Size) -> (tight: Option<BoxConstraints>)
        ensures
            tight == self@.panel_constraints(button_size),
    {
        if self.is_open {
            Some(
                BoxConstraints::new(
                    Size::zero(),
                    Limit { width: Extent::Finite(button_size.width), height: Extent::Unbounded },
                ),
            )
        } else {
            None
        }
    }

    /// Ends a layout pass under `bc`: records what the button measured and
    /// what the panel measured, and returns the size the dropdown reports,
    /// which is the button's brought within `bc`. The panel hangs outside
    /// that size. `panel_size` is not read while the panel is closed.
    pub fn layout(&mut self, bc: &BoxConstraints, button_size: Size, panel_size: Size) -> (size:
        Size)
        ensures
            final(self)@ == old(self)@.after_layout(button_size, panel_size),
            size == bc.constrain(button_size),
    {
        self.label_size = button_size;
        self.dropdown_size = if self.is_open {
            panel_size
        } else {
            Size::zero()
        };
        bc.constrain(self.label_size)
    }

    /// What to paint when `region` is visible of the dropdown: the button
    /// with its pair, and while open the panel, its origin moved down by the
    /// button's height, clipped to its own size.
    pub fn paint(&self, data: &(String, Testing), region: &Vec<Rect>) -> (plan: PaintPlan)
        ensures
            plan.button@ == self@.button_data(data@),
            plan.panel is Some == self@.is_open,
            plan.panel matches Some(panel) ==> {
                &&& panel.drop == self@.label_size.height
                &&& panel.visible@ == self@.visible(region@)
                &&& panel.clip == self@.clip()
            },
    {
        let button = self.button_data(data);
        if !self.is_open {
            return PaintPlan { button, panel: None };
        }
        let drop = self.label_size.height;
        let window = Rect {
            x0: 0,
            y0: 0,
            x1: self.dropdown_size.width as i64,
            y1: self.dropdown_size.height as i64 + drop as i64,
        };
        let ghost see = seen_through(window, drop);
        let mut visible: Vec<Rect> = Vec::new();
        let mut index: usize = 0;
        while index < region.len()
            invariant
                index <= region.len(),
                see == seen_through(window, drop),
                window.y0 == 0,
                visible@ == region@.take(index as int).filter_map(see),
            decreases region.len() - index,
        {
            let part = region[index].intersect(window);
            if part.has_area() {
                visible.push(
                    Rect {
                        x0: part.x0,
                        y0: part.y0 - drop as i64,
                        x1: part.x1,
                        y1: part.y1 - drop as i64,
                    },
                );
            }
            proof {
                region@.lemma_filter_map_take_succ(see, index as int);
            }
            index += 1;
        }
        assert(region@.take(region.len() as int) == region@);
        PaintPlan {
            button,
            panel: Some(PanelPaint { drop, visible, clip: self.dropdown_size.to_rect() }),
        }
    }

    fn button_receives(&self, event: &Event) -> (asked: bool)
        ensures
            asked == self@.button_receives(*event),
    {
        match event {
            Event::MouseDown(p) => self.label_size.covers(*p),
            Event::MouseUp(p) => self.label_size.covers(*p),
            Event::MouseMove(_) => true,
            Event::Other => true,
        }
    }

    fn panel_forward(&self, event: &Event) -> (forward: Forward)
        ensures
            forward == self@.panel_forward(*event),
    {
        if !self.is_open {
            Forward::Withheld
        } else {
            match event {
                Event::MouseDown(p) => self.pointer_forward(p.below(self.label_size.height)),
                Event::MouseUp(p) => self.pointer_forward(p.below(self.label_size.height)),
                Event::MouseMove(p) => Forward::Shifted(p.below(self.label_size.height)),
                Event::Other => Forward::Unchanged,
            }
        }
    }

    fn pointer_forward(&self, q: LocalPoint) -> (forward: Forward)
        ensures
            forward == self@.pointer_forward(q),
    {
        if self.dropdown_size.contains(q) {
            Forward::Shifted(q)
        } else {
            Forward::Withheld
        }
    }
}

} // verus!
