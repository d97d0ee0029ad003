//! What holds of the dropdown whatever the host does with it.

use vstd::prelude::*;
use crate::constraints::BoxConstraints;
use crate::event::Event;
use crate::geometry::{lemma_area_sign, Point, Rect, Size};
use crate::model::{seen_through, Selection, State};
use crate::plan::Forward;

verus! {

/// The value of a selection.
pub open spec fn value_of(selection: Selection) -> crate::selection::Testing {
    selection.1
}

/// A click on an option's row makes that option the selection, and closes
/// the panel if the click changed the selected value. A click on the row of
/// the value that is selected already leaves the panel as it is.
pub proof fn law_option_click(s: State, data: Selection, i: int)
    requires
        0 <= i < s.options.len(),
    ensures
        s.after_option_click(data, i).1 == s.options[i],
        data.1 != s.options[i].1 ==> s.after_option_click(data, i).0 == (State {
            is_open: false,
            ..s
        }),
        data.1 == s.options[i].1 ==> s.after_option_click(data, i).0 == s,
{
}

/// However many rows are clicked one after the other, the selection is in
/// the end the option of the row clicked last, the options and the measured
/// sizes are what they were, and the panel is closed if that last click
/// changed the selected value.
pub proof fn law_option_clicks(s: State, data: Selection, clicks: Seq<int>)
    requires
        clicks.len() > 0,
        forall|k: int| 0 <= k < clicks.len() ==> 0 <= #[trigger] clicks[k] < s.options.len(),
    ensures
        ({
            let before = s.after_option_clicks(data, clicks.drop_last());
            let after = s.after_option_clicks(data, clicks);
            let chosen = s.options[clicks.last()];
            &&& after.1 == chosen
            &&& after.0.options == s.options
            &&& after.0.label_size == s.label_size
            &&& after.0.dropdown_size == s.dropdown_size
            &&& value_of(before.1) != value_of(chosen) ==> !after.0.is_open
        }),
    decreases clicks.len(),
{
    let earlier = clicks.drop_last();
    if earlier.len() > 0 {
        law_option_clicks(s, data, earlier);
    } else {
        assert(s.after_option_clicks(data, earlier) == (s, data));
    }
}

/// A click on the button opens a closed panel and closes an open one,
/// whatever is selected, and leaves the selection and the measured sizes
/// alone. Two clicks bring the dropdown back to where it was.
pub proof fn law_button_click_toggles(s: State, data: Selection, p: Point)
    requires
        s.label_size.covers(p),
    ensures
        s.after_button_click(data, p) == (State { is_open: !s.is_open, ..s }),
        s.data_after_button_click(data, p) == data,
        s.after_button_click(data, p).after_button_click(data, p) == s,
{
}

/// A change of the selected value closes the panel at the next update,
/// however the change came about; a change of the label alone, or none,
/// leaves the dropdown as it was.
pub proof fn law_update_closes_on_change(s: State, old: Selection, new: Selection)
    ensures
        old.1 != new.1 ==> s.after_update(old, new) == (State { is_open: false, ..s }),
        old.1 == new.1 ==> s.after_update(old, new) == s,
{
}

/// A pointer button that goes down or comes up on neither the button nor
/// the panel changes nothing: the button is not asked, whatever the host
/// reports as its reply is ignored, no update is requested, and the panel
/// does not see the event. In particular an open panel stays open.
pub proof fn law_click_outside_changes_nothing(
    s: State,
    event: Event,
    p: Point,
    data: Selection,
    reply: Option<(Seq<char>, bool)>,
)
    requires
        event == Event::MouseDown(p) || event == Event::MouseUp(p),
        !s.label_size.covers(p),
        !s.dropdown_size.contains(p.below(s.label_size.height)),
    ensures
        !s.button_receives(event),
        s.after_button(event, reply) == s,
        s.data_after_button(event, data, reply) == data,
        !s.requests_update(event),
        s.after_button(event, reply).panel_forward(event) == Forward::Withheld,
{
}

/// The two hit tests in the dropdown's own coordinates: the button's
/// rectangle spans the button's size from the origin, the panel's spans the
/// panel's size from the point right below the button's bottom-left corner,
/// and both include their four edges.
pub proof fn law_hit_tests_are_rectangles(s: State, p: Point)
    ensures
        s.label_size.covers(p) <==> 0 <= p.x <= s.label_size.width && 0 <= p.y
            <= s.label_size.height,
        s.dropdown_size.contains(p.below(s.label_size.height)) <==> 0 <= p.x
            <= s.dropdown_size.width && s.label_size.height <= p.y <= s.label_size.height
            + s.dropdown_size.height,
{
}

/// Measuring again with the same results changes nothing: the sizes kept
/// after a layout pass depend only on what was measured and on whether the
/// panel is open, and a layout pass does not open or close the panel.
pub proof fn law_layout_idempotent(s: State, button_size: Size, panel_size: Size)
    ensures
        s.after_layout(button_size, panel_size).after_layout(button_size, panel_size)
            == s.after_layout(button_size, panel_size),
        s.after_layout(button_size, panel_size).is_open == s.is_open,
        s.after_layout(button_size, panel_size).options == s.options,
        s.after_layout(button_size, panel_size).label_size == button_size,
        !s.is_open ==> s.after_layout(button_size, panel_size).dropdown_size == Size::zero(),
        s.is_open ==> s.after_layout(button_size, panel_size).dropdown_size == panel_size,
{
}

/// A closed panel sees no event of any kind.
pub proof fn law_closed_panel_sees_nothing(s: State, event: Event)
    requires
        !s.is_open,
    ensures
        s.panel_forward(event) == Forward::Withheld,
{
}

/// The panel never sees a pointer position in the dropdown's coordinates:
/// a pointer event reaches it shifted up by the button's height or not at
/// all, and only a pointer event reaches it shifted.
pub proof fn law_panel_sees_local_positions(s: State, event: Event)
    ensures
        event matches Event::MouseDown(p) ==> s.panel_forward(event) == Forward::Withheld
            || s.panel_forward(event) == Forward::Shifted(p.below(s.label_size.height)),
        event matches Event::MouseUp(p) ==> s.panel_forward(event) == Forward::Withheld
            || s.panel_forward(event) == Forward::Shifted(p.below(s.label_size.height)),
        event matches Event::MouseMove(p) ==> s.panel_forward(event) == Forward::Withheld
            || s.panel_forward(event) == Forward::Shifted(p.below(s.label_size.height)),
        s.panel_forward(event) is Shifted ==> !(event is Other),
        s.panel_forward(event) is Unchanged ==> event is Other,
{
}

/// The measured sizes and the options move in a layout pass only: neither
/// an event nor an update touches them.
pub proof fn law_sizes_move_in_layout_only(
    s: State,
    event: Event,
    reply: Option<(Seq<char>, bool)>,
    old: Selection,
    new: Selection,
)
    ensures
        s.after_button(event, reply).label_size == s.label_size,
        s.after_button(event, reply).dropdown_size == s.dropdown_size,
        s.after_button(event, reply).options == s.options,
        s.after_update(old, new).label_size == s.label_size,
        s.after_update(old, new).dropdown_size == s.dropdown_size,
        s.after_update(old, new).options == s.options,
{
}

/// The size the dropdown reports never exceeds the largest size of the
/// constraints it was measured under, lies between the smallest and the
/// largest wherever these can be met at all, and is the button's own size
/// where that already lies between them. Loosened constraints hold every
/// size that stays under the largest.
pub proof fn law_reported_size_within(bc: BoxConstraints, size: Size)
    ensures
        bc.max.width.admits(bc.constrain(size).width),
        bc.max.height.admits(bc.constrain(size).height),
        bc.can_be_met() ==> bc.contains(bc.constrain(size)),
        bc.contains(size) ==> bc.constrain(size) == size,
        bc.loosen().contains(size) <==> bc.max.width.admits(size.width) && bc.max.height.admits(
            size.height,
        ),
{
}

/// Whatever is visible of the dropdown, what is visible of the panel has
/// positive area and lies in the column of the panel: between the panel's
/// left and right edge, not above the top of the button and not below the
/// bottom of the panel.
pub proof fn law_visible_within_column(s: State, region: Seq<Rect>, k: int)
    requires
        0 <= k < s.visible(region).len(),
    ensures
        ({
            let r = s.visible(region)[k];
            &&& 0 <= r.x0 < r.x1 <= s.dropdown_size.width
            &&& -s.label_size.height <= r.y0 < r.y1 <= s.dropdown_size.height
        }),
{
    let window = s.footprint();
    let up = s.label_size.height;
    let r = s.visible(region)[k];
    assert(s.visible(region).contains(r));
    region.lemma_filter_map_contains(seen_through(window, up), r);
    let whole = choose|t: Rect| #[trigger]
        region.contains(t) && seen_through(window, up)(t) == Some(r);
    let part = whole.intersect(window);
    lemma_area_sign(part.x1 - part.x0, part.y1 - part.y0);
}

} // verus!
