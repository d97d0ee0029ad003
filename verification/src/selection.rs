//! The selection that the host owns and the two click handlers that change
//! what the dropdown's parts see of it.

use vstd::prelude::*;
use crate::model::toggled;

verus! {

/// The values a selection can take. `Unset` stands for "nothing chosen yet".
#[derive(Clone, Copy, Debug, PartialEq, Eq, Structural)]
pub enum Testing {
    Unset,
    Hello,
    SixtyNine,
    Nice,
}

impl View for Testing {
    type V = Testing;

    open spec fn view(&self) -> Testing {
        *self
    }
}

impl DeepView for Testing {
    type V = Testing;

    open spec fn deep_view(&self) -> Testing {
        *self
    }
}

/// What the button does when it is clicked: it flips the open flag that
/// travels beside the label, and leaves the label alone.
pub fn toggle(data: &mut (String, bool))
    ensures
        final(data)@ == toggled(old(data)@),
{
    data.1 = !data.1;
}

/// What an option's row does when it is clicked: the whole selection, label
/// and value, becomes that of the option.
pub fn select(option: &(String, Testing), data: &mut (String, Testing))
    ensures
        final(data)@ == option@,
{
    *data = (option.0.clone(), option.1);
}

/// The text the button shows: the label of the current selection.
pub fn button_label(data: &(String, bool)) -> (text: String)
    ensures
        text@ == data.0@,
{
    data.0.clone()
}

} // verus!
