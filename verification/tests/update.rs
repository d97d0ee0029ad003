use dropdown::dropdown::Dropdown;
use dropdown::event::Event;
use dropdown::plan::{LifecyclePlan, UpdatePlan};
use dropdown::selection::{button_label, select, toggle, Testing};

fn opened() -> Dropdown {
    let mut d = Dropdown::new();
    let mut data = (String::new(), Testing::Unset);
    d.event(&Event::Other, &mut data, Some((String::new(), true)));
    assert!(d.is_open());
    d
}

#[test]
fn value_change_closes_the_panel() {
    let mut d = opened();
    let old = ("select an element".to_string(), Testing::Unset);
    let new = ("69".to_string(), Testing::SixtyNine);
    let plan = d.update(&old, &new);
    assert!(!d.is_open());
    // the button hears of the change with the flag as it stood
    assert_eq!(
        plan,
        UpdatePlan {
            button_old: ("select an element".to_string(), true),
            button_new: ("69".to_string(), true),
            request_layout: true,
        }
    );
}

#[test]
fn value_change_closes_whatever_the_labels_say() {
    let mut d = opened();
    let old = ("same".to_string(), Testing::Hello);
    let new = ("same".to_string(), Testing::Nice);
    d.update(&old, &new);
    assert!(!d.is_open());
}

#[test]
fn label_change_alone_keeps_the_panel_open() {
    let mut d = opened();
    let old = ("one".to_string(), Testing::Hello);
    let new = ("two".to_string(), Testing::Hello);
    let plan = d.update(&old, &new);
    assert!(d.is_open());
    assert!(plan.request_layout);
    assert_eq!(plan.button_old, ("one".to_string(), true));
    assert_eq!(plan.button_new, ("two".to_string(), true));
}

#[test]
fn update_on_a_closed_panel_keeps_it_closed() {
    let mut d = Dropdown::new();
    let old = ("one".to_string(), Testing::Hello);
    for new in [("one".to_string(), Testing::Hello), ("two".to_string(), Testing::Nice)] {
        let plan = d.update(&old, &new);
        assert!(!d.is_open());
        assert!(plan.request_layout);
        assert_eq!(plan.button_old, ("one".to_string(), false));
    }
}

#[test]
fn every_pair_of_different_values_closes() {
    let values = [Testing::Unset, Testing::Hello, Testing::SixtyNine, Testing::Nice];
    for a in values {
        for b in values {
            let mut d = opened();
            d.update(&("x".to_string(), a), &("x".to_string(), b));
            assert_eq!(d.is_open(), a == b);
        }
    }
}

#[test]
fn lifecycle_reaches_both_parts_open_or_closed() {
    let data = ("nice".to_string(), Testing::Nice);
    assert_eq!(
        Dropdown::new().lifecycle(&data),
        LifecyclePlan { button: ("nice".to_string(), false), panel: true }
    );
    assert_eq!(
        opened().lifecycle(&data),
        LifecyclePlan { button: ("nice".to_string(), true), panel: true }
    );
}

#[test]
fn toggle_flips_the_flag_and_keeps_the_label() {
    let mut pair = ("label".to_string(), false);
    toggle(&mut pair);
    assert_eq!(pair, ("label".to_string(), true));
    toggle(&mut pair);
    assert_eq!(pair, ("label".to_string(), false));
}

#[test]
fn select_overwrites_label_and_value() {
    let mut data = ("select an element".to_string(), Testing::Unset);
    select(&("69".to_string(), Testing::SixtyNine), &mut data);
    assert_eq!(data, ("69".to_string(), Testing::SixtyNine));
    select(&("".to_string(), Testing::Unset), &mut data);
    assert_eq!(data, ("".to_string(), Testing::Unset));
}

#[test]
fn button_shows_the_label() {
    assert_eq!(button_label(&("select an element".to_string(), true)), "select an element");
    assert_eq!(button_label(&("".to_string(), false)), "");
}
