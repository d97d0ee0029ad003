use dropdown::constraints::{BoxConstraints, Extent, Limit};
use dropdown::dropdown::Dropdown;
use dropdown::event::Event;
use dropdown::geometry::{LocalPoint, Point, Size};
use dropdown::plan::Forward;
use dropdown::selection::{select, toggle, Testing};

const BUTTON: Size = Size { width: 120, height: 24 };
const PANEL: Size = Size { width: 120, height: 76 };

fn window() -> BoxConstraints {
    BoxConstraints::new(
        Size { width: 0, height: 0 },
        Limit { width: Extent::Finite(400), height: Extent::Finite(300) },
    )
}

/// One layout pass, the two parts measuring what the window's font gives them.
fn lay_out(d: &mut Dropdown) -> Size {
    let bc = window();
    assert_eq!(d.button_constraints(&bc), bc.loosen());
    let panel = match d.panel_constraints(BUTTON) {
        Some(_) => PANEL,
        None => Size { width: 0, height: 0 },
    };
    d.layout(&bc, BUTTON, panel)
}

/// A press and a release at `at`, with a button that answers a release with a
/// click and a panel that answers one on `row` by selecting that option.
fn click(d: &mut Dropdown, data: &mut (String, Testing), at: Point, row: Option<usize>) {
    let before = data.clone();
    for event in [Event::MouseDown(at), Event::MouseUp(at)] {
        let released = matches!(event, Event::MouseUp(_));
        let reply = d.button_event(&event, data).map(|mut pair| {
            if released {
                toggle(&mut pair);
            }
            pair
        });
        let outcome = d.event(&event, data, reply);
        if let (Forward::Shifted(_), Some(index), true) = (outcome.panel, row, released) {
            let option = d.options()[index].clone();
            select(&option, data);
        }
    }
    if *data != before {
        let plan = d.update(&before, data);
        assert!(plan.request_layout);
        lay_out(d);
    }
}

#[test]
fn scenario_open_select_reopen_click_outside() {
    let mut d = Dropdown::new();
    let mut data = ("select an element".to_string(), Testing::Unset);
    assert_eq!(
        d.options(),
        &vec![
            ("Hello".to_string(), Testing::Hello),
            ("69".to_string(), Testing::SixtyNine),
            ("nice".to_string(), Testing::Nice),
        ]
    );
    assert!(!d.is_open());
    assert_eq!(lay_out(&mut d), BUTTON);

    // click the button
    click(&mut d, &mut data, Point { x: 10, y: 10 }, None);
    assert!(d.is_open());
    assert_eq!(data, ("select an element".to_string(), Testing::Unset));
    lay_out(&mut d);
    assert_eq!(d.dropdown_size(), PANEL);

    // click the row "69"
    click(&mut d, &mut data, Point { x: 10, y: 24 + 30 }, Some(1));
    assert_eq!(data, ("69".to_string(), Testing::SixtyNine));
    assert!(!d.is_open());
    assert_eq!(d.dropdown_size(), Size { width: 0, height: 0 });

    // click the button again
    click(&mut d, &mut data, Point { x: 10, y: 10 }, None);
    assert!(d.is_open());
    assert_eq!(data, ("69".to_string(), Testing::SixtyNine));
    lay_out(&mut d);

    // click outside both rectangles: to the right of them, and below them
    click(&mut d, &mut data, Point { x: 200, y: 50 }, Some(0));
    assert!(d.is_open());
    assert_eq!(data, ("69".to_string(), Testing::SixtyNine));
    click(&mut d, &mut data, Point { x: 200, y: 200 }, Some(0));
    assert!(d.is_open());
    assert_eq!(data, ("69".to_string(), Testing::SixtyNine));
    // and before the origin, to the left of them and above them
    click(&mut d, &mut data, Point { x: -5, y: -5 }, Some(0));
    assert!(d.is_open());
    assert_eq!(data, ("69".to_string(), Testing::SixtyNine));
    click(&mut d, &mut data, Point { x: -1, y: 50 }, Some(0));
    assert!(d.is_open());
    assert_eq!(data, ("69".to_string(), Testing::SixtyNine));
    assert_eq!(d.label_size(), BUTTON);
    assert_eq!(d.dropdown_size(), PANEL);
}

#[test]
fn click_outside_is_not_routed_anywhere() {
    let mut d = Dropdown::new();
    let mut data = ("select an element".to_string(), Testing::Unset);
    lay_out(&mut d);
    click(&mut d, &mut data, Point { x: 10, y: 10 }, None);
    lay_out(&mut d);
    assert!(d.is_open());

    for event in [
        Event::MouseDown(Point { x: -5, y: -5 }),
        Event::MouseUp(Point { x: -5, y: -5 }),
        Event::MouseDown(Point { x: 121, y: 25 }),
        Event::MouseUp(Point { x: 121, y: 25 }),
        Event::MouseDown(Point { x: 60, y: 101 }),
        Event::MouseUp(Point { x: 60, y: 101 }),
    ] {
        assert_eq!(d.button_event(&event, &data), None);
        // even a host that makes up a reply changes nothing
        let outcome = d.event(&event, &mut data, Some(("made up".to_string(), false)));
        assert!(!outcome.request_update);
        assert_eq!(outcome.panel, Forward::Withheld);
        assert!(d.is_open());
        assert_eq!(data, ("select an element".to_string(), Testing::Unset));
        assert_eq!(d.label_size(), BUTTON);
        assert_eq!(d.dropdown_size(), PANEL);
    }
}

#[test]
fn every_option_click_selects_that_option_and_closes() {
    let mut d = Dropdown::new();
    let mut data = ("select an element".to_string(), Testing::Unset);
    lay_out(&mut d);
    let expected = [
        ("Hello".to_string(), Testing::Hello),
        ("69".to_string(), Testing::SixtyNine),
        ("nice".to_string(), Testing::Nice),
    ];
    for index in [2usize, 0, 1, 0, 2, 1] {
        click(&mut d, &mut data, Point { x: 10, y: 10 }, None);
        lay_out(&mut d);
        assert!(d.is_open());
        click(&mut d, &mut data, Point { x: 10, y: 60 }, Some(index));
        assert_eq!(data, expected[index]);
        assert!(!d.is_open());
    }
}

#[test]
fn clicking_the_selected_option_again_leaves_the_panel_open() {
    let mut d = Dropdown::new();
    let mut data = ("Hello".to_string(), Testing::Hello);
    lay_out(&mut d);
    click(&mut d, &mut data, Point { x: 10, y: 10 }, None);
    lay_out(&mut d);
    click(&mut d, &mut data, Point { x: 10, y: 30 }, Some(0));
    assert_eq!(data, ("Hello".to_string(), Testing::Hello));
    assert!(d.is_open());
}

#[test]
fn button_click_is_a_pure_toggle() {
    for start in [
        ("select an element".to_string(), Testing::Unset),
        ("nice".to_string(), Testing::Nice),
    ] {
        let mut d = Dropdown::new();
        let mut data = start.clone();
        lay_out(&mut d);
        for round in 0..4 {
            click(&mut d, &mut data, Point { x: 0, y: 0 }, None);
            lay_out(&mut d);
            assert_eq!(d.is_open(), round % 2 == 0);
            assert_eq!(data, start);
        }
    }
}

#[test]
fn the_panel_sees_positions_from_its_own_corner() {
    let mut d = Dropdown::new();
    let mut data = ("select an element".to_string(), Testing::Unset);
    lay_out(&mut d);
    click(&mut d, &mut data, Point { x: 10, y: 10 }, None);
    lay_out(&mut d);
    let outcome = d.event(&Event::MouseDown(Point { x: 17, y: 24 + 31 }), &mut data, None);
    assert_eq!(outcome.panel, Forward::Shifted(LocalPoint { x: 17, y: 31 }));
    assert!(!outcome.request_update);
}

#[test]
fn release_before_the_origin_does_not_open_a_fresh_dropdown() {
    let mut d = Dropdown::new();
    let mut data = ("select an element".to_string(), Testing::Unset);
    lay_out(&mut d);
    click(&mut d, &mut data, Point { x: -5, y: -5 }, None);
    assert!(!d.is_open());
    assert_eq!(data, ("select an element".to_string(), Testing::Unset));
}
