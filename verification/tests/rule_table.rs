use panel_scroll::rules::{select, Abilities, Rule, LINE_CELLS, PAGE_ROWS, WHEEL_ROWS};
use panel_scroll::{Event, Key, Keybindings, MouseButton, MouseEvent, Vec2};

fn arrows() -> Keybindings {
    Keybindings {
        down: Event::Key(Key::Down),
        up: Event::Key(Key::Up),
        left: Event::Key(Key::Left),
        right: Event::Key(Key::Right),
    }
}

fn everything() -> Abilities {
    Abilities {
        any_axis: true,
        up: true,
        down: true,
        left: true,
        right: true,
        scrollbars: true,
        double_press: true,
        dragging: true,
    }
}

fn nothing() -> Abilities {
    Abilities {
        any_axis: false,
        up: false,
        down: false,
        left: false,
        right: false,
        scrollbars: false,
        double_press: false,
        dragging: false,
    }
}

fn mouse(kind: MouseEvent, corner: (usize, usize), position: (usize, usize)) -> Event {
    Event::Mouse {
        offset: Vec2::new(corner.0, corner.1),
        position: Vec2::new(position.0, position.1),
        event: kind,
    }
}

#[test]
fn the_amounts_of_the_rules() {
    assert_eq!(PAGE_ROWS, 10);
    assert_eq!(WHEEL_ROWS, 3);
    assert_eq!(LINE_CELLS, 1);
}

#[test]
fn each_trigger_selects_its_rule() {
    let keys = arrows();
    let can = everything();
    let left = MouseButton::Left;
    let cases = [
        (Event::Key(Key::Home), Rule::Home),
        (Event::Key(Key::End), Rule::End),
        (Event::Key(Key::PageUp), Rule::PageUp),
        (Event::Key(Key::PageDown), Rule::PageDown),
        (Event::Char('G'), Rule::Bottom),
        (Event::Char('g'), Rule::Top),
        (Event::CtrlChar('d'), Rule::HalfPageDown),
        (Event::CtrlChar('u'), Rule::HalfPageUp),
        (Event::Key(Key::Down), Rule::LineDown),
        (Event::Key(Key::Up), Rule::LineUp),
        (Event::Key(Key::Left), Rule::LineLeft),
        (Event::Key(Key::Right), Rule::LineRight),
        (mouse(MouseEvent::WheelUp, (0, 0), (1, 1)), Rule::WheelUp),
        (mouse(MouseEvent::WheelDown, (0, 0), (1, 1)), Rule::WheelDown),
        (mouse(MouseEvent::Press(left), (2, 2), (5, 5)), Rule::Press),
        (mouse(MouseEvent::Hold(left), (2, 2), (5, 5)), Rule::Hold),
        (mouse(MouseEvent::Release(left), (2, 2), (5, 5)), Rule::Release),
    ];
    for (event, rule) in cases {
        assert_eq!(select(&event, &keys, can), Some(rule));
    }
}

#[test]
fn rules_without_a_condition_apply_to_a_viewport_that_can_do_nothing() {
    let keys = arrows();
    let can = nothing();
    assert_eq!(select(&Event::Char('G'), &keys, can), Some(Rule::Bottom));
    let release = mouse(MouseEvent::Release(MouseButton::Left), (0, 0), (1, 1));
    assert_eq!(select(&release, &keys, can), Some(Rule::Release));
}

#[test]
fn rules_with_a_condition_need_it() {
    let keys = arrows();
    let can = nothing();
    let left = MouseButton::Left;
    for event in [
        Event::Key(Key::Home),
        Event::Key(Key::End),
        Event::Key(Key::PageUp),
        Event::Key(Key::PageDown),
        Event::Key(Key::Down),
        Event::Key(Key::Up),
        Event::Key(Key::Left),
        Event::Key(Key::Right),
        mouse(MouseEvent::WheelUp, (0, 0), (1, 1)),
        mouse(MouseEvent::WheelDown, (0, 0), (1, 1)),
        mouse(MouseEvent::Press(left), (0, 0), (1, 1)),
        mouse(MouseEvent::Hold(left), (0, 0), (1, 1)),
        Event::Char('g'),
        Event::CtrlChar('d'),
        Event::CtrlChar('u'),
    ] {
        assert_eq!(select(&event, &keys, can), None);
    }
}

#[test]
fn each_condition_opens_its_own_rules_only() {
    let keys = arrows();
    let up = Abilities { up: true, ..nothing() };
    assert_eq!(select(&Event::Key(Key::PageUp), &keys, up), Some(Rule::PageUp));
    assert_eq!(select(&Event::Key(Key::Up), &keys, up), Some(Rule::LineUp));
    assert_eq!(select(&Event::CtrlChar('u'), &keys, up), Some(Rule::HalfPageUp));
    assert_eq!(select(&Event::CtrlChar('d'), &keys, up), None);

    let down = Abilities { down: true, ..nothing() };
    assert_eq!(select(&Event::CtrlChar('d'), &keys, down), Some(Rule::HalfPageDown));
    assert_eq!(select(&Event::CtrlChar('u'), &keys, down), None);

    let double = Abilities { double_press: true, ..nothing() };
    assert_eq!(select(&Event::Char('g'), &keys, double), Some(Rule::Top));
    assert_eq!(select(&Event::Char('G'), &keys, double), Some(Rule::Bottom));

    let left = MouseButton::Left;
    let dragging = Abilities { dragging: true, scrollbars: true, ..nothing() };
    let hold = mouse(MouseEvent::Hold(left), (0, 0), (1, 1));
    assert_eq!(select(&hold, &keys, dragging), Some(Rule::Hold));
    assert_eq!(select(&hold, &keys, Abilities { dragging: true, ..nothing() }), None);
    assert_eq!(select(&hold, &keys, Abilities { scrollbars: true, ..nothing() }), None);
    assert_eq!(select(&Event::Key(Key::PageDown), &keys, up), None);
    assert_eq!(select(&Event::Key(Key::Down), &keys, up), None);
    assert_eq!(select(&Event::Key(Key::Home), &keys, up), None);

    let right = Abilities { right: true, ..nothing() };
    assert_eq!(select(&Event::Key(Key::Right), &keys, right), Some(Rule::LineRight));
    assert_eq!(select(&Event::Key(Key::Left), &keys, right), None);

    let axis = Abilities { any_axis: true, ..nothing() };
    assert_eq!(select(&Event::Key(Key::Home), &keys, axis), Some(Rule::Home));
    assert_eq!(select(&Event::Key(Key::End), &keys, axis), Some(Rule::End));
}

#[test]
fn the_first_rule_that_applies_wins() {
    // Every direction bound to the upper-case G: the jump to the bottom
    // stands before the bound keys in the table.
    let keys = Keybindings {
        down: Event::Char('G'),
        up: Event::Char('G'),
        left: Event::Char('G'),
        right: Event::Char('G'),
    };
    assert_eq!(select(&Event::Char('G'), &keys, everything()), Some(Rule::Bottom));

    // Every direction bound to one key: down stands before up, left, right.
    let keys = Keybindings {
        down: Event::Char('x'),
        up: Event::Char('x'),
        left: Event::Char('x'),
        right: Event::Char('x'),
    };
    assert_eq!(select(&Event::Char('x'), &keys, everything()), Some(Rule::LineDown));
    let no_down = Abilities { down: false, ..everything() };
    assert_eq!(select(&Event::Char('x'), &keys, no_down), Some(Rule::LineUp));
    let sideways = Abilities { down: false, up: false, ..everything() };
    assert_eq!(select(&Event::Char('x'), &keys, sideways), Some(Rule::LineLeft));
    let right_only = Abilities { down: false, up: false, left: false, ..everything() };
    assert_eq!(select(&Event::Char('x'), &keys, right_only), Some(Rule::LineRight));
}

#[test]
fn a_key_whose_rule_does_not_apply_falls_to_its_binding() {
    let keys = Keybindings {
        down: Event::Key(Key::Home),
        up: Event::Key(Key::PageDown),
        left: Event::Key(Key::Left),
        right: Event::Key(Key::Right),
    };
    // Page Down cannot page down, but is bound to up.
    let can = Abilities { down: false, ..everything() };
    assert_eq!(select(&Event::Key(Key::PageDown), &keys, can), Some(Rule::LineUp));
    // Where it can page down, that comes first.
    assert_eq!(select(&Event::Key(Key::PageDown), &keys, everything()), Some(Rule::PageDown));
    assert_eq!(select(&Event::Key(Key::Home), &keys, everything()), Some(Rule::Home));
}

#[test]
fn a_g_that_completes_no_double_press_falls_to_its_binding() {
    let keys = Keybindings { down: Event::Char('g'), ..arrows() };
    let single = Abilities { double_press: false, ..everything() };
    assert_eq!(select(&Event::Char('g'), &keys, single), Some(Rule::LineDown));
    assert_eq!(select(&Event::Char('g'), &keys, everything()), Some(Rule::Top));
    assert_eq!(select(&Event::Char('g'), &arrows(), single), None);
}

#[test]
fn undecoded_input_is_told_apart_by_its_bytes() {
    let keys = Keybindings { down: Event::Unknown(vec![27, 91, 65]), ..arrows() };
    assert_eq!(select(&Event::Unknown(vec![27, 91, 65]), &keys, everything()), Some(Rule::LineDown));
    assert_eq!(select(&Event::Unknown(vec![27, 91, 66]), &keys, everything()), None);
    assert_eq!(select(&Event::Unknown(vec![27, 91]), &keys, everything()), None);
    assert_eq!(select(&Event::Unknown(vec![]), &keys, everything()), None);
    assert_eq!(select(&Event::Unknown(vec![27, 91, 65]), &arrows(), everything()), None);
}

#[test]
fn events_are_the_same_by_what_they_hold() {
    let at = |x: usize| mouse(MouseEvent::WheelUp, (1, 1), (x, 2));
    assert!(Event::Char('a').same(&Event::Char('a')));
    assert!(!Event::Char('a').same(&Event::Char('b')));
    assert!(!Event::Char('a').same(&Event::CtrlChar('a')));
    assert!(!Event::Char('a').same(&Event::AltChar('a')));
    assert!(Event::Key(Key::F5).same(&Event::Key(Key::F5)));
    assert!(!Event::Key(Key::F5).same(&Event::Key(Key::F6)));
    assert!(!Event::Key(Key::Up).same(&Event::Shift(Key::Up)));
    assert!(Event::CtrlAlt(Key::Up).same(&Event::CtrlAlt(Key::Up)));
    assert!(at(3).same(&at(3)));
    assert!(!at(3).same(&at(4)));
    assert!(!at(3).same(&mouse(MouseEvent::WheelDown, (1, 1), (3, 2))));
    assert!(Event::Refresh.same(&Event::Refresh));
    assert!(!Event::Refresh.same(&Event::Exit));
    assert!(Event::Unknown(vec![1, 2]).same(&Event::Unknown(vec![1, 2])));
    assert!(!Event::Unknown(vec![1, 2]).same(&Event::Unknown(vec![1, 3])));
    assert!(!Event::Unknown(vec![1, 2]).same(&Event::Unknown(vec![1, 2, 3])));
    assert!(!Event::Unknown(vec![]).same(&Event::Refresh));
}

#[test]
fn a_bound_mouse_event_scrolls_like_a_key() {
    let click = mouse(MouseEvent::Press(MouseButton::Right), (0, 0), (4, 4));
    let keys = Keybindings { down: click.clone(), ..arrows() };
    assert_eq!(select(&click, &keys, everything()), Some(Rule::LineDown));
    // The same button elsewhere is another event.
    let elsewhere = mouse(MouseEvent::Press(MouseButton::Right), (0, 0), (4, 5));
    assert_eq!(select(&elsewhere, &keys, everything()), None);
}

#[test]
fn only_the_left_button_drags() {
    let keys = arrows();
    let can = everything();
    for button in [
        MouseButton::Middle,
        MouseButton::Right,
        MouseButton::Button4,
        MouseButton::Button5,
        MouseButton::Other,
    ] {
        assert_eq!(select(&mouse(MouseEvent::Press(button), (0, 0), (1, 1)), &keys, can), None);
        assert_eq!(select(&mouse(MouseEvent::Hold(button), (0, 0), (1, 1)), &keys, can), None);
        assert_eq!(select(&mouse(MouseEvent::Release(button), (0, 0), (1, 1)), &keys, can), None);
    }
}

#[test]
fn a_press_above_or_left_of_the_view_takes_no_scrollbar() {
    let keys = arrows();
    let can = everything();
    let left = MouseButton::Left;
    assert_eq!(select(&mouse(MouseEvent::Press(left), (3, 3), (3, 3)), &keys, can), Some(Rule::Press));
    assert_eq!(select(&mouse(MouseEvent::Press(left), (3, 3), (2, 9)), &keys, can), None);
    assert_eq!(select(&mouse(MouseEvent::Press(left), (3, 3), (9, 2)), &keys, can), None);
    // A held button is followed wherever it goes.
    assert_eq!(select(&mouse(MouseEvent::Hold(left), (3, 3), (2, 2)), &keys, can), Some(Rule::Hold));
}

#[test]
fn hidden_scrollbars_cannot_be_dragged() {
    let keys = arrows();
    let can = Abilities { scrollbars: false, ..everything() };
    let left = MouseButton::Left;
    assert_eq!(select(&mouse(MouseEvent::Press(left), (0, 0), (5, 5)), &keys, can), None);
    assert_eq!(select(&mouse(MouseEvent::Hold(left), (0, 0), (5, 5)), &keys, can), None);
    assert_eq!(
        select(&mouse(MouseEvent::Release(left), (0, 0), (5, 5)), &keys, can),
        Some(Rule::Release)
    );
}

#[test]
fn events_that_are_no_trigger_select_nothing() {
    let keys = arrows();
    let can = everything();
    for event in [
        Event::Char('d'),
        Event::Char('u'),
        Event::CtrlChar('G'),
        Event::CtrlChar('D'),
        Event::AltChar('g'),
        Event::Shift(Key::End),
        Event::Alt(Key::PageUp),
        Event::AltShift(Key::PageUp),
        Event::Ctrl(Key::Home),
        Event::CtrlShift(Key::Home),
        Event::CtrlAlt(Key::Home),
        Event::Key(Key::Tab),
        Event::Key(Key::F5),
        Event::WindowResize,
        Event::FocusLost,
        Event::Refresh,
        Event::Unknown(vec![27, 91]),
        Event::Exit,
    ] {
        assert_eq!(select(&event, &keys, can), None);
    }
}
