//! The table of scroll rules: which events scroll, on which condition, and in
//! which order the rules are tried.

use crate::event::{Event, Key, Keybindings, MouseButton, MouseEvent};
use crate::gesture::{Debounce, Drag};
use crate::viewport::Viewport;
use vstd::prelude::*;

verus! {

/// Rows scrolled by Page Up and Page Down.
pub const PAGE_ROWS: usize = 10;

/// Rows scrolled by one step of the mouse wheel.
pub const WHEEL_ROWS: usize = 3;

/// Rows and columns scrolled by a bound key.
pub const LINE_CELLS: usize = 1;

/// The conditions of the rules, as they stand when an event arrives.
#[derive(Clone, Copy, Debug, PartialEq, Eq, Structural)]
pub struct Abilities {
    /// Either axis scrolls: it may, and the content does not fit the window.
    pub any_axis: bool,
    /// The window is not at the top.
    pub up: bool,
    /// The window is not at the bottom.
    pub down: bool,
    /// The window is not at the left edge.
    pub left: bool,
    /// The window is not at the right edge.
    pub right: bool,
    /// Scrollbars are shown where needed.
    pub scrollbars: bool,
    /// A lower-case g pressed now is the second within the window.
    pub double_press: bool,
    /// A scrollbar thumb is being dragged.
    pub dragging: bool,
}

impl Abilities {
    /// The conditions for the viewport `v` at time `now`, given the last
    /// press of the lower-case g and the drag in progress.
    pub open spec fn of(v: Viewport, gesture: Debounce, drag: Drag, now: u128) -> Abilities {
        Abilities {
            any_axis: v.any_enabled(),
            up: v.can_scroll_up(),
            down: v.can_scroll_down(),
            left: v.can_scroll_left(),
            right: v.can_scroll_right(),
            scrollbars: v.show_scrollbars,
            double_press: gesture.doubles(now),
            dragging: drag.origin is Some,
        }
    }
}

/// The rules, in the order in which they are tried.
#[derive(Clone, Copy, Debug, PartialEq, Eq, Structural)]
pub enum Rule {
    /// Home: to the left edge, then to the top.
    Home,
    /// End: to the right edge, then to the bottom.
    End,
    /// Page Up: a page up.
    PageUp,
    /// Page Down: a page down.
    PageDown,
    /// Upper-case G: to the bottom.
    Bottom,
    /// Lower-case g, the second within the window: to the top.
    Top,
    /// Ctrl-D: half a window down.
    HalfPageDown,
    /// Ctrl-U: half a window up.
    HalfPageUp,
    /// The key bound to down: one row down.
    LineDown,
    /// The key bound to up: one row up.
    LineUp,
    /// The key bound to left: one column left.
    LineLeft,
    /// The key bound to right: one column right.
    LineRight,
    /// Wheel up: a few rows up.
    WheelUp,
    /// Wheel down: a few rows down.
    WheelDown,
    /// Left button pressed on a scrollbar: take hold of the thumb.
    Press,
    /// Left button held while a thumb is dragged: move the thumb.
    Hold,
    /// Left button released: let go of the thumb.
    Release,
}

impl Rule {
    /// The place of the rule in the table, from zero.
    pub open spec fn rank(self) -> nat {
        match self {
            Rule::Home => 0,
            Rule::End => 1,
            Rule::PageUp => 2,
            Rule::PageDown => 3,
            Rule::Bottom => 4,
            Rule::Top => 5,
            Rule::HalfPageDown => 6,
            Rule::HalfPageUp => 7,
            Rule::LineDown => 8,
            Rule::LineUp => 9,
            Rule::LineLeft => 10,
            Rule::LineRight => 11,
            Rule::WheelUp => 12,
            Rule::WheelDown => 13,
            Rule::Press => 14,
            Rule::Hold => 15,
            Rule::Release => 16,
        }
    }

    /// The rule takes the event: the event is the rule's trigger, and the
    /// viewport meets the rule's condition.
    pub open spec fn applies(self, event: Event, keys: Keybindings, can: Abilities) -> bool {
        match self {
            Rule::Home => event == Event::Key(Key::Home) && can.any_axis,
            Rule::End => event == Event::Key(Key::End) && can.any_axis,
            Rule::PageUp => event == Event::Key(Key::PageUp) && can.up,
            Rule::PageDown => event == Event::Key(Key::PageDown) && can.down,
            Rule::Bottom => event == Event::Char('G'),
            Rule::Top => event == Event::Char('g') && can.double_press,
            Rule::HalfPageDown => event == Event::CtrlChar('d') && can.down,
            Rule::HalfPageUp => event == Event::CtrlChar('u') && can.up,
            Rule::LineDown => event.spec_same(keys.down) && can.down,
            Rule::LineUp => event.spec_same(keys.up) && can.up,
            Rule::LineLeft => event.spec_same(keys.left) && can.left,
            Rule::LineRight => event.spec_same(keys.right) && can.right,
            Rule::WheelUp => is_mouse(event, MouseEvent::WheelUp) && can.up,
            Rule::WheelDown => is_mouse(event, MouseEvent::WheelDown) && can.down,
            Rule::Press => {
                &&& is_mouse(event, MouseEvent::Press(MouseButton::Left))
                &&& can.scrollbars
                &&& event->offset.spec_fits_in(event->position)
            },
            Rule::Hold => {
                &&& is_mouse(event, MouseEvent::Hold(MouseButton::Left))
                &&& can.scrollbars
                &&& can.dragging
            },
            Rule::Release => is_mouse(event, MouseEvent::Release(MouseButton::Left)),
        }
    }
}

/// The event is a mouse event of the given kind, wherever the mouse is.
pub open spec fn is_mouse(event: Event, kind: MouseEvent) -> bool {
    event is Mouse && event->event == kind
}

/// The rule that takes the event: the first in the table that applies.
pub open spec fn spec_select(event: Event, keys: Keybindings, can: Abilities) -> Option<Rule> {
    if Rule::Home.applies(event, keys, can) {
        Some(Rule::Home)
    } else if Rule::End.applies(event, keys, can) {
        Some(Rule::End)
    } else if Rule::PageUp.applies(event, keys, can) {
        Some(Rule::PageUp)
    } else if Rule::PageDown.applies(event, keys, can) {
        Some(Rule::PageDown)
    } else if Rule::Bottom.applies(event, keys, can) {
        Some(Rule::Bottom)
    } else if Rule::Top.applies(event, keys, can) {
        Some(Rule::Top)
    } else if Rule::HalfPageDown.applies(event, keys, can) {
        Some(Rule::HalfPageDown)
    } else if Rule::HalfPageUp.applies(event, keys, can) {
        Some(Rule::HalfPageUp)
    } else if Rule::LineDown.applies(event, keys, can) {
        Some(Rule::LineDown)
    } else if Rule::LineUp.applies(event, keys, can) {
        Some(Rule::LineUp)
    } else if Rule::LineLeft.applies(event, keys, can) {
        Some(Rule::LineLeft)
    } else if Rule::LineRight.applies(event, keys, can) {
        Some(Rule::LineRight)
    } else if Rule::WheelUp.applies(event, keys, can) {
        Some(Rule::WheelUp)
    } else if Rule::WheelDown.applies(event, keys, can) {
        Some(Rule::WheelDown)
    } else if Rule::Press.applies(event, keys, can) {
        Some(Rule::Press)
    } else if Rule::Hold.applies(event, keys, can) {
        Some(Rule::Hold)
    } else if Rule::Release.applies(event, keys, can) {
        Some(Rule::Release)
    } else {
        None
    }
}

/// Finds the rule that takes the event, if any does.
pub fn select(event: &Event, keys: &Keybindings, can: Abilities) -> (rule: Option<Rule>)
    ensures
        rule == spec_select(*event, *keys, can),
{
    match event {
        Event::Key(Key::Home) if can.any_axis => Some(Rule::Home),
        Event::Key(Key::End) if can.any_axis => Some(Rule::End),
        Event::Key(Key::PageUp) if can.up => Some(Rule::PageUp),
        Event::Key(Key::PageDown) if can.down => Some(Rule::PageDown),
        Event::Char('G') => Some(Rule::Bottom),
        Event::Char('g') if can.double_press => Some(Rule::Top),
        Event::CtrlChar('d') if can.down => Some(Rule::HalfPageDown),
        Event::CtrlChar('u') if can.up => Some(Rule::HalfPageUp),
        _ if can.down && event.same(&keys.down) => Some(Rule::LineDown),
        _ if can.up && event.same(&keys.up) => Some(Rule::LineUp),
        _ if can.left && event.same(&keys.left) => Some(Rule::LineLeft),
        _ if can.right && event.same(&keys.right) => Some(Rule::LineRight),
        Event::Mouse { event: MouseEvent::WheelUp, .. } if can.up => Some(Rule::WheelUp),
        Event::Mouse { event: MouseEvent::WheelDown, .. } if can.down => Some(Rule::WheelDown),
        Event::Mouse { event: MouseEvent::Press(MouseButton::Left), position, offset }
            if can.scrollbars && offset.fits_in(*position) => Some(Rule::Press),
        Event::Mouse { event: MouseEvent::Hold(MouseButton::Left), .. }
            if can.scrollbars && can.dragging => Some(Rule::Hold),
        Event::Mouse { event: MouseEvent::Release(MouseButton::Left), .. } => Some(Rule::Release),
        _ => None,
    }
}

/// The first match wins: a rule is selected exactly if it applies and no
/// rule before it in the table does, and none is selected exactly if none
/// applies.
pub proof fn lemma_first_match_wins(event: Event, keys: Keybindings, can: Abilities, rule: Rule)
    ensures
        spec_select(event, keys, can) == Some(rule) <==> {
            &&& rule.applies(event, keys, can)
            &&& forall|earlier: Rule|
                earlier.rank() < rule.rank() ==> !#[trigger] earlier.applies(event, keys, can)
        },
        spec_select(event, keys, can) is None <==> forall|any: Rule|
            !#[trigger] any.applies(event, keys, can),
{
    assert(forall|r: Rule| r.rank() <= 16);
    if spec_select(event, keys, can) is Some {
        let chosen = spec_select(event, keys, can)->0;
        assert(chosen.applies(event, keys, can));
    }
    if rule.applies(event, keys, can) {
        assert(spec_select(event, keys, can) is Some);
    }
}

} // verus!
