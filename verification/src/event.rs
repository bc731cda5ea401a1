//! Input events as the scroll controller reads them, the answer it gives to
//! each, and the keys bound to the four directions.

use crate::geometry::Vec2;
use cursive::event::Callback;
use vstd::prelude::*;

verus! {

/// `cursive::event::Callback`, the action a view may attach to an event it
/// consumed. The controller never looks inside one: it only hands it on.
#[verifier::external_type_specification]
#[verifier::external_body]
pub struct ExCallback(Callback);

/// A key that produces no character.
#[derive(Clone, Copy, Debug, PartialEq, Eq, Structural)]
pub enum Key {
    Enter,
    Tab,
    Backspace,
    Esc,
    Left,
    Right,
    Up,
    Down,
    Ins,
    Del,
    Home,
    End,
    PageUp,
    PageDown,
    PauseBreak,
    NumpadCenter,
    F0,
    F1,
    F2,
    F3,
    F4,
    F5,
    F6,
    F7,
    F8,
    F9,
    F10,
    F11,
    F12,
}

/// A button of the mouse.
#[derive(Clone, Copy, Debug, PartialEq, Eq, Structural)]
pub enum MouseButton {
    Left,
    Middle,
    Right,
    Button4,
    Button5,
    Other,
}

/// What the mouse did.
#[derive(Clone, Copy, Debug, PartialEq, Eq, Structural)]
pub enum MouseEvent {
    Press(MouseButton),
    Release(MouseButton),
    Hold(MouseButton),
    WheelUp,
    WheelDown,
}

/// One input event.
#[derive(Clone, Debug, PartialEq, Eq)]
pub enum Event {
    /// The window changed its size.
    WindowResize,
    /// The view is about to lose the focus.
    FocusLost,
    /// The periodic refresh.
    Refresh,
    /// A character was typed.
    Char(char),
    /// A character was typed with Ctrl held.
    CtrlChar(char),
    /// A character was typed with Alt held.
    AltChar(char),
    /// A key was pressed.
    Key(Key),
    /// A key was pressed with Shift held.
    Shift(Key),
    /// A key was pressed with Alt held.
    Alt(Key),
    /// A key was pressed with Alt and Shift held.
    AltShift(Key),
    /// A key was pressed with Ctrl held.
    Ctrl(Key),
    /// A key was pressed with Ctrl and Shift held.
    CtrlShift(Key),
    /// A key was pressed with Ctrl and Alt held.
    CtrlAlt(Key),
    /// The mouse did something.
    Mouse {
        /// Screen position of the top-left corner of the view receiving the event.
        offset: Vec2,
        /// Screen position of the mouse.
        position: Vec2,
        /// What it did.
        event: MouseEvent,
    },
    /// Input that the terminal could not decode, as the bytes that came.
    Unknown(Vec<u8>),
    /// The application is about to exit.
    Exit,
}

impl Event {
    /// The two events are the same input: the same key, character or mouse
    /// event, or undecoded input of the same bytes.
    pub open spec fn spec_same(self, other: Event) -> bool {
        match (self, other) {
            (Event::Unknown(a), Event::Unknown(b)) => a@ == b@,
            (Event::Unknown(_), _) => false,
            (_, Event::Unknown(_)) => false,
            _ => self == other,
        }
    }

    /// Whether the two events are the same input.
    pub fn same(&self, other: &Event) -> (r: bool)
        ensures
            r == self.spec_same(*other),
    {
        match (self, other) {
            (Event::WindowResize, Event::WindowResize) => true,
            (Event::FocusLost, Event::FocusLost) => true,
            (Event::Refresh, Event::Refresh) => true,
            (Event::Char(a), Event::Char(b)) => *a == *b,
            (Event::CtrlChar(a), Event::CtrlChar(b)) => *a == *b,
            (Event::AltChar(a), Event::AltChar(b)) => *a == *b,
            (Event::Key(a), Event::Key(b)) => *a == *b,
            (Event::Shift(a), Event::Shift(b)) => *a == *b,
            (Event::Alt(a), Event::Alt(b)) => *a == *b,
            (Event::AltShift(a), Event::AltShift(b)) => *a == *b,
            (Event::Ctrl(a), Event::Ctrl(b)) => *a == *b,
            (Event::CtrlShift(a), Event::CtrlShift(b)) => *a == *b,
            (Event::CtrlAlt(a), Event::CtrlAlt(b)) => *a == *b,
            (
                Event::Mouse { offset: corner, position, event },
                Event::Mouse { offset: other_corner, position: other_position, event: other_event },
            ) => *corner == *other_corner && *position == *other_position && *event
                == *other_event,
            (Event::Unknown(a), Event::Unknown(b)) => same_bytes(a, b),
            (Event::Exit, Event::Exit) => true,
            _ => false,
        }
    }

    /// The mouse position of the event, if it has one, is at most `bound` on
    /// either axis.
    pub open spec fn spec_within(self, bound: usize) -> bool {
        self is Mouse ==> self->position.x <= bound && self->position.y <= bound
    }

    /// Whether the mouse position of the event, if it has one, is at most
    /// `bound` on either axis.
    pub fn within(&self, bound: usize) -> (r: bool)
        ensures
            r == self.spec_within(bound),
    {
        match self {
            Event::Mouse { position, .. } => position.x <= bound && position.y <= bound,
            _ => true,
        }
    }

    /// The mouse position relative to the view that receives the event; the
    /// origin for a mouse above or left of the view.
    pub open spec fn pointer(self) -> Vec2 {
        self->position.spec_saturating_sub(self->offset)
    }
}

/// Whether two byte strings are the same.
fn same_bytes(a: &Vec<u8>, b: &Vec<u8>) -> (r: bool)
    ensures
        r == (a@ == b@),
{
    if a.len() != b.len() {
        return false;
    }
    let mut i: usize = 0;
    while i < a.len()
        invariant
            i <= a.len(),
            a.len() == b.len(),
            forall|j: int| 0 <= j < i ==> a@[j] == b@[j],
        decreases a.len() - i,
    {
        if a[i] != b[i] {
            return false;
        }
        i += 1;
    }
    assert(a@ =~= b@);
    true
}

/// The answer to an event.
pub enum EventResult {
    /// Nobody used the event: the parent may.
    Ignored,
    /// The event was used; an action to run may be attached.
    Consumed(Option<Callback>),
}

impl EventResult {
    /// The event was used.
    pub open spec fn spec_is_consumed(&self) -> bool {
        self is Consumed
    }

    /// Whether the event was used.
    #[verifier::when_used_as_spec(spec_is_consumed)]
    pub fn is_consumed(&self) -> (r: bool)
        ensures
            r == self.spec_is_consumed(),
    {
        match self {
            EventResult::Ignored => false,
            EventResult::Consumed(_) => true,
        }
    }

    /// The answer of a view that used the event and attaches no action.
    pub fn consumed() -> (r: EventResult)
        ensures
            r == EventResult::Consumed(None),
    {
        EventResult::Consumed(None)
    }
}

/// The events bound to scrolling by one cell in each direction.
#[derive(Clone, Debug, PartialEq, Eq)]
pub struct Keybindings {
    pub down: Event,
    pub up: Event,
    pub left: Event,
    pub right: Event,
}

} // verus!
