//! The double press of the lower-case g, two presses less than 300 ms apart,
//! and the drag of a scrollbar thumb.
//!
//! The time of the last press is one value for the whole input stream, not
//! one per panel: a press in one panel followed by a press in another counts
//! as a double press. Whoever reads the input owns the value and hands it to
//! each panel's event handling.

use crate::geometry::Vec2;
use vstd::prelude::*;

verus! {

/// The length of the window in which a second press counts, in nanoseconds.
pub const DOUBLE_PRESS_NANOS: u128 = 300_000_000;

/// The time of the last press of the lower-case g, in nanoseconds since the
/// Unix epoch; `None` until the first press.
#[derive(Clone, Copy, Debug, PartialEq, Eq, Structural)]
pub struct Debounce {
    pub last_press: Option<u128>,
}

impl Debounce {
    /// The state before any press.
    pub fn new() -> (d: Debounce)
        ensures
            d.last_press is None,
    {
        Debounce { last_press: None }
    }

    /// A press at `now` completes a double press: there was a press before,
    /// not later than `now`, and less than 300 ms have passed since.
    pub open spec fn doubles(self, now: u128) -> bool {
        match self.last_press {
            Some(last) => last <= now && now - last < DOUBLE_PRESS_NANOS,
            None => false,
        }
    }

    /// The state after a press at `now`.
    pub open spec fn pressed(self, now: u128) -> Debounce {
        Debounce { last_press: Some(now) }
    }

    /// Whether a press at `now` would complete a double press.
    pub fn is_double(&self, now: u128) -> (double: bool)
        ensures
            double == self.doubles(now),
    {
        match self.last_press {
            Some(last) => last <= now && now - last < DOUBLE_PRESS_NANOS,
            None => false,
        }
    }

    /// Records a press at `now` and says whether it completes a double press.
    /// The time of this press replaces the stored one in either case, so the
    /// third of three quick presses is measured against the second.
    pub fn press(&mut self, now: u128) -> (double: bool)
        ensures
            double == old(self).doubles(now),
            *final(self) == old(self).pressed(now),
    {
        let double = match self.last_press {
            Some(last) => last <= now && now - last < DOUBLE_PRESS_NANOS,
            None => false,
        };
        self.last_press = Some(now);
        double
    }
}

/// The drag of one viewport's scrollbar thumb: where the left button went
/// down on the scrollbar, counted from the view's corner, while the button
/// is held; `None` while nothing is dragged.
#[derive(Clone, Copy, Debug, PartialEq, Eq, Structural)]
pub struct Drag {
    pub origin: Option<Vec2>,
}

impl Drag {
    /// The state with nothing dragged.
    pub fn new() -> (d: Drag)
        ensures
            d.origin is None,
    {
        Drag { origin: None }
    }

    /// Whether a thumb is being dragged.
    pub fn in_progress(&self) -> (dragging: bool)
        ensures
            dragging == (self.origin is Some),
    {
        self.origin.is_some()
    }
}

/// `std::time::SystemTime::now`, as nanoseconds since the Unix epoch, and
/// zero for a clock set before the epoch. Nothing is claimed of the value:
/// the clock may stand still or run backwards between two calls.
#[verifier::external_body]
pub(crate) fn now() -> (nanos: u128) {
    match std::time::SystemTime::now().duration_since(std::time::UNIX_EPOCH) {
        Ok(since) => since.as_nanos(),
        Err(_) => 0,
    }
}

/// Of two presses at `first` and `second`, whatever came before, the second
/// completes a double press exactly if it is not earlier than the first and
/// less than 300 ms later. A third press is measured against the second
/// alone: the first no longer counts.
pub proof fn lemma_double_press(before: Debounce, first: u128, second: u128, third: u128)
    ensures
        before.pressed(first).doubles(second) <==> first <= second && second - first
            < DOUBLE_PRESS_NANOS,
        before.pressed(first).pressed(second).doubles(third) <==> second <= third && third
            - second < DOUBLE_PRESS_NANOS,
        !(Debounce { last_press: None }).doubles(first),
{
}

} // verus!
