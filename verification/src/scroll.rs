//! The scroll controller: one input event in, one answer out, and the
//! viewport moved in between.
//!
//! An event goes to the panel's content first. Only an event that the content
//! ignores is tried against the scroll rules; after one that the content used,
//! the viewport follows the content's important area instead.

use crate::event::{Event, EventResult, Key, Keybindings, MouseEvent};
use crate::geometry::{Rect, Vec2};
use crate::gesture::{now, Debounce, Drag, DOUBLE_PRESS_NANOS};
use crate::rules::{select, spec_select, Abilities, Rule, LINE_CELLS, PAGE_ROWS, WHEEL_ROWS};
use crate::scroller::{
    available_size, content_viewport, dragged, grabbed, inner_size, is_enabled,
    locate_mouse, scroll_to_rect, scrollbar_padding, set_scroll_strategy, start_drag,
    viewport_of,
};
use crate::viewport::{
    extent_limit, lemma_scroll_to_shown_rect, spec_extent_limit, Strategy, Viewport,
};
use cursive::view::scroll::Core;
use vstd::prelude::*;

verus! {

/// The strategy that every fired rule sets: the viewport keeps its row.
pub const SCROLL_STRATEGY: Strategy = Strategy::KeepRow;

/// What a panel shows in its viewport. The controller asks it three things.
pub trait ScrollContent {
    /// Offers the content an event, with the mouse position given in content
    /// cells, and takes its answer. The content may scroll the viewport
    /// itself.
    fn on_event(&mut self, core: &mut Core, event: &Event) -> EventResult;

    /// Tells the content that a scroll rule has fired.
    fn on_scroll(&mut self, core: &Core);

    /// Asks the content which of its cells must stay visible, given the size
    /// it was laid out with.
    fn important_area(&self, core: &Core, size: Vec2) -> Rect;
}

/// A panel at one moment: its scroll core, its content, the drag of its
/// scrollbar, and the double-press state that it shares with other panels.
pub struct Panel<T> {
    pub core: Core,
    pub content: T,
    pub gesture: Debounce,
    pub drag: Drag,
}

/// The event as the content sees it, and whether the content is asked at all.
/// A key goes to the content as it is. A mouse event goes to it only if the
/// mouse is in the window, with its position moved by the viewport's offset;
/// a position that cannot be moved without overflow counts as outside.
pub open spec fn relative_to(v: Viewport, event: Event) -> (bool, Event) {
    match event {
        Event::Mouse { offset, position, event: kind } => {
            if position.x + v.offset.x <= usize::MAX && position.y + v.offset.y <= usize::MAX {
                (
                    v.holds(offset, position),
                    Event::Mouse {
                        offset,
                        position: Vec2 {
                            x: (position.x + v.offset.x) as usize,
                            y: (position.y + v.offset.y) as usize,
                        },
                        event: kind,
                    },
                )
            } else {
                (false, event)
            }
        },
        _ => (true, event),
    }
}

/// The rule that takes `event` at time `now`: the first in the table whose
/// trigger the event is and whose condition holds.
pub open spec fn chosen(
    v: Viewport,
    event: Event,
    keys: Keybindings,
    gesture: Debounce,
    drag: Drag,
    now: u128,
) -> Option<Rule> {
    spec_select(event, keys, Abilities::of(v, gesture, drag, now))
}

/// The viewport and the event are small enough for the thumb of a scrollbar
/// to be moved: no size, offset or mouse position exceeds the extent limit.
pub open spec fn reachable(v: Viewport, event: Event) -> bool {
    v.within(spec_extent_limit() as int) && event.spec_within(spec_extent_limit())
}

/// The scroll rules can be tried: the far edge of the window can be told,
/// and where the event is a press or a hold on a scrollbar, viewport and
/// event are within the extent limit.
pub open spec fn feasible(
    v: Viewport,
    event: Event,
    keys: Keybindings,
    gesture: Debounce,
    drag: Drag,
    now: u128,
) -> bool {
    &&& v.measurable()
    &&& match chosen(v, event, keys, gesture, drag, now) {
        Some(Rule::Press) => reachable(v, event),
        Some(Rule::Hold) => reachable(v, event),
        _ => true,
    }
}

/// A rule fires: one takes the event and, for a press of the mouse, the
/// press takes hold of a scrollbar.
pub open spec fn fires(
    v: Viewport,
    event: Event,
    keys: Keybindings,
    gesture: Debounce,
    drag: Drag,
    now: u128,
) -> bool {
    match chosen(v, event, keys, gesture, drag, now) {
        None => false,
        Some(Rule::Press) => grabbed(v, event.pointer()) is Some,
        Some(_) => true,
    }
}

/// Where the rule `rule` moves the viewport on `event`.
pub open spec fn moved_by(v: Viewport, rule: Rule, event: Event) -> Viewport {
    match rule {
        Rule::Home => v.scrolled_to_left().scrolled_to_top(),
        Rule::End => v.scrolled_to_right().scrolled_to_bottom(),
        Rule::PageUp => v.scrolled_up(PAGE_ROWS as int),
        Rule::PageDown => v.scrolled_down(PAGE_ROWS as int),
        Rule::Bottom => v.scrolled_to_bottom(),
        Rule::Top => v.scrolled_to_top(),
        Rule::HalfPageDown => v.scrolled_down(v.rows() / 2),
        Rule::HalfPageUp => v.scrolled_up(v.rows() / 2),
        Rule::LineDown => v.scrolled_down(LINE_CELLS as int),
        Rule::LineUp => v.scrolled_up(LINE_CELLS as int),
        Rule::LineLeft => v.scrolled_left(LINE_CELLS as int),
        Rule::LineRight => v.scrolled_right(LINE_CELLS as int),
        Rule::WheelUp => v.scrolled_up(WHEEL_ROWS as int),
        Rule::WheelDown => v.scrolled_down(WHEEL_ROWS as int),
        Rule::Press => match grabbed(v, event.pointer()) {
            Some(held) => held,
            None => v,
        },
        Rule::Hold => dragged(v, event.pointer()),
        Rule::Release => v.released(),
    }
}

/// The viewport after the scroll rules have seen `event` at time `now`:
/// moved by the rule that fires and set to keep its row, or as it was where
/// none fires.
pub open spec fn scrolled_by(
    v: Viewport,
    event: Event,
    keys: Keybindings,
    gesture: Debounce,
    drag: Drag,
    now: u128,
) -> Viewport {
    match chosen(v, event, keys, gesture, drag, now) {
        Some(rule) => if fires(v, event, keys, gesture, drag, now) {
            moved_by(v, rule, event).following_strategy(SCROLL_STRATEGY)
        } else {
            v
        },
        None => v,
    }
}

/// The double-press state after the scroll rules have seen `event` at time
/// `now`: every lower-case g is recorded, and nothing else is.
pub open spec fn noted(gesture: Debounce, event: Event, now: u128) -> Debounce {
    if event == Event::Char('g') {
        gesture.pressed(now)
    } else {
        gesture
    }
}

/// The drag after the scroll rules have seen `event` at time `now`: begun by
/// a press that takes hold of a scrollbar, ended by a release of the left
/// button, and otherwise as it was.
pub open spec fn dragging_after(
    v: Viewport,
    event: Event,
    keys: Keybindings,
    gesture: Debounce,
    drag: Drag,
    now: u128,
) -> Drag {
    match chosen(v, event, keys, gesture, drag, now) {
        Some(Rule::Press) => if grabbed(v, event.pointer()) is Some {
            Drag { origin: Some(event.pointer()) }
        } else {
            drag
        },
        Some(Rule::Release) => Drag { origin: None },
        _ => drag,
    }
}

/// The answer to an event that the content did not use.
pub open spec fn answer(fired: bool) -> EventResult {
    if fired {
        EventResult::Consumed(None)
    } else {
        EventResult::Ignored
    }
}

/// The viewport after following `area`: moved as little as possible to show
/// it, or left alone where the area ends at the largest `usize`.
pub open spec fn following(v: Viewport, area: Rect) -> Viewport {
    if area.spec_bottom_right().x < usize::MAX && area.spec_bottom_right().y < usize::MAX {
        v.scrolled_to_rect(area)
    } else {
        v
    }
}

/// The offset of the viewport.
pub fn offset(core: &Core) -> (at: Vec2)
    ensures
        at == viewport_of(*core).offset,
{
    let origin = Vec2::zero();
    let (_, moved) = locate_mouse(core, origin, origin);
    moved
}

/// Whether no size, offset or padding of the viewport exceeds the extent
/// limit, so that the thumb of a scrollbar can be moved.
pub fn in_reach(core: &Core) -> (ok: bool)
    ensures
        ok == viewport_of(*core).within(spec_extent_limit() as int),
{
    let limit = extent_limit();
    let at = offset(core);
    let content = inner_size(core);
    let window = available_size(core);
    let padding = scrollbar_padding(core);
    at.x <= limit && at.y <= limit && content.x <= limit && content.y <= limit && window.x
        <= limit && window.y <= limit && padding.x <= limit && padding.y <= limit
}

/// Whether the far edge of the window can be told on both axes.
pub fn can_measure(core: &Core) -> (ok: bool)
    ensures
        ok == viewport_of(*core).measurable(),
{
    let at = offset(core);
    let window = available_size(core);
    window.x <= usize::MAX - at.x && window.y <= usize::MAX - at.y
}

/// The conditions of the rules as they stand at time `now`.
pub fn abilities(core: &Core, gesture: &Debounce, drag: &Drag, now: u128) -> (can: Abilities)
    requires
        viewport_of(*core).measurable(),
    ensures
        can == Abilities::of(viewport_of(*core), *gesture, *drag, now),
{
    let (enabled_x, enabled_y) = is_enabled(core);
    let content = inner_size(core);
    let window = available_size(core);
    Abilities {
        any_axis: (enabled_x && content.x > window.x) || (enabled_y && content.y > window.y),
        up: core.can_scroll_up(),
        down: core.can_scroll_down(),
        left: core.can_scroll_left(),
        right: core.can_scroll_right(),
        scrollbars: core.get_show_scrollbars(),
        double_press: gesture.is_double(now),
        dragging: drag.in_progress(),
    }
}

/// Says whether the content is to be asked about an event, and puts the
/// event in the content's terms: a mouse event comes back with its position
/// moved; any other event is shown to the content as it is, and `None`
/// comes back.
pub fn locate(core: &Core, event: &Event) -> (r: (bool, Option<Event>))
    ensures
        r.0 == relative_to(viewport_of(*core), *event).0,
        match r.1 {
            Some(moved) => moved == relative_to(viewport_of(*core), *event).1,
            None => *event == relative_to(viewport_of(*core), *event).1,
        },
{
    match event {
        Event::Mouse { offset: corner, position, event: kind } => {
            let at = offset(core);
            if position.x <= usize::MAX - at.x && position.y <= usize::MAX - at.y {
                let (inside, moved) = locate_mouse(core, *corner, *position);
                (inside, Some(Event::Mouse { offset: *corner, position: moved, event: *kind }))
            } else {
                (false, None)
            }
        },
        _ => (true, None),
    }
}

/// Scrolls `n` rows down, stopping at the largest offset, however large `n`.
fn step_down(core: &mut Core, n: usize)
    ensures
        viewport_of(*final(core)) == viewport_of(*old(core)).scrolled_down(n as int),
{
    let at = offset(core);
    let room: usize = usize::MAX - at.y;
    core.scroll_down(if n <= room { n } else { room });
}

/// Scrolls `n` columns right, stopping at the largest offset, however large
/// `n`.
fn step_right(core: &mut Core, n: usize)
    ensures
        viewport_of(*final(core)) == viewport_of(*old(core)).scrolled_right(n as int),
{
    let at = offset(core);
    let room: usize = usize::MAX - at.x;
    core.scroll_right(if n <= room { n } else { room });
}

/// Whether the scroll rules can be tried on `event` at time `now`.
pub fn can_scroll_by(
    core: &Core,
    event: &Event,
    keys: &Keybindings,
    gesture: &Debounce,
    drag: &Drag,
    now: u128,
) -> (ok: bool)
    ensures
        ok == feasible(viewport_of(*core), *event, *keys, *gesture, *drag, now),
{
    if !can_measure(core) {
        return false;
    }
    match select(event, keys, abilities(core, gesture, drag, now)) {
        Some(Rule::Press) | Some(Rule::Hold) => in_reach(core) && event.within(extent_limit()),
        _ => true,
    }
}

/// Tries the scroll rules on an event that the content did not use, at time
/// `now`, and says whether one fired. The first rule that applies moves the
/// viewport; after it the viewport is set to keep its row. A lower-case g is
/// recorded whether it fires or not.
#[verifier::rlimit(50)]
pub fn scroll_by(
    core: &mut Core,
    event: &Event,
    keys: &Keybindings,
    gesture: &mut Debounce,
    drag: &mut Drag,
    now: u128,
) -> (fired: bool)
    requires
        feasible(viewport_of(*old(core)), *event, *keys, *old(gesture), *old(drag), now),
    ensures
        fired == fires(viewport_of(*old(core)), *event, *keys, *old(gesture), *old(drag), now),
        viewport_of(*final(core)) == scrolled_by(
            viewport_of(*old(core)),
            *event,
            *keys,
            *old(gesture),
            *old(drag),
            now,
        ),
        *final(gesture) == noted(*old(gesture), *event, now),
        *final(drag) == dragging_after(
            viewport_of(*old(core)),
            *event,
            *keys,
            *old(gesture),
            *old(drag),
            now,
        ),
        viewport_of(*old(core)).in_bounds() ==> viewport_of(*final(core)).in_bounds(),
{
    let can = abilities(core, gesture, drag, now);
    match event {
        Event::Char('g') => {
            gesture.press(now);
        },
        _ => {},
    }
    let fired = match select(event, keys, can) {
        None => false,
        Some(Rule::Home) => {
            core.scroll_to_left();
            core.scroll_to_top();
            true
        },
        Some(Rule::End) => {
            core.scroll_to_right();
            core.scroll_to_bottom();
            true
        },
        Some(Rule::PageUp) => {
            core.scroll_up(PAGE_ROWS);
            true
        },
        Some(Rule::PageDown) => {
            step_down(core, PAGE_ROWS);
            true
        },
        Some(Rule::Bottom) => {
            core.scroll_to_bottom();
            true
        },
        Some(Rule::Top) => {
            core.scroll_to_top();
            true
        },
        Some(Rule::HalfPageDown) => {
            let half: usize = content_viewport(core).height() / 2;
            step_down(core, half);
            true
        },
        Some(Rule::HalfPageUp) => {
            let half: usize = content_viewport(core).height() / 2;
            core.scroll_up(half);
            true
        },
        Some(Rule::LineDown) => {
            step_down(core, LINE_CELLS);
            true
        },
        Some(Rule::LineUp) => {
            core.scroll_up(LINE_CELLS);
            true
        },
        Some(Rule::LineLeft) => {
            core.scroll_left(LINE_CELLS);
            true
        },
        Some(Rule::LineRight) => {
            step_right(core, LINE_CELLS);
            true
        },
        Some(Rule::WheelUp) => {
            core.scroll_up(WHEEL_ROWS);
            true
        },
        Some(Rule::WheelDown) => {
            step_down(core, WHEEL_ROWS);
            true
        },
        Some(Rule::Press) => match event {
            Event::Mouse { offset: corner, position, .. } => match position.checked_sub(*corner) {
                Some(at) => {
                    let began = start_drag(core, at);
                    if began {
                        drag.origin = Some(at);
                    }
                    began
                },
                None => false,
            },
            _ => false,
        },
        Some(Rule::Hold) => {
            match event {
                Event::Mouse { offset: corner, position, .. } => crate::scroller::drag(
                    core,
                    position.saturating_sub(*corner),
                ),
                _ => {},
            }
            true
        },
        Some(Rule::Release) => {
            core.release_grab();
            drag.origin = None;
            true
        },
    };
    if fired {
        set_scroll_strategy(core, SCROLL_STRATEGY);
    }
    fired
}

/// The content is told of a scroll: its answer was `Ignored`, the rules
/// could be tried, and one fired.
pub open spec fn told<T>(before: Panel<T>, event: Event, keys: Keybindings, now: u128) -> bool {
    let v = viewport_of(before.core);
    &&& feasible(v, event, keys, before.gesture, before.drag, now)
    &&& fires(v, event, keys, before.gesture, before.drag, now)
}

/// Ends the handling of an event once the content has given its answer
/// `delegated`, at time `now`.
///
/// After an answer other than `Ignored`, the scroll rules are not tried and
/// the double-press state and the drag are left alone: the content is asked
/// for its important area, the viewport follows that area, and the content's
/// answer is returned as it is.
///
/// After `Ignored`, the scroll rules are tried. Where one fires, the content
/// is told, with the viewport as the rule left it, and the answer is
/// `Consumed` without an action; where none does, the answer is `Ignored`
/// and only the time of a lower-case g has changed. Where the rules cannot
/// be tried, nothing changes and the event is ignored.
pub fn conclude<T: ScrollContent>(
    core: &mut Core,
    content: &mut T,
    event: &Event,
    delegated: EventResult,
    keys: &Keybindings,
    gesture: &mut Debounce,
    drag: &mut Drag,
    now: u128,
) -> (result: EventResult)
    ensures
        concluded(
            (Panel {
                core: *old(core),
                content: *old(content),
                gesture: *old(gesture),
                drag: *old(drag),
            }),
            (Panel {
                core: *final(core),
                content: *final(content),
                gesture: *final(gesture),
                drag: *final(drag),
            }),
            *event,
            *keys,
            now,
            delegated,
            result,
        ),
        delegated is Ignored && told(
            (Panel {
                core: *old(core),
                content: *old(content),
                gesture: *old(gesture),
                drag: *old(drag),
            }),
            *event,
            *keys,
            now,
        ) ==> exists|c: &mut T|
            *c == *old(content) && *final(c) == *final(content) && #[trigger] call_ensures(
                T::on_scroll,
                (c, &*final(core)),
                (),
            ),
{
    match delegated {
        EventResult::Ignored => {
            if can_scroll_by(core, event, keys, gesture, drag, now) {
                if scroll_by(core, event, keys, gesture, drag, now) {
                    content.on_scroll(core);
                    EventResult::consumed()
                } else {
                    EventResult::Ignored
                }
            } else {
                EventResult::Ignored
            }
        },
        other => {
            let size = inner_size(core);
            let area = content.important_area(core, size);
            let last = area.bottom_right();
            if last.x < usize::MAX && last.y < usize::MAX {
                scroll_to_rect(core, area);
            }
            assert(following(viewport_of(*old(core)), area) == viewport_of(*core));
            other
        },
    }
}

/// How the handling of an event ends, from the content's answer `delegated`
/// on: by following the content where it used the event, by the scroll rules
/// where it did not.
pub open spec fn concluded<T: ScrollContent>(
    before: Panel<T>,
    after: Panel<T>,
    event: Event,
    keys: Keybindings,
    now: u128,
    delegated: EventResult,
    result: EventResult,
) -> bool {
    match delegated {
        EventResult::Consumed(_) => followed(before, after, delegated, result),
        EventResult::Ignored => ruled(before, after, event, keys, now, result),
    }
}

/// How an event ends that the content used: the content's answer is the
/// answer; the content, the double-press state and the drag are as they
/// were; and the viewport has followed an area that the content named as
/// important for the size of its content.
pub open spec fn followed<T: ScrollContent>(
    before: Panel<T>,
    after: Panel<T>,
    delegated: EventResult,
    result: EventResult,
) -> bool {
    &&& result == delegated
    &&& after.content == before.content
    &&& after.gesture == before.gesture
    &&& after.drag == before.drag
    &&& exists|area: Rect|
        {
            &&& call_ensures(
                T::important_area,
                (&before.content, &before.core, viewport_of(before.core).content),
                area,
            )
            &&& #[trigger] following(viewport_of(before.core), area) == viewport_of(after.core)
        }
}

/// How an event ends that the content did not use, or was not asked about:
/// as the scroll rules have it. Where no rule fires, the content is as it
/// was; where the rules cannot be tried, everything is.
pub open spec fn ruled<T>(
    before: Panel<T>,
    after: Panel<T>,
    event: Event,
    keys: Keybindings,
    now: u128,
    result: EventResult,
) -> bool {
    let v = viewport_of(before.core);
    if feasible(v, event, keys, before.gesture, before.drag, now) {
        &&& result == answer(fires(v, event, keys, before.gesture, before.drag, now))
        &&& viewport_of(after.core) == scrolled_by(
            v,
            event,
            keys,
            before.gesture,
            before.drag,
            now,
        )
        &&& after.gesture == noted(before.gesture, event, now)
        &&& after.drag == dragging_after(v, event, keys, before.gesture, before.drag, now)
        &&& !fires(v, event, keys, before.gesture, before.drag, now) ==> after.content
            == before.content
    } else {
        &&& result is Ignored
        &&& after == before
    }
}

/// Handles one input event at time `now`.
///
/// A mouse event outside the window is not shown to the content: it ends as
/// the scroll rules have it. Any other event is handed to the content, put
/// in the content's terms, and ends as [`conclude`] makes it end, from the
/// content's answer and the panel as the content's handler left it. In
/// either case the content is told where a rule fired.
pub fn on_event_at<T: ScrollContent>(
    core: &mut Core,
    content: &mut T,
    event: Event,
    keys: &Keybindings,
    gesture: &mut Debounce,
    drag: &mut Drag,
    now: u128,
) -> (result: EventResult)
    ensures
        !relative_to(viewport_of(*old(core)), event).0 ==> {
            &&& ruled(
                (Panel {
                    core: *old(core),
                    content: *old(content),
                    gesture: *old(gesture),
                    drag: *old(drag),
                }),
                (Panel {
                    core: *final(core),
                    content: *final(content),
                    gesture: *final(gesture),
                    drag: *final(drag),
                }),
                event,
                *keys,
                now,
                result,
            )
            &&& told(
                (Panel {
                    core: *old(core),
                    content: *old(content),
                    gesture: *old(gesture),
                    drag: *old(drag),
                }),
                event,
                *keys,
                now,
            ) ==> exists|d: &mut T|
                *d == *old(content) && *final(d) == *final(content) && #[trigger] call_ensures(
                    T::on_scroll,
                    (d, &*final(core)),
                    (),
                )
        },
        relative_to(viewport_of(*old(core)), event).0 ==> exists|
            c: &mut T,
            k: &mut Core,
            answered: EventResult,
        |
            {
                &&& *c == *old(content)
                &&& *k == *old(core)
                &&& #[trigger] call_ensures(
                    T::on_event,
                    (c, k, &relative_to(viewport_of(*old(core)), event).1),
                    answered,
                )
                &&& concluded(
                    (Panel {
                        core: *final(k),
                        content: *final(c),
                        gesture: *old(gesture),
                        drag: *old(drag),
                    }),
                    (Panel {
                        core: *final(core),
                        content: *final(content),
                        gesture: *final(gesture),
                        drag: *final(drag),
                    }),
                    event,
                    *keys,
                    now,
                    answered,
                    result,
                )
                &&& answered is Ignored && told(
                    (Panel {
                        core: *final(k),
                        content: *final(c),
                        gesture: *old(gesture),
                        drag: *old(drag),
                    }),
                    event,
                    *keys,
                    now,
                ) ==> exists|d: &mut T|
                    *d == *final(c) && *final(d) == *final(content) && #[trigger] call_ensures(
                        T::on_scroll,
                        (d, &*final(core)),
                        (),
                    )
            },
{
    let (inside, moved) = locate(core, &event);
    let delegated = if inside {
        match &moved {
            Some(shown) => content.on_event(core, shown),
            None => content.on_event(core, &event),
        }
    } else {
        EventResult::Ignored
    };
    conclude(core, content, &event, delegated, keys, gesture, drag, now)
}

/// A time at which an event was handled.
pub open spec fn read_at(now: u128) -> bool {
    true
}

/// Handles one input event, reading the time of a key press from the system
/// clock: [`on_event_at`] at whatever time the clock gives.
pub fn on_event<T: ScrollContent>(
    core: &mut Core,
    content: &mut T,
    event: Event,
    keys: &Keybindings,
    gesture: &mut Debounce,
    drag: &mut Drag,
) -> (result: EventResult)
    ensures
        exists|now: u128|
            {
                &&& #[trigger] read_at(now)
                &&& !relative_to(viewport_of(*old(core)), event).0 ==> {
                    &&& ruled(
                        (Panel {
                            core: *old(core),
                            content: *old(content),
                            gesture: *old(gesture),
                            drag: *old(drag),
                        }),
                        (Panel {
                            core: *final(core),
                            content: *final(content),
                            gesture: *final(gesture),
                            drag: *final(drag),
                        }),
                        event,
                        *keys,
                        now,
                        result,
                    )
                    &&& told(
                        (Panel {
                            core: *old(core),
                            content: *old(content),
                            gesture: *old(gesture),
                            drag: *old(drag),
                        }),
                        event,
                        *keys,
                        now,
                    ) ==> exists|d: &mut T|
                        *d == *old(content) && *final(d) == *final(content)
                            && #[trigger] call_ensures(T::on_scroll, (d, &*final(core)), ())
                }
                &&& relative_to(viewport_of(*old(core)), event).0 ==> exists|
                    c: &mut T,
                    k: &mut Core,
                    answered: EventResult,
                |
                    {
                        &&& *c == *old(content)
                        &&& *k == *old(core)
                        &&& #[trigger] call_ensures(
                            T::on_event,
                            (c, k, &relative_to(viewport_of(*old(core)), event).1),
                            answered,
                        )
                        &&& concluded(
                            (Panel {
                                core: *final(k),
                                content: *final(c),
                                gesture: *old(gesture),
                                drag: *old(drag),
                            }),
                            (Panel {
                                core: *final(core),
                                content: *final(content),
                                gesture: *final(gesture),
                                drag: *final(drag),
                            }),
                            event,
                            *keys,
                            now,
                            answered,
                            result,
                        )
                        &&& answered is Ignored && told(
                            (Panel {
                                core: *final(k),
                                content: *final(c),
                                gesture: *old(gesture),
                                drag: *old(drag),
                            }),
                            event,
                            *keys,
                            now,
                        ) ==> exists|d: &mut T|
                            *d == *final(c) && *final(d) == *final(content)
                                && #[trigger] call_ensures(T::on_scroll, (d, &*final(core)), ())
                    }
            },
{
    let at = now();
    assert(read_at(at));
    on_event_at(core, content, event, keys, gesture, drag, at)
}

/// Every rule that fires leaves the viewport set to keep its row, and an
/// event on which none fires leaves the viewport as it was.
pub proof fn lemma_fired_rule_keeps_row(
    v: Viewport,
    event: Event,
    keys: Keybindings,
    gesture: Debounce,
    drag: Drag,
    now: u128,
)
    ensures
        fires(v, event, keys, gesture, drag, now) ==> scrolled_by(
            v,
            event,
            keys,
            gesture,
            drag,
            now,
        ).strategy is KeepRow,
        !fires(v, event, keys, gesture, drag, now) ==> scrolled_by(
            v,
            event,
            keys,
            gesture,
            drag,
            now,
        ) == v,
{
}

/// A rule whose condition fails does not fire. Where the window cannot go
/// down, neither Page Down nor Ctrl-D nor the wheel moves the viewport or is
/// answered with `Consumed`, and likewise upwards with Page Up, Ctrl-U and
/// the wheel; unless the event is bound to a direction as well.
pub proof fn lemma_failed_guard_is_ignored<T>(
    before: Panel<T>,
    after: Panel<T>,
    event: Event,
    keys: Keybindings,
    now: u128,
    result: EventResult,
)
    requires
        ruled(before, after, event, keys, now, result),
        ({
            &&& !viewport_of(before.core).can_scroll_down()
            &&& event == Event::Key(Key::PageDown) || event == Event::CtrlChar('d') || (event
                is Mouse && event->event == MouseEvent::WheelDown)
        }) || ({
            &&& !viewport_of(before.core).can_scroll_up()
            &&& event == Event::Key(Key::PageUp) || event == Event::CtrlChar('u') || (event
                is Mouse && event->event == MouseEvent::WheelUp)
        }),
        event != keys.down && event != keys.up && event != keys.left && event != keys.right,
    ensures
        result is Ignored,
        viewport_of(after.core) == viewport_of(before.core),
        after.content == before.content,
        after.gesture == before.gesture,
        after.drag == before.drag,
{
}

/// The double press, for a lower-case g that the content left alone and that
/// is bound to no direction: after a press at `last` not later than `now`,
/// the viewport is at the top exactly if less than 300 ms have passed, and
/// where it was otherwise; the column stays; the time of this press is
/// stored in either case.
pub proof fn lemma_double_g_goes_to_top<T: ScrollContent>(
    before: Panel<T>,
    after: Panel<T>,
    keys: Keybindings,
    last: u128,
    now: u128,
    result: EventResult,
)
    requires
        concluded(before, after, Event::Char('g'), keys, now, EventResult::Ignored, result),
        viewport_of(before.core).measurable(),
        before.gesture.last_press == Some(last),
        last <= now,
        keys.down != Event::Char('g') && keys.up != Event::Char('g'),
        keys.left != Event::Char('g') && keys.right != Event::Char('g'),
    ensures
        after.gesture.last_press == Some(now),
        viewport_of(after.core).offset.x == viewport_of(before.core).offset.x,
        now - last < DOUBLE_PRESS_NANOS ==> viewport_of(after.core).offset.y == 0
            && result == EventResult::Consumed(None),
        now - last >= DOUBLE_PRESS_NANOS ==> viewport_of(after.core)
            == viewport_of(before.core) && result is Ignored,
{
}

/// The content comes first: after any answer but `Ignored`, no rule is
/// applied. The answer comes back as it is; the content, the double-press
/// state and the drag are untouched; and of the viewport nothing but the
/// offset has changed, which is where following the content's important
/// area puts it.
pub proof fn lemma_content_comes_first<T: ScrollContent>(
    before: Panel<T>,
    after: Panel<T>,
    event: Event,
    keys: Keybindings,
    now: u128,
    delegated: EventResult,
    result: EventResult,
)
    requires
        concluded(before, after, event, keys, now, delegated, result),
        delegated is Consumed,
    ensures
        result == delegated,
        after.content == before.content,
        after.gesture == before.gesture,
        after.drag == before.drag,
        viewport_of(after.core) == viewport_of(before.core).with_offset(
            viewport_of(after.core).offset,
        ),
        exists|area: Rect|
            call_ensures(
                T::important_area,
                (&before.content, &before.core, viewport_of(before.core).content),
                area,
            ) && viewport_of(after.core) == #[trigger] following(viewport_of(before.core), area),
{
}

/// Where the content used the event and every area that it may name as
/// important is shown in the window already, the viewport stays as it is.
pub proof fn lemma_shown_area_moves_nothing<T: ScrollContent>(
    before: Panel<T>,
    after: Panel<T>,
    event: Event,
    keys: Keybindings,
    now: u128,
    delegated: EventResult,
    result: EventResult,
)
    requires
        concluded(before, after, event, keys, now, delegated, result),
        delegated is Consumed,
        forall|area: Rect| #[trigger]
            call_ensures(
                T::important_area,
                (&before.content, &before.core, viewport_of(before.core).content),
                area,
            ) ==> area.wf() && viewport_of(before.core).shows(area),
    ensures
        viewport_of(after.core) == viewport_of(before.core),
        result == delegated,
{
    let area = choose|area: Rect|
        call_ensures(
            T::important_area,
            (&before.content, &before.core, viewport_of(before.core).content),
            area,
        ) && #[trigger] following(viewport_of(before.core), area) == viewport_of(after.core);
    lemma_scroll_to_shown_rect(viewport_of(before.core), area);
}

/// The part of `area` that a window shows whose first cell is `first` and
/// whose last cell is `last`, counted in the cells of the window: both
/// corners of the area less `first`, held within the window.
pub open spec fn shown_part(first: Vec2, last: Vec2, area: Rect) -> (Vec2, Vec2) {
    let extent = last.spec_saturating_sub(first);
    (
        area.spec_top_left().spec_saturating_sub(first).spec_or_min(extent),
        area.spec_bottom_right().spec_saturating_sub(first).spec_or_min(extent),
    )
}

/// The part of `area` that the window `viewport` shows, counted in the cells
/// of the window: it never reaches past the window's last cell. Both
/// rectangles are given in content cells.
pub fn visible_part(viewport: Rect, area: Rect) -> (part: Rect)
    ensures
        part.wf(),
        (part.spec_top_left(), part.spec_bottom_right()) == shown_part(
            viewport.spec_top_left(),
            viewport.spec_bottom_right(),
            area,
        ),
        part.spec_bottom_right().x <= viewport.spec_bottom_right().x - viewport.spec_top_left().x,
        part.spec_bottom_right().y <= viewport.spec_bottom_right().y - viewport.spec_top_left().y,
{
    let first = viewport.top_left();
    let extent = viewport.bottom_right().saturating_sub(first);
    let near = area.top_left().saturating_sub(first).or_min(extent);
    let far = area.bottom_right().saturating_sub(first).or_min(extent);
    Rect::from_corners(near, far)
}

/// What [`important_area`] returns: the visible part of an area that the
/// content names as important for `size`, within the window.
pub open spec fn is_important_part<T: ScrollContent>(
    core: Core,
    content: T,
    size: Vec2,
    part: Rect,
) -> bool {
    &&& part.wf()
    &&& part.spec_bottom_right().x <= sat_sub_one(viewport_of(core).available.x)
    &&& part.spec_bottom_right().y <= sat_sub_one(viewport_of(core).available.y)
    &&& exists|area: Rect|
        {
            &&& call_ensures(T::important_area, (&content, &core, size), area)
            &&& (part.spec_top_left(), part.spec_bottom_right()) == #[trigger] shown_part(
                viewport_of(core).offset,
                Vec2 {
                    x: viewport_of(core).last_visible().0 as usize,
                    y: viewport_of(core).last_visible().1 as usize,
                },
                area,
            )
        }
}

/// One less than `n`, and zero for zero.
pub open spec fn sat_sub_one(n: usize) -> int {
    if n >= 1 {
        n - 1
    } else {
        0
    }
}

/// The important area of a scrolling panel, for the view around it: the
/// visible part of an area that the content names as important for `size`.
pub fn important_area<T: ScrollContent>(core: &Core, content: &T, size: Vec2) -> (part: Rect)
    requires
        viewport_of(*core).last_visible().0 <= usize::MAX,
        viewport_of(*core).last_visible().1 <= usize::MAX,
    ensures
        is_important_part(*core, *content, size, part),
{
    let viewport = content_viewport(core);
    let area = content.important_area(core, size);
    let part = visible_part(viewport, area);
    assert((part.spec_top_left(), part.spec_bottom_right()) == shown_part(
        viewport_of(*core).offset,
        Vec2 {
            x: viewport_of(*core).last_visible().0 as usize,
            y: viewport_of(*core).last_visible().1 as usize,
        },
        area,
    ));
    part
}

/// The important area of a scrolling panel, where the last cell of its
/// window can be addressed; `None`, with the content not asked, where that
/// cell lies beyond the largest `usize`.
pub fn try_important_area<T: ScrollContent>(
    core: &Core,
    content: &T,
    size: Vec2,
) -> (part: Option<Rect>)
    ensures
        part is Some <==> viewport_of(*core).last_visible().0 <= usize::MAX && viewport_of(
            *core,
        ).last_visible().1 <= usize::MAX,
        part is Some ==> is_important_part(*core, *content, size, part->0),
{
    let at = offset(core);
    let extent = available_size(core).saturating_sub(Vec2::new(1, 1));
    if extent.x <= usize::MAX - at.x && extent.y <= usize::MAX - at.y {
        Some(important_area(core, content, size))
    } else {
        None
    }
}

} // verus!
