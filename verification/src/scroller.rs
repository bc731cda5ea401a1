//! The scroll core of `cursive`, which keeps each panel's viewport, and the
//! statements about its methods that the rest of the library builds on.
//!
//! Nothing in this file is proved. Each item states what one method of
//! `cursive::view::scroll::Core` does to the viewport, as the source of
//! `cursive_core` 0.3.7 (`view/scroll/core.rs`) has it. Methods that take and
//! return nothing but the core, numbers and truth values are specified in
//! place and called as they are; the others are called through a function
//! that changes between the points and rectangles of `cursive` and the
//! library's own.

use crate::geometry::{Rect, Vec2};
use crate::viewport::{spec_extent_limit, Strategy, Viewport};
use cursive::view::scroll::Core;
use vstd::prelude::*;

verus! {

/// `cursive::view::scroll::Core`: the scroll state embedded in every
/// scrollable view.
#[verifier::external_type_specification]
#[verifier::external_body]
pub struct ExCore(Core);

/// The viewport that a scroll core holds: its offset, the size of the content
/// and of the window, the axes that may scroll, the scrollbar settings, the
/// thumb being dragged and the scroll strategy. The layout cache of the core
/// is no part of it.
pub uninterp spec fn viewport_of(core: Core) -> Viewport;

/// What `Core::start_drag` makes of a press at `position`, given relative to
/// the window: the viewport holding a thumb where the press lands on a
/// scrollbar of an axis that may scroll, and nothing where it does not.
pub uninterp spec fn grabbed(v: Viewport, position: Vec2) -> Option<Viewport>;

/// What `Core::drag` makes of the mouse moving to `position`, given relative
/// to the window, while the viewport holds a thumb.
pub uninterp spec fn dragged(v: Viewport, position: Vec2) -> Viewport;

/// `Core::can_scroll_up`: the window is not at the top, and the viewport may
/// scroll vertically.
pub assume_specification[ Core::can_scroll_up ](core: &Core) -> (can: bool)
    ensures
        can == viewport_of(*core).can_scroll_up(),
;

/// `Core::can_scroll_left`: the window is not at the left edge, and the
/// viewport may scroll horizontally.
pub assume_specification[ Core::can_scroll_left ](core: &Core) -> (can: bool)
    ensures
        can == viewport_of(*core).can_scroll_left(),
;

/// `Core::can_scroll_down`: content lies below the window, and the viewport
/// may scroll vertically. The core adds offset and window height in plain
/// arithmetic, so the sum must fit.
pub assume_specification[ Core::can_scroll_down ](core: &Core) -> (can: bool)
    requires
        viewport_of(*core).offset.y + viewport_of(*core).available.y <= usize::MAX,
    ensures
        can == viewport_of(*core).can_scroll_down(),
;

/// `Core::can_scroll_right`: content lies right of the window, and the
/// viewport may scroll horizontally. The core adds offset and window width in
/// plain arithmetic, so the sum must fit.
pub assume_specification[ Core::can_scroll_right ](core: &Core) -> (can: bool)
    requires
        viewport_of(*core).offset.x + viewport_of(*core).available.x <= usize::MAX,
    ensures
        can == viewport_of(*core).can_scroll_right(),
;

/// `Core::scroll_up`: `n` rows up, stopping at the top.
pub assume_specification[ Core::scroll_up ](core: &mut Core, n: usize)
    ensures
        viewport_of(*final(core)) == viewport_of(*old(core)).scrolled_up(n as int),
;

/// `Core::scroll_left`: `n` columns left, stopping at the left edge.
pub assume_specification[ Core::scroll_left ](core: &mut Core, n: usize)
    ensures
        viewport_of(*final(core)) == viewport_of(*old(core)).scrolled_left(n as int),
;

/// `Core::scroll_down`: `n` rows down, stopping at the largest offset. The
/// core adds `n` to the offset before it takes the smaller, so the sum must
/// fit.
pub assume_specification[ Core::scroll_down ](core: &mut Core, n: usize)
    requires
        viewport_of(*old(core)).offset.y + n <= usize::MAX,
    ensures
        viewport_of(*final(core)) == viewport_of(*old(core)).scrolled_down(n as int),
;

/// `Core::scroll_right`: `n` columns right, stopping at the largest offset.
/// The core adds `n` to the offset before it takes the smaller, so the sum
/// must fit.
pub assume_specification[ Core::scroll_right ](core: &mut Core, n: usize)
    requires
        viewport_of(*old(core)).offset.x + n <= usize::MAX,
    ensures
        viewport_of(*final(core)) == viewport_of(*old(core)).scrolled_right(n as int),
;

/// `Core::scroll_to_top`: to the top of the content.
pub assume_specification[ Core::scroll_to_top ](core: &mut Core)
    ensures
        viewport_of(*final(core)) == viewport_of(*old(core)).scrolled_to_top(),
;

/// `Core::scroll_to_bottom`: to the bottom of the content.
pub assume_specification[ Core::scroll_to_bottom ](core: &mut Core)
    ensures
        viewport_of(*final(core)) == viewport_of(*old(core)).scrolled_to_bottom(),
;

/// `Core::scroll_to_left`: to the left edge of the content.
pub assume_specification[ Core::scroll_to_left ](core: &mut Core)
    ensures
        viewport_of(*final(core)) == viewport_of(*old(core)).scrolled_to_left(),
;

/// `Core::scroll_to_right`: to the right edge of the content.
pub assume_specification[ Core::scroll_to_right ](core: &mut Core)
    ensures
        viewport_of(*final(core)) == viewport_of(*old(core)).scrolled_to_right(),
;

/// `Core::release_grab`: lets go of the thumb, whether one was held or not.
pub assume_specification[ Core::release_grab ](core: &mut Core)
    ensures
        viewport_of(*final(core)) == viewport_of(*old(core)).released(),
;

/// `Core::get_show_scrollbars`: whether scrollbars are shown where the
/// content does not fit.
pub assume_specification[ Core::get_show_scrollbars ](core: &Core) -> (shown: bool)
    ensures
        shown == viewport_of(*core).show_scrollbars,
;

/// `Core::is_event_inside`, on a mouse event at screen position `position`
/// for a view whose corner is at `corner`. Says whether the position lies in
/// the window (the row and column just past it included), and returns the
/// position moved by the viewport's offset, which is where the core leaves
/// it. The core adds in plain arithmetic, so the sum must fit.
#[verifier::external_body]
pub(crate) fn locate_mouse(core: &Core, corner: Vec2, position: Vec2) -> (r: (bool, Vec2))
    requires
        position.x + viewport_of(*core).offset.x <= usize::MAX,
        position.y + viewport_of(*core).offset.y <= usize::MAX,
    ensures
        r.0 == viewport_of(*core).holds(corner, position),
        r.1.x == position.x + viewport_of(*core).offset.x,
        r.1.y == position.y + viewport_of(*core).offset.y,
{
    let mut probe = cursive::event::Event::Mouse {
        offset: cursive::Vec2::new(corner.x, corner.y),
        position: cursive::Vec2::new(position.x, position.y),
        event: cursive::event::MouseEvent::WheelUp,
    };
    let inside = core.is_event_inside(&mut probe);
    match probe {
        cursive::event::Event::Mouse { position: moved, .. } => (
            inside,
            Vec2 { x: moved.x, y: moved.y },
        ),
        _ => (inside, position),
    }
}

/// `Core::last_available_size`: the size of the window.
#[verifier::external_body]
pub(crate) fn available_size(core: &Core) -> (size: Vec2)
    ensures
        size == viewport_of(*core).available,
{
    let size = core.last_available_size();
    Vec2 { x: size.x, y: size.y }
}

/// `Core::inner_size`: the size of the content.
#[verifier::external_body]
pub(crate) fn inner_size(core: &Core) -> (size: Vec2)
    ensures
        size == viewport_of(*core).content,
{
    let size = core.inner_size();
    Vec2 { x: size.x, y: size.y }
}

/// `Core::get_scrollbar_padding`: the gap between window and scrollbars.
#[verifier::external_body]
pub(crate) fn scrollbar_padding(core: &Core) -> (padding: Vec2)
    ensures
        padding == viewport_of(*core).padding,
{
    let padding = core.get_scrollbar_padding();
    Vec2 { x: padding.x, y: padding.y }
}

/// `Core::is_enabled`: whether the viewport may scroll horizontally, and
/// whether it may scroll vertically.
#[verifier::external_body]
pub(crate) fn is_enabled(core: &Core) -> (enabled: (bool, bool))
    ensures
        enabled.0 == viewport_of(*core).enabled_x,
        enabled.1 == viewport_of(*core).enabled_y,
{
    let enabled = core.is_enabled();
    (enabled.x, enabled.y)
}

/// `Core::content_viewport`: the part of the content that the window shows,
/// from the offset to the last visible cell. The core adds offset and size
/// in plain arithmetic, so the sum must fit.
#[verifier::external_body]
pub(crate) fn content_viewport(core: &Core) -> (shown: Rect)
    requires
        viewport_of(*core).last_visible().0 <= usize::MAX,
        viewport_of(*core).last_visible().1 <= usize::MAX,
    ensures
        shown.wf(),
        shown.spec_top_left() == viewport_of(*core).offset,
        shown.spec_bottom_right().x == viewport_of(*core).last_visible().0,
        shown.spec_bottom_right().y == viewport_of(*core).last_visible().1,
{
    let shown = core.content_viewport();
    Rect {
        top_left: Vec2 { x: shown.left(), y: shown.top() },
        bottom_right: Vec2 { x: shown.right(), y: shown.bottom() },
    }
}

/// `Core::scroll_to_rect`: moves the offset as little as possible so that the
/// window shows `area`. The core adds one to the area's last cell in plain
/// arithmetic, so that cell must not be the largest `usize`.
#[verifier::external_body]
pub(crate) fn scroll_to_rect(core: &mut Core, area: Rect)
    requires
        area.wf(),
        area.spec_bottom_right().x < usize::MAX,
        area.spec_bottom_right().y < usize::MAX,
    ensures
        viewport_of(*final(core)) == viewport_of(*old(core)).scrolled_to_rect(area),
{
    core.scroll_to_rect(
        cursive::Rect::from_corners(
            cursive::Vec2::new(area.top_left.x, area.top_left.y),
            cursive::Vec2::new(area.bottom_right.x, area.bottom_right.y),
        ),
    )
}

/// `Core::set_scroll_strategy`: the strategy is stored and applied at once,
/// which moves a viewport that sticks to the top or the bottom there and
/// leaves one that keeps its row where it is.
#[verifier::external_body]
pub(crate) fn set_scroll_strategy(core: &mut Core, strategy: Strategy)
    ensures
        viewport_of(*final(core)) == viewport_of(*old(core)).following_strategy(strategy),
{
    core.set_scroll_strategy(
        match strategy {
            Strategy::KeepRow => cursive::view::ScrollStrategy::KeepRow,
            Strategy::StickToTop => cursive::view::ScrollStrategy::StickToTop,
            Strategy::StickToBottom => cursive::view::ScrollStrategy::StickToBottom,
        },
    )
}

/// `Core::start_drag` at `position`, given relative to the window. Returns
/// whether the press took hold of a scrollbar. Where it did, the viewport
/// holds a thumb and may have moved along that scrollbar's axis, no further
/// than the largest offset; nothing else changed. Where it did not, nothing
/// changed at all. The core multiplies sizes by sizes and by offsets in plain
/// arithmetic: none of them may exceed the extent limit.
#[verifier::external_body]
pub(crate) fn start_drag(core: &mut Core, position: Vec2) -> (began: bool)
    requires
        viewport_of(*old(core)).within(spec_extent_limit() as int),
        position.x <= spec_extent_limit(),
        position.y <= spec_extent_limit(),
    ensures
        began == grabbed(viewport_of(*old(core)), position) is Some,
        began ==> viewport_of(*final(core)) == grabbed(viewport_of(*old(core)), position)->0,
        !began ==> viewport_of(*final(core)) == viewport_of(*old(core)),
        began ==> viewport_of(*final(core)).grab is Some,
        viewport_of(*final(core)) == viewport_of(*old(core)).with_offset(
            viewport_of(*final(core)).offset,
        ).with_grab(viewport_of(*final(core)).grab),
        moved_along_one_axis(viewport_of(*old(core)), viewport_of(*final(core))),
{
    core.start_drag(cursive::Vec2::new(position.x, position.y))
}

/// `Core::drag` to `position`, given relative to the window. Without a thumb
/// in hand nothing changes. With one, the offset along the thumb's axis
/// follows the mouse, no further than the largest offset, and nothing else
/// changes; the same position again leaves the viewport where it is. The
/// core multiplies sizes by positions in plain arithmetic: none of them may
/// exceed the extent limit.
#[verifier::external_body]
pub(crate) fn drag(core: &mut Core, position: Vec2)
    requires
        viewport_of(*old(core)).within(spec_extent_limit() as int),
        position.x <= spec_extent_limit(),
        position.y <= spec_extent_limit(),
    ensures
        viewport_of(*final(core)) == dragged(viewport_of(*old(core)), position),
        viewport_of(*old(core)).grab is None ==> viewport_of(*final(core)) == viewport_of(
            *old(core),
        ),
        viewport_of(*final(core)) == viewport_of(*old(core)).with_offset(
            viewport_of(*final(core)).offset,
        ),
        moved_along_one_axis(viewport_of(*old(core)), viewport_of(*final(core))),
        dragged(viewport_of(*final(core)), position) == viewport_of(*final(core)),
{
    core.drag(cursive::Vec2::new(position.x, position.y))
}

/// What a drag may do to the offset: it leaves the offset alone, or moves it
/// along the axis of the thumb that `after` holds to a place no further than
/// the largest offset.
pub open spec fn moved_along_one_axis(before: Viewport, after: Viewport) -> bool {
    ||| after.offset == before.offset
    ||| {
        &&& after.grab matches Some(grab)
        &&& grab.axis is Horizontal
        &&& after.offset.y == before.offset.y
        &&& after.offset.x <= before.max_offset().x
    }
    ||| {
        &&& after.grab matches Some(grab)
        &&& grab.axis is Vertical
        &&& after.offset.x == before.offset.x
        &&& after.offset.y <= before.max_offset().y
    }
}

} // verus!
