//! The state of a scrolling viewport as a plain value, and what each scroll
//! operation does to it.
//!
//! A viewport shows a window of `available` cells onto a content of `content`
//! cells; `offset` is the content cell shown in the window's top-left corner.

use crate::geometry::{lower, sat_sub, upper, Rect, Vec2};
use vstd::prelude::*;

verus! {

/// One of the two directions in which a viewport scrolls.
pub enum Axis {
    Horizontal,
    Vertical,
}

/// A scrollbar thumb held by the mouse.
pub struct Grab {
    /// The scrollbar the thumb belongs to.
    pub axis: Axis,
    /// The cell of the thumb that is held, counted from the thumb's start.
    pub at: usize,
}

/// Where the viewport goes when the content or the window changes its size.
#[derive(Clone, Copy, Debug, PartialEq, Eq, Structural)]
pub enum Strategy {
    /// It keeps showing the same row.
    KeepRow,
    /// It stays at the top.
    StickToTop,
    /// It stays at the bottom.
    StickToBottom,
}

/// Everything scrolling reads or changes of a viewport.
pub struct Viewport {
    /// The content cell in the window's top-left corner.
    pub offset: Vec2,
    /// The size of the content.
    pub content: Vec2,
    /// The size of the window, scrollbars excluded.
    pub available: Vec2,
    /// Whether the viewport may scroll horizontally.
    pub enabled_x: bool,
    /// Whether the viewport may scroll vertically.
    pub enabled_y: bool,
    /// Whether scrollbars are shown where the content does not fit.
    pub show_scrollbars: bool,
    /// The gap between the window and each scrollbar.
    pub padding: Vec2,
    /// The thumb that the mouse holds, if it holds one.
    pub grab: Option<Grab>,
    /// What happens to the offset on a change of size.
    pub strategy: Strategy,
}

impl Viewport {
    /// The same viewport at another offset.
    pub open spec fn with_offset(self, offset: Vec2) -> Viewport {
        Viewport {
            offset,
            content: self.content,
            available: self.available,
            enabled_x: self.enabled_x,
            enabled_y: self.enabled_y,
            show_scrollbars: self.show_scrollbars,
            padding: self.padding,
            grab: self.grab,
            strategy: self.strategy,
        }
    }

    /// The same viewport holding `grab`.
    pub open spec fn with_grab(self, grab: Option<Grab>) -> Viewport {
        Viewport {
            offset: self.offset,
            content: self.content,
            available: self.available,
            enabled_x: self.enabled_x,
            enabled_y: self.enabled_y,
            show_scrollbars: self.show_scrollbars,
            padding: self.padding,
            grab,
            strategy: self.strategy,
        }
    }

    /// The same viewport following `strategy`.
    pub open spec fn with_strategy(self, strategy: Strategy) -> Viewport {
        Viewport {
            offset: self.offset,
            content: self.content,
            available: self.available,
            enabled_x: self.enabled_x,
            enabled_y: self.enabled_y,
            show_scrollbars: self.show_scrollbars,
            padding: self.padding,
            grab: self.grab,
            strategy,
        }
    }

    /// The largest offset at which the window still lies inside the content:
    /// zero on an axis where the content fits the window.
    pub open spec fn max_offset(self) -> Vec2 {
        self.content.spec_saturating_sub(self.available)
    }

    /// The window does not reach beyond the content.
    pub open spec fn in_bounds(self) -> bool {
        self.offset.spec_fits_in(self.max_offset())
    }

    /// The viewport scrolls horizontally: it may, and the content is wider
    /// than the window.
    pub open spec fn scrolls_x(self) -> bool {
        self.enabled_x && self.content.x > self.available.x
    }

    /// The viewport scrolls vertically: it may, and the content is taller
    /// than the window.
    pub open spec fn scrolls_y(self) -> bool {
        self.enabled_y && self.content.y > self.available.y
    }

    /// The viewport scrolls on either axis.
    pub open spec fn any_enabled(self) -> bool {
        self.scrolls_x() || self.scrolls_y()
    }

    /// The far edge of the window can be told on both axes: offset plus
    /// window size is still a `usize`.
    pub open spec fn measurable(self) -> bool {
        &&& self.offset.x + self.available.x <= usize::MAX
        &&& self.offset.y + self.available.y <= usize::MAX
    }

    /// The last content cell that the window shows: its bottom-right corner.
    /// A window without cells on an axis counts as one cell there.
    pub open spec fn last_visible(self) -> (int, int) {
        (
            self.offset.x + sat_sub(self.available.x as int, 1),
            self.offset.y + sat_sub(self.available.y as int, 1),
        )
    }

    /// The number of rows the window shows, at least one.
    pub open spec fn rows(self) -> int {
        upper(self.available.y as int, 1)
    }

    /// Every cell of `area` is shown in the window.
    pub open spec fn shows(self, area: Rect) -> bool {
        &&& self.offset.spec_fits_in(area.spec_top_left())
        &&& area.spec_bottom_right().x <= self.last_visible().0
        &&& area.spec_bottom_right().y <= self.last_visible().1
    }

    /// The position `position`, given on the screen like the window's corner
    /// `corner`, lies in the window. The row and the column just past the
    /// window count as inside.
    pub open spec fn holds(self, corner: Vec2, position: Vec2) -> bool {
        &&& corner.spec_fits_in(position)
        &&& position.x - corner.x <= self.available.x
        &&& position.y - corner.y <= self.available.y
    }

    /// The window is not at the top, and may scroll vertically.
    pub open spec fn can_scroll_up(self) -> bool {
        self.enabled_y && self.offset.y > 0
    }

    /// The window is not at the left edge, and may scroll horizontally.
    pub open spec fn can_scroll_left(self) -> bool {
        self.enabled_x && self.offset.x > 0
    }

    /// Content lies below the window, which may scroll vertically.
    pub open spec fn can_scroll_down(self) -> bool {
        self.enabled_y && self.offset.y + self.available.y < self.content.y
    }

    /// Content lies right of the window, which may scroll horizontally.
    pub open spec fn can_scroll_right(self) -> bool {
        self.enabled_x && self.offset.x + self.available.x < self.content.x
    }

    /// The viewport `n` rows further up, stopping at the top.
    pub open spec fn scrolled_up(self, n: int) -> Viewport {
        self.with_offset(Vec2 { x: self.offset.x, y: sat_sub(self.offset.y as int, n) as usize })
    }

    /// The viewport `n` columns further left, stopping at the left edge.
    pub open spec fn scrolled_left(self, n: int) -> Viewport {
        self.with_offset(Vec2 { x: sat_sub(self.offset.x as int, n) as usize, y: self.offset.y })
    }

    /// The viewport `n` rows further down, stopping at the largest offset.
    pub open spec fn scrolled_down(self, n: int) -> Viewport {
        self.with_offset(
            Vec2 {
                x: self.offset.x,
                y: lower(self.max_offset().y as int, self.offset.y + n) as usize,
            },
        )
    }

    /// The viewport `n` columns further right, stopping at the largest offset.
    pub open spec fn scrolled_right(self, n: int) -> Viewport {
        self.with_offset(
            Vec2 {
                x: lower(self.max_offset().x as int, self.offset.x + n) as usize,
                y: self.offset.y,
            },
        )
    }

    /// The viewport at the top of the content.
    pub open spec fn scrolled_to_top(self) -> Viewport {
        self.with_offset(Vec2 { x: self.offset.x, y: 0 })
    }

    /// The viewport at the bottom of the content.
    pub open spec fn scrolled_to_bottom(self) -> Viewport {
        self.with_offset(Vec2 { x: self.offset.x, y: self.max_offset().y })
    }

    /// The viewport at the left edge of the content.
    pub open spec fn scrolled_to_left(self) -> Viewport {
        self.with_offset(Vec2 { x: 0, y: self.offset.y })
    }

    /// The viewport at the right edge of the content.
    pub open spec fn scrolled_to_right(self) -> Viewport {
        self.with_offset(Vec2 { x: self.max_offset().x, y: self.offset.y })
    }

    /// The viewport moved as little as possible so that it shows `area`. Where
    /// `area` is larger than the window, the window stays between the offset
    /// that shows the area's start and the one that shows its end.
    pub open spec fn scrolled_to_rect(self, area: Rect) -> Viewport {
        self.with_offset(
            Vec2 {
                x: nearest(
                    self.offset.x as int,
                    area.spec_top_left().x as int,
                    area.spec_bottom_right().x as int,
                    self.available.x as int,
                ) as usize,
                y: nearest(
                    self.offset.y as int,
                    area.spec_top_left().y as int,
                    area.spec_bottom_right().y as int,
                    self.available.y as int,
                ) as usize,
            },
        )
    }

    /// The viewport with the thumb let go.
    pub open spec fn released(self) -> Viewport {
        self.with_grab(None)
    }

    /// The viewport set to follow `strategy`, which takes effect at once: a
    /// viewport that sticks to an edge goes there.
    pub open spec fn following_strategy(self, strategy: Strategy) -> Viewport {
        match strategy {
            Strategy::KeepRow => self.with_strategy(strategy),
            Strategy::StickToTop => self.with_strategy(strategy).scrolled_to_top(),
            Strategy::StickToBottom => self.with_strategy(strategy).scrolled_to_bottom(),
        }
    }

    /// The viewport set to keep its row on a change of size.
    pub open spec fn keeping_row(self) -> Viewport {
        self.following_strategy(Strategy::KeepRow)
    }

    /// No size, offset or padding is larger than `bound`.
    pub open spec fn within(self, bound: int) -> bool {
        &&& self.offset.x <= bound && self.offset.y <= bound
        &&& self.content.x <= bound && self.content.y <= bound
        &&& self.available.x <= bound && self.available.y <= bound
        &&& self.padding.x <= bound && self.padding.y <= bound
    }

    /// The viewport after `k` scrolls down by `n` rows each.
    pub open spec fn scrolled_down_times(self, n: nat, k: nat) -> Viewport
        decreases k,
    {
        if k == 0 {
            self
        } else {
            self.scrolled_down_times(n, (k - 1) as nat).scrolled_down(n as int)
        }
    }
}

/// The largest size or coordinate that the arithmetic of the scrollbar thumb
/// takes without overflow: the largest number whose square, plus twice the
/// number, is still a `usize`.
pub open spec fn spec_extent_limit() -> usize {
    if usize::BITS == 64 {
        0xFFFF_FFFF
    } else {
        0xFFFF
    }
}

/// The largest size or coordinate that the arithmetic of the scrollbar thumb
/// takes without overflow.
#[verifier::when_used_as_spec(spec_extent_limit)]
pub fn extent_limit() -> (limit: usize)
    ensures
        limit == spec_extent_limit(),
        (limit + 1) * (limit + 1) <= usize::MAX + 1,
{
    if usize::BITS == 64 {
        assert(0x1_0000_0000int * 0x1_0000_0000int == 0x1_0000_0000_0000_0000int);
        0xFFFF_FFFF
    } else {
        0xFFFF
    }
}

/// On one axis, the offset nearest to `offset` at which a window of
/// `available` cells shows the cells `first` to `last`: no further than
/// `first`, and far enough to show `last`. Where the window is too small for
/// both, the two bounds swap and the offset stays between them.
pub open spec fn nearest(offset: int, first: int, last: int, available: int) -> int {
    let reach = sat_sub(last + 1, available);
    lower(upper(offset, lower(reach, first)), upper(reach, first))
}

/// Repeated scrolling down stops at the bottom. After at least one scroll the
/// offset is the start offset plus `k * n` rows, held at the largest offset;
/// so it never exceeds the largest offset, reaches it as soon as the rows
/// scrolled cover the distance, and stays there. Where the window is no
/// taller than the content, the largest offset is the content's height less
/// the window's. Nothing but the row offset changes.
pub proof fn lemma_scroll_down_clamps(v: Viewport, n: nat, k: nat)
    ensures
        v.available.y <= v.content.y ==> v.max_offset().y == v.content.y - v.available.y,
        v.scrolled_down_times(n, k) == v.with_offset(
            Vec2 { x: v.offset.x, y: v.scrolled_down_times(n, k).offset.y },
        ),
        k >= 1 ==> v.scrolled_down_times(n, k).offset.y == lower(
            v.max_offset().y as int,
            v.offset.y + k * n,
        ),
        k >= 1 ==> v.scrolled_down_times(n, k).offset.y <= v.max_offset().y,
        k >= 1 && v.offset.y + k * n >= v.max_offset().y ==> v.scrolled_down_times(n, k).offset.y
            == v.max_offset().y,
        n >= 1 && k >= 1 && k >= v.max_offset().y ==> v.scrolled_down_times(n, k).offset.y
            == v.max_offset().y,
        v.in_bounds() ==> v.scrolled_down_times(n, k).in_bounds(),
    decreases k,
{
    if k > 0 {
        let before = v.scrolled_down_times(n, (k - 1) as nat);
        lemma_scroll_down_clamps(v, n, (k - 1) as nat);
        assert(before.max_offset() == v.max_offset());
        assert(k * n == (k - 1) * n + n) by (nonlinear_arith);
        assert(n >= 1 ==> k * n >= k) by (nonlinear_arith)
            requires
                k >= 1,
        ;
    }
}

/// At the bottom, scrolling down changes nothing.
pub proof fn lemma_bottom_is_final(v: Viewport, n: nat)
    ensures
        v.scrolled_to_bottom().scrolled_down(n as int) == v.scrolled_to_bottom(),
        !v.scrolled_to_bottom().can_scroll_down(),
{
}

/// Each edge is final: scrolling further towards an edge the viewport is
/// already at, by any amount, changes nothing.
pub proof fn lemma_edges_are_final(v: Viewport, n: nat)
    ensures
        v.offset.y == 0 ==> v.scrolled_up(n as int) == v,
        v.offset.x == 0 ==> v.scrolled_left(n as int) == v,
        v.offset.y == v.max_offset().y ==> v.scrolled_down(n as int) == v,
        v.offset.x == v.max_offset().x ==> v.scrolled_right(n as int) == v,
        v.scrolled_to_top().scrolled_up(n as int) == v.scrolled_to_top(),
        v.scrolled_to_left().scrolled_left(n as int) == v.scrolled_to_left(),
        v.scrolled_to_right().scrolled_right(n as int) == v.scrolled_to_right(),
{
}

/// Scrolling never moves the window out of the content: a viewport within
/// its bounds is within them after any directional scroll and any jump to
/// an edge.
pub proof fn lemma_scrolling_stays_in_bounds(v: Viewport, n: nat)
    requires
        v.in_bounds(),
    ensures
        v.scrolled_up(n as int).in_bounds(),
        v.scrolled_down(n as int).in_bounds(),
        v.scrolled_left(n as int).in_bounds(),
        v.scrolled_right(n as int).in_bounds(),
        v.scrolled_to_top().in_bounds(),
        v.scrolled_to_bottom().in_bounds(),
        v.scrolled_to_left().in_bounds(),
        v.scrolled_to_right().in_bounds(),
{
}

/// Scrolling to an area that the window already shows changes nothing.
pub proof fn lemma_scroll_to_shown_rect(v: Viewport, area: Rect)
    requires
        area.wf(),
        v.shows(area),
    ensures
        v.scrolled_to_rect(area) == v,
{
}

/// Scrolling to an area of the content never moves the window out of the
/// content.
pub proof fn lemma_scroll_to_rect_stays_in_bounds(v: Viewport, area: Rect)
    requires
        area.wf(),
        v.in_bounds(),
        area.spec_bottom_right().x < v.content.x,
        area.spec_bottom_right().y < v.content.y,
    ensures
        v.scrolled_to_rect(area).in_bounds(),
{
}

/// After scrolling to an area that fits the window, the window shows it.
pub proof fn lemma_scroll_to_rect_shows(v: Viewport, area: Rect)
    requires
        area.wf(),
        area.spec_width() <= v.available.x,
        area.spec_height() <= v.available.y,
    ensures
        v.scrolled_to_rect(area).shows(area),
{
}

} // verus!
