//! Points, sizes and rectangles on the character grid.

use vstd::prelude::*;

verus! {

/// The difference `a - b`, or zero where `b` is the larger.
pub open spec fn sat_sub(a: int, b: int) -> int {
    if a >= b {
        a - b
    } else {
        0
    }
}

/// The smaller of two integers.
pub open spec fn lower(a: int, b: int) -> int {
    if a <= b {
        a
    } else {
        b
    }
}

/// The larger of two integers.
pub open spec fn upper(a: int, b: int) -> int {
    if a >= b {
        a
    } else {
        b
    }
}

/// A position or a size in cells: `x` counts columns, `y` counts rows.
#[derive(Clone, Copy, Debug, PartialEq, Eq, Structural)]
pub struct Vec2 {
    pub x: usize,
    pub y: usize,
}

impl Vec2 {
    /// The vector with the given column and row.
    pub fn new(x: usize, y: usize) -> (v: Vec2)
        ensures
            v.x == x,
            v.y == y,
    {
        Vec2 { x, y }
    }

    /// The origin.
    pub fn zero() -> (v: Vec2)
        ensures
            v.x == 0,
            v.y == 0,
    {
        Vec2 { x: 0, y: 0 }
    }

    /// `self` is no larger than `other` on either axis.
    pub open spec fn spec_fits_in(self, other: Vec2) -> bool {
        self.x <= other.x && self.y <= other.y
    }

    /// Whether `self` is no larger than `other` on either axis.
    #[verifier::when_used_as_spec(spec_fits_in)]
    pub fn fits_in(self, other: Vec2) -> (r: bool)
        ensures
            r == self.spec_fits_in(other),
    {
        self.x <= other.x && self.y <= other.y
    }

    /// Axis by axis, `self - other` held at zero.
    pub open spec fn spec_saturating_sub(self, other: Vec2) -> Vec2 {
        Vec2 {
            x: sat_sub(self.x as int, other.x as int) as usize,
            y: sat_sub(self.y as int, other.y as int) as usize,
        }
    }

    /// Subtracts axis by axis, stopping at zero.
    #[verifier::when_used_as_spec(spec_saturating_sub)]
    pub fn saturating_sub(self, other: Vec2) -> (r: Vec2)
        ensures
            r == self.spec_saturating_sub(other),
            r.x == sat_sub(self.x as int, other.x as int),
            r.y == sat_sub(self.y as int, other.y as int),
    {
        let x: usize = if self.x >= other.x {
            self.x - other.x
        } else {
            0
        };
        let y: usize = if self.y >= other.y {
            self.y - other.y
        } else {
            0
        };
        Vec2 { x, y }
    }

    /// `self - other` where `other` fits in `self`, and nothing otherwise.
    pub open spec fn spec_checked_sub(self, other: Vec2) -> Option<Vec2> {
        if other.spec_fits_in(self) {
            Some(self.spec_saturating_sub(other))
        } else {
            None
        }
    }

    /// Subtracts axis by axis; `None` where either axis would fall below zero.
    #[verifier::when_used_as_spec(spec_checked_sub)]
    pub fn checked_sub(self, other: Vec2) -> (r: Option<Vec2>)
        ensures
            r == self.spec_checked_sub(other),
            r is Some <==> other.x <= self.x && other.y <= self.y,
            r is Some ==> r->0.x == self.x - other.x && r->0.y == self.y - other.y,
    {
        if other.x <= self.x && other.y <= self.y {
            Some(Vec2 { x: self.x - other.x, y: self.y - other.y })
        } else {
            None
        }
    }

    /// Axis by axis, the smaller of the two.
    pub open spec fn spec_or_min(self, other: Vec2) -> Vec2 {
        Vec2 {
            x: lower(self.x as int, other.x as int) as usize,
            y: lower(self.y as int, other.y as int) as usize,
        }
    }

    /// Takes the smaller value on each axis.
    #[verifier::when_used_as_spec(spec_or_min)]
    pub fn or_min(self, other: Vec2) -> (r: Vec2)
        ensures
            r == self.spec_or_min(other),
            r.x == lower(self.x as int, other.x as int),
            r.y == lower(self.y as int, other.y as int),
    {
        let x: usize = if self.x <= other.x {
            self.x
        } else {
            other.x
        };
        let y: usize = if self.y <= other.y {
            self.y
        } else {
            other.y
        };
        Vec2 { x, y }
    }

    /// Axis by axis, the larger of the two.
    pub open spec fn spec_or_max(self, other: Vec2) -> Vec2 {
        Vec2 {
            x: upper(self.x as int, other.x as int) as usize,
            y: upper(self.y as int, other.y as int) as usize,
        }
    }

    /// Takes the larger value on each axis.
    #[verifier::when_used_as_spec(spec_or_max)]
    pub fn or_max(self, other: Vec2) -> (r: Vec2)
        ensures
            r == self.spec_or_max(other),
            r.x == upper(self.x as int, other.x as int),
            r.y == upper(self.y as int, other.y as int),
    {
        let x: usize = if self.x >= other.x {
            self.x
        } else {
            other.x
        };
        let y: usize = if self.y >= other.y {
            self.y
        } else {
            other.y
        };
        Vec2 { x, y }
    }
}

/// A rectangle of at least one cell, held by its two inclusive corners.
#[derive(Clone, Copy, Debug, PartialEq, Eq, Structural)]
pub struct Rect {
    pub(crate) top_left: Vec2,
    pub(crate) bottom_right: Vec2,
}

impl Rect {
    #[verifier::type_invariant]
    spec fn ordered(self) -> bool {
        self.top_left.x <= self.bottom_right.x && self.top_left.y <= self.bottom_right.y
    }

    /// The corner with the smallest column and row, inclusive.
    pub closed spec fn spec_top_left(self) -> Vec2 {
        self.top_left
    }

    /// The corner with the largest column and row, inclusive.
    pub closed spec fn spec_bottom_right(self) -> Vec2 {
        self.bottom_right
    }

    /// The top-left corner lies above and left of the bottom-right one. Every
    /// rectangle built by this module is well formed.
    pub open spec fn wf(self) -> bool {
        self.spec_top_left().spec_fits_in(self.spec_bottom_right())
    }

    /// The rectangle spanned by two opposite corners, whichever they are.
    pub fn from_corners(a: Vec2, b: Vec2) -> (r: Rect)
        ensures
            r.wf(),
            r.spec_top_left() == a.spec_or_min(b),
            r.spec_bottom_right() == a.spec_or_max(b),
    {
        Rect { top_left: a.or_min(b), bottom_right: a.or_max(b) }
    }

    /// The rectangle of the given size whose top-left corner is `top_left`.
    /// A size of zero on an axis counts as one cell.
    pub fn from_size(top_left: Vec2, size: Vec2) -> (r: Rect)
        requires
            top_left.x + sat_sub(size.x as int, 1) <= usize::MAX,
            top_left.y + sat_sub(size.y as int, 1) <= usize::MAX,
        ensures
            r.wf(),
            r.spec_top_left() == top_left,
            r.spec_bottom_right().x == top_left.x + sat_sub(size.x as int, 1),
            r.spec_bottom_right().y == top_left.y + sat_sub(size.y as int, 1),
    {
        let extent = size.saturating_sub(Vec2 { x: 1, y: 1 });
        Rect {
            top_left,
            bottom_right: Vec2 { x: top_left.x + extent.x, y: top_left.y + extent.y },
        }
    }

    /// The top-left corner, inclusive.
    #[verifier::when_used_as_spec(spec_top_left)]
    pub fn top_left(self) -> (v: Vec2)
        ensures
            v == self.spec_top_left(),
            self.wf(),
    {
        proof {
            use_type_invariant(&self);
        }
        self.top_left
    }

    /// The bottom-right corner, inclusive.
    #[verifier::when_used_as_spec(spec_bottom_right)]
    pub fn bottom_right(self) -> (v: Vec2)
        ensures
            v == self.spec_bottom_right(),
            self.wf(),
    {
        proof {
            use_type_invariant(&self);
        }
        self.bottom_right
    }

    /// The number of columns covered.
    pub open spec fn spec_width(self) -> int {
        self.spec_bottom_right().x - self.spec_top_left().x + 1
    }

    /// The number of rows covered.
    pub open spec fn spec_height(self) -> int {
        self.spec_bottom_right().y - self.spec_top_left().y + 1
    }

    /// The number of columns covered.
    pub fn width(self) -> (w: usize)
        requires
            self.spec_width() <= usize::MAX,
        ensures
            w == self.spec_width(),
            w >= 1,
    {
        proof {
            use_type_invariant(&self);
        }
        self.bottom_right.x - self.top_left.x + 1
    }

    /// The number of rows covered.
    pub fn height(self) -> (h: usize)
        requires
            self.spec_height() <= usize::MAX,
        ensures
            h == self.spec_height(),
            h >= 1,
    {
        proof {
            use_type_invariant(&self);
        }
        self.bottom_right.y - self.top_left.y + 1
    }
}

} // verus!
