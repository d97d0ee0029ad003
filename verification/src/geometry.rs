//! Points, sizes and rectangles on an integer grid.
//!
//! The dropdown's origin is the top-left corner of its button; `x` grows to
//! the right and `y` grows downward. The host picks the grid's step, fine
//! enough that every size it measures is a whole number of steps. Pointer
//! positions are 32-bit, sizes are unsigned 32-bit, and everything derived
//! from them is 64-bit, so that no sum or difference of the two can leave
//! the range.

use vstd::prelude::*;

verus! {

/// A pointer position in the dropdown's coordinates.
#[derive(Clone, Copy, Debug, PartialEq, Eq, Structural)]
pub struct Point {
    pub x: i32,
    pub y: i32,
}

/// A position in the panel's coordinates, whose origin is the panel's own
/// top-left corner.
#[derive(Clone, Copy, Debug, PartialEq, Eq, Structural)]
pub struct LocalPoint {
    pub x: i64,
    pub y: i64,
}

/// The measured extent of a part of the control.
#[derive(Clone, Copy, Debug, PartialEq, Eq, Structural)]
pub struct Size {
    pub width: u32,
    pub height: u32,
}

impl Size {
    /// The size of a part that takes no room.
    pub open spec fn spec_zero() -> Size {
        Size { width: 0, height: 0 }
    }

    /// The size of a part that takes no room.
    #[verifier::when_used_as_spec(spec_zero)]
    pub fn zero() -> (s: Size)
        ensures
            s == Size::spec_zero(),
    {
        Size { width: 0, height: 0 }
    }

    /// Whether `p` lies in the box of this size whose top-left corner is the
    /// origin, all four edges included.
    pub open spec fn spec_covers(self, p: Point) -> bool {
        0 <= p.x <= self.width && 0 <= p.y <= self.height
    }

    /// Whether `p` lies in the box of this size whose top-left corner is the
    /// origin.
    #[verifier::when_used_as_spec(spec_covers)]
    pub fn covers(self, p: Point) -> (hit: bool)
        ensures
            hit == self.spec_covers(p),
    {
        0 <= p.x && p.x as i64 <= self.width as i64 && 0 <= p.y && p.y as i64 <= self.height as i64
    }

    /// Whether `q` lies in the box of this size whose top-left corner is the
    /// origin, all four edges included.
    pub open spec fn spec_contains(self, q: LocalPoint) -> bool {
        0 <= q.x <= self.width && 0 <= q.y <= self.height
    }

    /// Whether `q` lies in the box of this size whose top-left corner is the
    /// origin.
    #[verifier::when_used_as_spec(spec_contains)]
    pub fn contains(self, q: LocalPoint) -> (hit: bool)
        ensures
            hit == self.spec_contains(q),
    {
        0 <= q.x && q.x <= self.width as i64 && 0 <= q.y && q.y <= self.height as i64
    }
}

impl Point {
    /// The same position seen from a panel that hangs `drop` below the
    /// dropdown's origin: `x` is kept and `y` loses `drop`.
    pub open spec fn spec_below(self, drop: u32) -> LocalPoint {
        LocalPoint { x: self.x as i64, y: (self.y - drop) as i64 }
    }

    /// The same position seen from a panel that hangs `drop` below the
    /// dropdown's origin.
    #[verifier::when_used_as_spec(spec_below)]
    pub fn below(self, drop: u32) -> (q: LocalPoint)
        ensures
            q == self.spec_below(drop),
            q.x == self.x,
            q.y == self.y - drop,
    {
        LocalPoint { x: self.x as i64, y: self.y as i64 - drop as i64 }
    }
}

/// A rectangle from its top-left corner `(x0, y0)` to its bottom-right corner
/// `(x1, y1)`. Nothing forbids `x1 < x0` or `y1 < y0`.
#[derive(Clone, Copy, Debug, PartialEq, Eq, Structural)]
pub struct Rect {
    pub x0: i64,
    pub y0: i64,
    pub x1: i64,
    pub y1: i64,
}

impl Rect {
    /// Width times height, negative where exactly one of them is.
    pub open spec fn area(self) -> int {
        (self.x1 - self.x0) * (self.y1 - self.y0)
    }

    /// Whether the area is positive.
    pub open spec fn spec_has_area(self) -> bool {
        self.area() > 0
    }

    /// Whether the area is positive.
    #[verifier::when_used_as_spec(spec_has_area)]
    pub fn has_area(self) -> (r: bool)
        ensures
            r == self.spec_has_area(),
    {
        proof {
            lemma_area_sign(self.x1 - self.x0, self.y1 - self.y0);
        }
        (self.x1 > self.x0 && self.y1 > self.y0) || (self.x1 < self.x0 && self.y1 < self.y0)
    }

    /// The part of `self` inside `other`: the larger of the two near edges
    /// and the smaller of the two far edges, the far edge pulled up to the
    /// near one where they would cross. Where the two do not overlap the
    /// result has no area, and its width and height are never negative.
    pub open spec fn spec_intersect(self, other: Rect) -> Rect {
        let x0 = larger(self.x0, other.x0);
        let y0 = larger(self.y0, other.y0);
        Rect {
            x0,
            y0,
            x1: larger(smaller(self.x1, other.x1), x0),
            y1: larger(smaller(self.y1, other.y1), y0),
        }
    }

    /// The part of `self` inside `other`.
    #[verifier::when_used_as_spec(spec_intersect)]
    pub fn intersect(self, other: Rect) -> (r: Rect)
        ensures
            r == self.spec_intersect(other),
            r.x0 <= r.x1,
            r.y0 <= r.y1,
    {
        let x0 = larger(self.x0, other.x0);
        let y0 = larger(self.y0, other.y0);
        Rect {
            x0,
            y0,
            x1: larger(smaller(self.x1, other.x1), x0),
            y1: larger(smaller(self.y1, other.y1), y0),
        }
    }

    /// The rectangle moved up by `up`.
    pub open spec fn raised(self, up: u32) -> Rect {
        Rect { x0: self.x0, y0: (self.y0 - up) as i64, x1: self.x1, y1: (self.y1 - up) as i64 }
    }

    /// What is seen of this rectangle through `window` from a place `up`
    /// lower: the part inside `window`, moved up by `up`, if that part has
    /// any area.
    pub open spec fn seen_through(self, window: Rect, up: u32) -> Option<Rect> {
        let part = self.intersect(window);
        if part.has_area() {
            Some(part.raised(up))
        } else {
            None
        }
    }
}

impl Size {
    /// The rectangle of this size whose top-left corner is the origin.
    pub open spec fn spec_to_rect(self) -> Rect {
        Rect { x0: 0, y0: 0, x1: self.width as i64, y1: self.height as i64 }
    }

    /// The rectangle of this size whose top-left corner is the origin.
    #[verifier::when_used_as_spec(spec_to_rect)]
    pub fn to_rect(self) -> (r: Rect)
        ensures
            r == self.spec_to_rect(),
    {
        Rect { x0: 0, y0: 0, x1: self.width as i64, y1: self.height as i64 }
    }
}

/// The larger of two coordinates.
pub open spec fn spec_larger(a: i64, b: i64) -> i64 {
    if a >= b {
        a
    } else {
        b
    }
}

/// The larger of two coordinates.
#[verifier::when_used_as_spec(spec_larger)]
pub fn larger(a: i64, b: i64) -> (m: i64)
    ensures
        m == spec_larger(a, b),
{
    if a >= b {
        a
    } else {
        b
    }
}

/// The smaller of two coordinates.
pub open spec fn spec_smaller(a: i64, b: i64) -> i64 {
    if a <= b {
        a
    } else {
        b
    }
}

/// The smaller of two coordinates.
#[verifier::when_used_as_spec(spec_smaller)]
pub fn smaller(a: i64, b: i64) -> (m: i64)
    ensures
        m == spec_smaller(a, b),
{
    if a <= b {
        a
    } else {
        b
    }
}

/// A product is positive exactly when both factors are positive or both are
/// negative.
pub proof fn lemma_area_sign(w: int, h: int)
    ensures
        w * h > 0 <==> (w > 0 && h > 0) || (w < 0 && h < 0),
{
    assert(w * h > 0 <==> (w > 0 && h > 0) || (w < 0 && h < 0)) by (nonlinear_arith);
}

} // verus!
