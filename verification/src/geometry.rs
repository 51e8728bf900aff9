//! Integer points, sizes and rectangles in logical compositor space.

use vstd::prelude::*;

verus! {

/// Smallest `i32`.
pub open spec fn i32_min() -> int {
    -0x8000_0000
}

/// Largest `i32`.
pub open spec fn i32_max() -> int {
    0x7fff_ffff
}

/// `a + b`, clamped to the `i32` range.
pub open spec fn sat(v: int) -> int {
    if v < i32_min() {
        i32_min()
    } else if v > i32_max() {
        i32_max()
    } else {
        v
    }
}

pub open spec fn min_int(a: int, b: int) -> int {
    if a <= b { a } else { b }
}

pub open spec fn max_int(a: int, b: int) -> int {
    if a >= b { a } else { b }
}

/// Saturating addition of two `i32` values.
pub fn saturating_add(a: i32, b: i32) -> (r: i32)
    ensures
        r == sat(a + b),
{
    let s: i64 = a as i64 + b as i64;
    if s < -0x8000_0000i64 {
        i32::MIN
    } else if s > 0x7fff_ffffi64 {
        i32::MAX
    } else {
        s as i32
    }
}

/// The smaller of two values.
pub fn min_i32(a: i32, b: i32) -> (r: i32)
    ensures
        r == min_int(a as int, b as int),
{
    if a <= b { a } else { b }
}

/// The larger of two values.
pub fn max_i32(a: i32, b: i32) -> (r: i32)
    ensures
        r == max_int(a as int, b as int),
{
    if a >= b { a } else { b }
}

/// The mathematical value of a rectangle.
pub struct RectView {
    pub x: int,
    pub y: int,
    pub w: int,
    pub h: int,
}

pub open spec fn rv(x: int, y: int, w: int, h: int) -> RectView {
    RectView { x, y, w, h }
}

pub open spec fn rv_zero() -> RectView {
    RectView { x: 0, y: 0, w: 0, h: 0 }
}

/// A point in logical coordinates.
#[derive(Clone, Copy, Debug, PartialEq, Eq, Structural)]
pub struct Point {
    pub x: i32,
    pub y: i32,
}

/// A size in logical coordinates; it may be negative while layouts are computed.
#[derive(Clone, Copy, Debug, PartialEq, Eq, Structural)]
pub struct Size {
    pub w: i32,
    pub h: i32,
}

/// An axis-aligned rectangle given by its top-left corner and its size.
#[derive(Clone, Copy, Debug, PartialEq, Eq, Structural)]
pub struct Rect {
    pub loc: Point,
    pub size: Size,
}

impl Point {
    pub fn new(x: i32, y: i32) -> (p: Point)
        ensures
            p.x == x,
            p.y == y,
    {
        Point { x, y }
    }

    pub fn zero() -> (p: Point)
        ensures
            p.x == 0,
            p.y == 0,
    {
        Point { x: 0, y: 0 }
    }
}

impl Size {
    pub fn new(w: i32, h: i32) -> (s: Size)
        ensures
            s.w == w,
            s.h == h,
    {
        Size { w, h }
    }

    /// A size is empty when either side is zero.
    pub open spec fn spec_is_empty(self) -> bool {
        self.w == 0 || self.h == 0
    }

    pub fn is_empty(&self) -> (r: bool)
        ensures
            r == self.spec_is_empty(),
    {
        self.w == 0 || self.h == 0
    }
}

impl View for Rect {
    type V = RectView;

    open spec fn view(&self) -> RectView {
        RectView { x: self.loc.x as int, y: self.loc.y as int, w: self.size.w as int, h: self.size.h as int }
    }
}

impl Rect {
    pub open spec fn right(self) -> int {
        sat(self.loc.x + self.size.w)
    }

    pub open spec fn bottom(self) -> int {
        sat(self.loc.y + self.size.h)
    }

    /// A rectangle whose corners fit in `i32` without saturation.
    pub open spec fn fits(self) -> bool {
        &&& i32_min() <= self.loc.x + self.size.w <= i32_max()
        &&& i32_min() <= self.loc.y + self.size.h <= i32_max()
    }

    pub fn new(x: i32, y: i32, w: i32, h: i32) -> (r: Rect)
        ensures
            r.loc.x == x,
            r.loc.y == y,
            r.size.w == w,
            r.size.h == h,
    {
        Rect { loc: Point { x, y }, size: Size { w, h } }
    }

    /// The rectangle at the origin with no area.
    pub fn zero() -> (r: Rect)
        ensures
            r == Rect::spec_zero(),
    {
        Rect { loc: Point { x: 0, y: 0 }, size: Size { w: 0, h: 0 } }
    }

    pub open spec fn spec_zero() -> Rect {
        Rect { loc: Point { x: 0, y: 0 }, size: Size { w: 0, h: 0 } }
    }

    /// A rectangle of the given size at the origin.
    pub fn from_size(size: Size) -> (r: Rect)
        ensures
            r.loc.x == 0,
            r.loc.y == 0,
            r.size == size,
    {
        Rect { loc: Point { x: 0, y: 0 }, size }
    }

    pub open spec fn spec_is_empty(self) -> bool {
        self.size.spec_is_empty()
    }

    pub fn is_empty(&self) -> (r: bool)
        ensures
            r == self.spec_is_empty(),
    {
        self.size.is_empty()
    }

    /// Whether `p` lies in the half-open rectangle.
    pub open spec fn spec_contains(self, p: Point) -> bool {
        &&& p.x >= self.loc.x
        &&& p.x < self.right()
        &&& p.y >= self.loc.y
        &&& p.y < self.bottom()
    }

    pub fn contains(&self, p: Point) -> (r: bool)
        ensures
            r == self.spec_contains(p),
    {
        p.x >= self.loc.x && p.x < saturating_add(self.loc.x, self.size.w) && p.y >= self.loc.y
            && p.y < saturating_add(self.loc.y, self.size.h)
    }

    /// Exclusive overlap: rectangles that only touch do not overlap.
    pub open spec fn spec_overlaps(self, other: Rect) -> bool {
        &&& self.loc.x < other.right()
        &&& other.loc.x < self.right()
        &&& self.loc.y < other.bottom()
        &&& other.loc.y < self.bottom()
    }

    pub fn overlaps(&self, other: &Rect) -> (r: bool)
        ensures
            r == self.spec_overlaps(*other),
    {
        self.loc.x < saturating_add(other.loc.x, other.size.w) && other.loc.x < saturating_add(
            self.loc.x,
            self.size.w,
        ) && self.loc.y < saturating_add(other.loc.y, other.size.h) && other.loc.y
            < saturating_add(self.loc.y, self.size.h)
    }

    /// The overlapping area of two rectangles, when they overlap.
    pub open spec fn spec_intersection(self, other: Rect) -> Option<(int, int, int, int)> {
        if !self.spec_overlaps(other) {
            None
        } else {
            let x0 = max_int(self.loc.x as int, other.loc.x as int);
            let y0 = max_int(self.loc.y as int, other.loc.y as int);
            let x1 = min_int(self.right(), other.right());
            let y1 = min_int(self.bottom(), other.bottom());
            Some((x0, y0, x1 - x0, y1 - y0))
        }
    }

    /// Clamps the two rectangles to their common area; `None` when they do not overlap.
    pub fn intersection(&self, other: &Rect) -> (r: Option<Rect>)
        requires
            self.fits(),
            other.fits(),
        ensures
            match self.spec_intersection(*other) {
                None => r.is_none(),
                Some(t) => r matches Some(rr) && rr.loc.x == t.0 && rr.loc.y == t.1
                    && rr.size.w == t.2 && rr.size.h == t.3,
            },
    {
        if !self.overlaps(other) {
            return None;
        }
        let x0 = max_i32(self.loc.x, other.loc.x);
        let y0 = max_i32(self.loc.y, other.loc.y);
        let x1 = min_i32(self.loc.x + self.size.w, other.loc.x + other.size.w);
        let y1 = min_i32(self.loc.y + self.size.h, other.loc.y + other.size.h);
        Some(Rect { loc: Point { x: x0, y: y0 }, size: Size { w: x1 - x0, h: y1 - y0 } })
    }
}

} // verus!
