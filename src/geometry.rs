use vstd::prelude::*;

verus! {

/// One canvas unit, in the fixed-point steps that lengths are counted in.
pub const UNIT: i64 = 1_000_000;

/// Largest magnitude of a rectangle's coordinates and extents.
pub const MAX_COORD: i64 = 1_000_000_000_000_000;

/// Largest magnitude of a point that can be clamped onto a rectangle.
pub const MAX_POINT: i64 = 1_000_000_000_000_000_000;

/// A point or a displacement.
#[derive(Clone, Copy, Debug, PartialEq, Eq, Structural)]
pub struct Vec2 {
    pub x: i64,
    pub y: i64,
}

/// An axis-aligned rectangle: corner `(x, y)`, width `w`, height `h`.
#[derive(Clone, Copy, Debug, PartialEq, Eq, Structural)]
pub struct Rect {
    pub x: i64,
    pub y: i64,
    pub w: i64,
    pub h: i64,
}

pub open spec fn abs(v: int) -> int {
    if v < 0 {
        -v
    } else {
        v
    }
}

pub open spec fn min(a: int, b: int) -> int {
    if a <= b {
        a
    } else {
        b
    }
}

pub open spec fn max(a: int, b: int) -> int {
    if a >= b {
        a
    } else {
        b
    }
}

/// `v` raised to `lo`, then lowered to `hi` (so `hi` wins when `hi < lo`).
pub open spec fn clamp_between(v: int, lo: int, hi: int) -> int {
    min(max(v, lo), hi)
}

impl Rect {
    pub open spec fn bounded(self) -> bool {
        &&& abs(self.x as int) <= MAX_COORD
        &&& abs(self.y as int) <= MAX_COORD
        &&& abs(self.w as int) <= MAX_COORD
        &&& abs(self.h as int) <= MAX_COORD
    }

    /// A rectangle whose extents are not negative.
    pub open spec fn valid(self) -> bool {
        self.w >= 0 && self.h >= 0
    }

    pub open spec fn right_spec(self) -> int {
        self.x + self.w
    }

    pub open spec fn bottom_spec(self) -> int {
        self.y + self.h
    }

    /// The edges touch or cross on both axes.
    pub open spec fn overlaps_spec(self, o: Rect) -> bool {
        &&& self.x <= o.right_spec()
        &&& self.right_spec() >= o.x
        &&& self.y <= o.bottom_spec()
        &&& self.bottom_spec() >= o.y
    }

    /// `p` inside the rectangle, edges included.
    pub open spec fn contains_spec(self, p: Vec2) -> bool {
        self.x <= p.x <= self.right_spec() && self.y <= p.y <= self.bottom_spec()
    }

    /// `p` moved onto the rectangle, axis by axis.
    pub open spec fn clamp_spec(self, p: Vec2) -> Vec2 {
        Vec2 {
            x: clamp_between(p.x as int, self.x as int, self.right_spec()) as i64,
            y: clamp_between(p.y as int, self.y as int, self.bottom_spec()) as i64,
        }
    }

    pub fn right(&self) -> (r: i64)
        requires
            self.bounded(),
        ensures
            r == self.right_spec(),
    {
        self.x + self.w
    }

    pub fn bottom(&self) -> (r: i64)
        requires
            self.bounded(),
        ensures
            r == self.bottom_spec(),
    {
        self.y + self.h
    }

    pub fn overlaps(&self, other: &Rect) -> (r: bool)
        requires
            self.bounded(),
            other.bounded(),
        ensures
            r == self.overlaps_spec(*other),
    {
        self.x <= other.right() && self.right() >= other.x && self.y <= other.bottom()
            && self.bottom() >= other.y
    }

    /// The point of the rectangle nearest to `p` on each axis.
    pub fn clamp(&self, p: Vec2) -> (r: Vec2)
        requires
            self.bounded(),
            abs(p.x as int) <= MAX_POINT,
            abs(p.y as int) <= MAX_POINT,
        ensures
            r == self.clamp_spec(p),
            self.valid() ==> self.contains_spec(r),
    {
        let right = self.right();
        let bottom = self.bottom();
        let mut x = if p.x < self.x { self.x } else { p.x };
        if x > right {
            x = right;
        }
        let mut y = if p.y < self.y { self.y } else { p.y };
        if y > bottom {
            y = bottom;
        }
        Vec2 { x, y }
    }
}

} // verus!
