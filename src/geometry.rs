//! Axis-aligned rectangles and the operations that collision and layout use.

use vstd::prelude::*;

verus! {

/// Smallest coordinate a rectangle may reach (the drawing backend works in `i32`).
pub const COORD_MIN: i64 = -2147483648;

/// Largest coordinate a rectangle may reach.
pub const COORD_MAX: i64 = 2147483647;

/// Largest output width or height that the game logic accepts.
pub const SCREEN_MAX: i64 = 1073741824;

/// An output of `w` by `h` pixels that the game logic accepts.
pub open spec fn screen_ok(w: int, h: int) -> bool {
    0 <= w <= SCREEN_MAX && 0 <= h <= SCREEN_MAX
}

/// An axis-aligned rectangle: top-left corner `(x, y)`, width `w`, height `h`.
#[derive(Clone, Copy, Debug, PartialEq, Eq, Structural)]
pub struct Rectangle {
    pub x: i64,
    pub y: i64,
    pub w: i64,
    pub h: i64,
}

/// Whether `v` lies in the coordinate range.
pub open spec fn in_coords(v: int) -> bool {
    COORD_MIN <= v <= COORD_MAX
}

impl Rectangle {
    /// Non-negative size, and every corner inside the coordinate range.
    pub open spec fn wf(self) -> bool {
        &&& 0 <= self.w
        &&& 0 <= self.h
        &&& in_coords(self.x as int)
        &&& in_coords(self.x + self.w)
        &&& in_coords(self.y as int)
        &&& in_coords(self.y + self.h)
    }

    /// Room for `m` more pixels on every side within the coordinate range.
    pub open spec fn has_margin(self, m: int) -> bool {
        &&& in_coords(self.x - m)
        &&& in_coords(self.x + self.w + m)
        &&& in_coords(self.y - m)
        &&& in_coords(self.y + self.h + m)
    }

    /// Strict intersection: rectangles that only share an edge do not overlap.
    pub open spec fn overlaps_spec(self, o: Rectangle) -> bool {
        &&& self.x < o.x + o.w
        &&& self.x + self.w > o.x
        &&& self.y < o.y + o.h
        &&& self.y + self.h > o.y
    }

    /// All four corners of `r` lie within `self`, borders included.
    pub open spec fn contains_spec(self, r: Rectangle) -> bool {
        &&& self.x <= r.x
        &&& r.x + r.w <= self.x + self.w
        &&& self.y <= r.y
        &&& r.y + r.h <= self.y + self.h
    }

    /// Whether `self` is no larger than `parent` in either dimension.
    pub open spec fn fits_in(self, parent: Rectangle) -> bool {
        self.w <= parent.w && self.h <= parent.h
    }

    /// One coordinate clamped so that `[v, v + len]` lies in `[lo, lo + span]`.
    pub open spec fn clamp_axis(v: int, len: int, lo: int, span: int) -> int {
        if v < lo {
            lo
        } else if v + len >= lo + span {
            lo + span - len
        } else {
            v
        }
    }

    /// `self` moved as little as needed to lie inside `parent`, size kept.
    pub open spec fn moved_inside(self, parent: Rectangle) -> Rectangle {
        Rectangle {
            x: Self::clamp_axis(self.x as int, self.w as int, parent.x as int, parent.w as int) as i64,
            y: Self::clamp_axis(self.y as int, self.h as int, parent.y as int, parent.h as int) as i64,
            w: self.w,
            h: self.h,
        }
    }

    /// The centroid, rounded towards the top-left corner.
    pub open spec fn center_spec(self) -> (int, int) {
        (self.x + self.w / 2, self.y + self.h / 2)
    }

    /// `self` with its size kept and its centroid at `p`.
    pub open spec fn centered_at(self, p: (int, int)) -> Rectangle {
        Rectangle { x: (p.0 - self.w / 2) as i64, y: (p.1 - self.h / 2) as i64, w: self.w, h: self.h }
    }

    /// Whether `self` can be centred at `p` without leaving the coordinate range.
    pub open spec fn can_center_at(self, p: (int, int)) -> bool {
        &&& in_coords(p.0 - self.w / 2)
        &&& in_coords(p.0 - self.w / 2 + self.w)
        &&& in_coords(p.1 - self.h / 2)
        &&& in_coords(p.1 - self.h / 2 + self.h)
    }

    /// A rectangle of the given size at the origin.
    pub fn with_size(w: i64, h: i64) -> (r: Rectangle)
        requires
            0 <= w <= COORD_MAX,
            0 <= h <= COORD_MAX,
        ensures
            r == (Rectangle { x: 0, y: 0, w, h }),
            r.wf(),
    {
        Rectangle { x: 0, y: 0, w, h }
    }

    /// Clamps `self` into `parent`; `None` when it is wider or taller than `parent`.
    pub fn move_inside(self, parent: Rectangle) -> (r: Option<Rectangle>)
        requires
            self.wf(),
            parent.wf(),
        ensures
            r.is_none() <==> !self.fits_in(parent),
            r.is_some() ==> r.unwrap() == self.moved_inside(parent),
            r.is_some() ==> r.unwrap().wf() && parent.contains_spec(r.unwrap()),
    {
        if self.w > parent.w || self.h > parent.h {
            return None;
        }
        let x = if self.x < parent.x {
            parent.x
        } else if self.x + self.w >= parent.x + parent.w {
            parent.x + parent.w - self.w
        } else {
            self.x
        };
        let y = if self.y < parent.y {
            parent.y
        } else if self.y + self.h >= parent.y + parent.h {
            parent.y + parent.h - self.h
        } else {
            self.y
        };
        Some(Rectangle { x, y, w: self.w, h: self.h })
    }

    /// Whether every corner of `rect` lies inside `self`, borders included.
    pub fn contains(&self, rect: Rectangle) -> (r: bool)
        requires
            self.wf(),
            rect.wf(),
        ensures
            r == self.contains_spec(rect),
    {
        let xmin = rect.x;
        let xmax = xmin + rect.w;
        let ymin = rect.y;
        let ymax = ymin + rect.h;
        xmin >= self.x && xmin <= self.x + self.w && xmax >= self.x && xmax <= self.x + self.w
            && ymin >= self.y && ymin <= self.y + self.h && ymax >= self.y && ymax <= self.y
            + self.h
    }

    /// Strict intersection test.
    pub fn overlaps(&self, other: Rectangle) -> (r: bool)
        requires
            self.wf(),
            other.wf(),
        ensures
            r == self.overlaps_spec(other),
    {
        self.x < other.x + other.w && self.x + self.w > other.x && self.y < other.y + other.h
            && self.y + self.h > other.y
    }

    /// The centroid, rounded towards the top-left corner.
    pub fn center(&self) -> (r: (i64, i64))
        requires
            self.wf(),
        ensures
            r.0 as int == self.center_spec().0,
            r.1 as int == self.center_spec().1,
    {
        (self.x + self.w / 2, self.y + self.h / 2)
    }

    /// `self` repositioned so that its centroid is `p`.
    pub fn center_at(self, p: (i64, i64)) -> (r: Rectangle)
        requires
            self.wf(),
            self.can_center_at((p.0 as int, p.1 as int)),
        ensures
            r == self.centered_at((p.0 as int, p.1 as int)),
            r.wf(),
    {
        Rectangle { x: p.0 - self.w / 2, y: p.1 - self.h / 2, w: self.w, h: self.h }
    }
}

/// A rectangle of positive size overlaps itself, and does not overlap a copy
/// of itself (`t`) shifted sideways by at least its own width.
pub proof fn lemma_overlap_self_and_shift(r: Rectangle, t: Rectangle)
    requires
        r.wf(),
        r.w > 0,
        r.h > 0,
        t.y == r.y,
        t.w == r.w,
        t.h == r.h,
        t.x >= r.x + r.w || t.x <= r.x - r.w,
    ensures
        r.overlaps_spec(r),
        !r.overlaps_spec(t),
        !t.overlaps_spec(r),
{
}

/// Moving inside is possible exactly when the rectangle fits; the result then
/// lies inside the bounds, and moving it inside the same bounds again changes
/// nothing.
pub proof fn lemma_move_inside_contained_idempotent(s: Rectangle, b: Rectangle)
    requires
        s.wf(),
        b.wf(),
        s.fits_in(b),
    ensures
        b.contains_spec(s.moved_inside(b)),
        s.moved_inside(b).wf(),
        s.moved_inside(b).fits_in(b),
        s.moved_inside(b).moved_inside(b) == s.moved_inside(b),
{
}

} // verus!
