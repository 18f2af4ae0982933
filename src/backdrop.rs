//! Scrolling backgrounds shared between views.

use vstd::prelude::*;
use crate::geometry::{screen_ok, Rectangle, SCREEN_MAX};

verus! {

/// Largest background image side, in pixels.
pub const IMAGE_MAX: i64 = 65536;

/// A background image, repeated sideways to fill the output.
#[derive(Clone, Copy, Debug, PartialEq, Eq, Structural)]
pub struct Background {
    /// Scroll offset into the image, in image pixels.
    pub pos: i64,
    /// Scroll speed, in image pixels per second.
    pub vel: i64,
    /// Size of the image.
    pub size_w: i64,
    pub size_h: i64,
}

/// Copies of a tile `tw` by `th` pixels laid left to right from `left` until
/// the output's width `win_w` is covered.
pub open spec fn tiles_from(left: int, tw: int, th: int, win_w: int) -> Seq<Rectangle>
    decreases (if left < win_w { win_w - left } else { 0 }),
{
    if tw <= 0 || left >= win_w {
        Seq::empty()
    } else {
        seq![Rectangle { x: left as i64, y: 0, w: tw as i64, h: th as i64 }] + tiles_from(left + tw, tw, th, win_w)
    }
}

impl Background {
    pub open spec fn wf(self) -> bool {
        &&& 0 < self.size_w <= IMAGE_MAX
        &&& 0 < self.size_h <= IMAGE_MAX
        &&& 0 <= self.pos <= self.size_w
    }

    /// Width of one copy scaled to the output's height.
    pub open spec fn tile_w(self, win_h: int) -> int {
        self.size_w * win_h / (self.size_h as int)
    }

    /// Left edge of the first copy.
    pub open spec fn first_left(self, win_h: int) -> int {
        -(self.pos * win_h / (self.size_h as int))
    }

    /// Where the copies of the image go on an output of `win_w` by `win_h`
    /// pixels: scaled to its height, the first shifted left by the scroll
    /// offset, until the width is covered.
    pub fn render(&self, win_w: i64, win_h: i64) -> (r: Vec<Rectangle>)
        requires
            self.wf(),
            screen_ok(win_w as int, win_h as int),
        ensures
            r@ == tiles_from(self.first_left(win_h as int), self.tile_w(win_h as int), win_h as int, win_w as int),
    {
        proof {
            assert(self.size_w * win_h <= IMAGE_MAX * SCREEN_MAX) by (nonlinear_arith)
                requires
                    0 < self.size_w <= IMAGE_MAX,
                    0 <= win_h <= SCREEN_MAX,
            ;
            assert(self.pos * win_h <= IMAGE_MAX * SCREEN_MAX) by (nonlinear_arith)
                requires
                    0 <= self.pos <= IMAGE_MAX,
                    0 <= win_h <= SCREEN_MAX,
            ;
            assert(0 <= self.pos * win_h) by (nonlinear_arith)
                requires
                    0 <= self.pos,
                    0 <= win_h,
            ;
            assert(self.pos * win_h / (self.size_h as int) <= self.size_w * win_h / (self.size_h as int)) by {
                assert(self.pos * win_h <= self.size_w * win_h) by (nonlinear_arith)
                    requires
                        self.pos <= self.size_w,
                        0 <= win_h,
                ;
                vstd::arithmetic::div_mod::lemma_div_is_ordered(self.pos * win_h, self.size_w * win_h, self.size_h as int);
            }
            assert(self.size_w * win_h / (self.size_h as int) <= self.size_w * win_h) by {
                vstd::arithmetic::div_mod::lemma_div_is_ordered_by_denominator(self.size_w * win_h, 1, self.size_h as int);
            }
            vstd::arithmetic::div_mod::lemma_div_pos_is_pos(self.pos * win_h, self.size_h as int);
        }
        let tw: i64 = self.size_w * win_h / self.size_h;
        let mut left: i64 = -(self.pos * win_h / self.size_h);
        let mut r: Vec<Rectangle> = Vec::new();
        if tw <= 0 {
            return r;
        }
        while left < win_w
            invariant
                tw == self.tile_w(win_h as int),
                0 < tw <= IMAGE_MAX * SCREEN_MAX,
                -(tw as int) <= left <= win_w + tw,
                screen_ok(win_w as int, win_h as int),
                r@ + tiles_from(left as int, tw as int, win_h as int, win_w as int)
                    == tiles_from(self.first_left(win_h as int), tw as int, win_h as int, win_w as int),
            decreases win_w + tw - left,
        {
            let tile = Rectangle { x: left, y: 0, w: tw, h: win_h };
            let ghost before = r@;
            r.push(tile);
            assert(before + tiles_from(left as int, tw as int, win_h as int, win_w as int)
                =~= r@ + tiles_from(left + tw, tw as int, win_h as int, win_w as int));
            left = left + tw;
        }
        assert(r@ + tiles_from(left as int, tw as int, win_h as int, win_w as int) =~= r@);
        r
    }
}

/// The backgrounds a view draws.
#[derive(Clone, Copy, Debug, PartialEq, Eq, Structural)]
pub struct BgSet {
    pub back: Background,
}

impl BgSet {
    /// The set for a back image of `w` by `h` pixels.
    pub open spec fn new_spec(w: i64, h: i64) -> BgSet {
        BgSet { back: Background { pos: 0, vel: 20, size_w: w, size_h: h } }
    }

    /// The set for a back image of `w` by `h` pixels, at rest offset zero.
    pub fn new(w: i64, h: i64) -> (r: BgSet)
        requires
            0 < w <= IMAGE_MAX,
            0 < h <= IMAGE_MAX,
        ensures
            r == BgSet::new_spec(w, h),
            r.back.wf(),
    {
        BgSet { back: Background { pos: 0, vel: 20, size_w: w, size_h: h } }
    }
}

} // verus!
