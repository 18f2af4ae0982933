//! Time-driven playback of a strip of sprite frames.

use vstd::prelude::*;
use vstd::arithmetic::mul::lemma_mul_inequality;
use crate::geometry::{Rectangle, COORD_MAX};

verus! {

/// Milliseconds in one second.
pub const MS_PER_SECOND: u64 = 1000;

/// How the frames of an animation are laid out on a sprite sheet: a grid of
/// equally sized cells, read row by row, of which the first `total_frames`
/// are used.
#[derive(Clone, Copy, Debug, PartialEq, Eq, Structural)]
pub struct FrameGrid {
    pub total_frames: usize,
    pub frames_wide: usize,
    pub frames_high: usize,
    pub frame_w: i64,
    pub frame_h: i64,
}

impl FrameGrid {
    /// A grid whose every cell lies in the coordinate range.
    pub open spec fn wf(self) -> bool {
        &&& 0 < self.frames_wide <= COORD_MAX
        &&& self.frames_high <= COORD_MAX
        &&& 0 <= self.frame_w
        &&& 0 <= self.frame_h
        &&& self.frames_wide * self.frame_w <= COORD_MAX
        &&& self.frames_high * self.frame_h <= COORD_MAX
    }

    /// How many frames the grid yields.
    pub open spec fn frame_count(self) -> int {
        let cells = self.frames_wide * self.frames_high;
        if self.total_frames < cells {
            self.total_frames as int
        } else {
            cells
        }
    }

    /// The cell of frame `i`.
    pub open spec fn region(self, i: int) -> Rectangle {
        Rectangle {
            x: ((i % self.frames_wide as int) * self.frame_w) as i64,
            y: ((i / self.frames_wide as int) * self.frame_h) as i64,
            w: self.frame_w,
            h: self.frame_h,
        }
    }

    /// The regions of the frames, in playback order.
    pub fn frames(&self) -> (r: Vec<Rectangle>)
        requires
            self.wf(),
        ensures
            r@.len() == self.frame_count(),
            forall|i: int| 0 <= i < r@.len() ==> #[trigger] r@[i] == self.region(i),
            forall|i: int| 0 <= i < r@.len() ==> (#[trigger] r@[i]).wf(),
    {
        let mut r: Vec<Rectangle> = Vec::new();
        let wide = self.frames_wide;
        let mut i: usize = 0;
        while i < self.total_frames
            invariant
                self.wf(),
                wide == self.frames_wide,
                i <= self.total_frames,
                i <= self.frames_wide * self.frames_high,
                r@.len() == i,
                forall|j: int| 0 <= j < i ==> #[trigger] r@[j] == self.region(j),
                forall|j: int| 0 <= j < i ==> (#[trigger] r@[j]).wf(),
            ensures
                r@.len() == self.frame_count(),
                forall|j: int| 0 <= j < r@.len() ==> #[trigger] r@[j] == self.region(j),
                forall|j: int| 0 <= j < r@.len() ==> (#[trigger] r@[j]).wf(),
            decreases self.total_frames - i,
        {
            let row = i / wide;
            if row >= self.frames_high {
                assert(i >= self.frames_wide * self.frames_high) by (nonlinear_arith)
                    requires
                        row == i / wide,
                        row >= self.frames_high,
                        wide > 0,
                        wide == self.frames_wide,
                ;
                break;
            }
            let col = i % wide;
            proof {
                assert(col * self.frame_w <= self.frames_wide * self.frame_w) by {
                    lemma_mul_inequality(col as int, self.frames_wide as int, self.frame_w as int);
                }
                assert(row * self.frame_h <= self.frames_high * self.frame_h) by {
                    lemma_mul_inequality(row as int, self.frames_high as int, self.frame_h as int);
                }
                assert(col * self.frame_w + self.frame_w <= self.frames_wide * self.frame_w)
                    by (nonlinear_arith)
                    requires
                        col < self.frames_wide,
                        self.frame_w >= 0,
                ;
                assert(row * self.frame_h + self.frame_h <= self.frames_high * self.frame_h)
                    by (nonlinear_arith)
                    requires
                        row < self.frames_high,
                        self.frame_h >= 0,
                ;
                assert(i + 1 <= self.frames_wide * self.frames_high) by (nonlinear_arith)
                    requires
                        row == i / wide,
                        row < self.frames_high,
                        wide > 0,
                        wide == self.frames_wide,
                ;
                assert(0 <= col * self.frame_w) by (nonlinear_arith)
                    requires
                        col >= 0,
                        self.frame_w >= 0,
                ;
                assert(0 <= row * self.frame_h) by (nonlinear_arith)
                    requires
                        row >= 0,
                        self.frame_h >= 0,
                ;
            }
            let cell = Rectangle {
                x: col as i64 * self.frame_w,
                y: row as i64 * self.frame_h,
                w: self.frame_w,
                h: self.frame_h,
            };
            r.push(cell);
            i += 1;
        }
        r
    }
}

/// Two `u64` values multiply within `u128`.
proof fn lemma_u64_product(a: u64, b: u64)
    ensures
        a * b <= u128::MAX,
{
    assert(a * b <= u64::MAX * u64::MAX) by (nonlinear_arith)
        requires
            a <= u64::MAX,
            b <= u64::MAX,
    ;
}

/// An animation: frame regions, a playback clock in milliseconds, a rate in
/// frames per second, and an optional range of trailing rest frames
/// (`rest_frames == 0` when there is none).
#[derive(Clone, Debug)]
pub struct AnimatedSprite {
    pub frames: Vec<Rectangle>,
    pub current_time: u64,
    pub fps: u64,
    pub rest_frames: usize,
    pub is_resting: bool,
}

/// Mathematical form of an animation.
pub struct SpriteModel {
    pub frames: Seq<Rectangle>,
    pub time: nat,
    pub fps: nat,
    pub rest: nat,
    pub resting: bool,
}

impl SpriteModel {
    /// The frame shown: the number of frames played so far, modulo the strip.
    pub open spec fn frame_index(self) -> int {
        if self.frames.len() == 0 {
            0
        } else {
            ((self.time * self.fps) as int / (MS_PER_SECOND as int)) % (self.frames.len() as int)
        }
    }

    /// Whether the playable frames have all been played and the strip should
    /// now shrink to its rest frames.
    pub open spec fn rest_due(self) -> bool {
        &&& !self.resting
        &&& 0 < self.rest < self.frames.len()
        &&& self.time * self.fps >= (self.frames.len() - self.rest) * (MS_PER_SECOND as int)
    }

    /// The strip cut down to its trailing rest frames.
    pub open spec fn rested(self) -> SpriteModel {
        SpriteModel {
            frames: self.frames.subrange(self.frames.len() - self.rest, self.frames.len() as int),
            resting: true,
            ..self
        }
    }

    /// The clock moved on by `dt` (saturating), and the rest frames entered if due.
    pub open spec fn advanced(self, dt: nat) -> SpriteModel {
        let t = if self.time + dt > u64::MAX {
            u64::MAX as nat
        } else {
            self.time + dt
        };
        let m = SpriteModel { time: t, ..self };
        if m.rest_due() {
            m.rested()
        } else {
            m
        }
    }
}

impl View for AnimatedSprite {
    type V = SpriteModel;

    open spec fn view(&self) -> SpriteModel {
        SpriteModel {
            frames: self.frames@,
            time: self.current_time as nat,
            fps: self.fps as nat,
            rest: self.rest_frames as nat,
            resting: self.is_resting,
        }
    }
}

impl AnimatedSprite {
    /// A sprite at time zero playing `frames` at `fps` frames per second.
    pub fn with_fps(frames: Vec<Rectangle>, fps: u64, rest_frames: usize) -> (r: AnimatedSprite)
        ensures
            r@ == (SpriteModel {
                frames: frames@,
                time: 0,
                fps: fps as nat,
                rest: rest_frames as nat,
                resting: false,
            }),
    {
        AnimatedSprite { frames, current_time: 0, fps, rest_frames, is_resting: false }
    }

    /// An independent copy, to be animated on its own.
    pub fn copy(&self) -> (r: AnimatedSprite)
        ensures
            r@ == self@,
    {
        let mut frames: Vec<Rectangle> = Vec::new();
        let mut i: usize = 0;
        while i < self.frames.len()
            invariant
                i <= self.frames@.len(),
                frames@ == self.frames@.subrange(0, i as int),
            decreases self.frames@.len() - i,
        {
            frames.push(self.frames[i]);
            i += 1;
            assert(frames@ =~= self.frames@.subrange(0, i as int));
        }
        assert(frames@ =~= self.frames@);
        AnimatedSprite {
            frames,
            current_time: self.current_time,
            fps: self.fps,
            rest_frames: self.rest_frames,
            is_resting: self.is_resting,
        }
    }

    /// Changes the playback rate; the frame shown follows from now on.
    pub fn set_fps(&mut self, fps: u64)
        ensures
            final(self)@ == (SpriteModel { fps: fps as nat, ..old(self)@ }),
    {
        self.fps = fps;
    }

    /// Moves the clock on by `dt` milliseconds.
    pub fn add_time(&mut self, dt: u64)
        ensures
            final(self)@ == old(self)@.advanced(dt as nat),
    {
        self.current_time = self.current_time.saturating_add(dt);
        let n = self.frames.len();
        proof {
            lemma_u64_product(self.current_time, self.fps);
        }
        let due = if !self.is_resting && 0 < self.rest_frames && self.rest_frames < n {
            let playable = (n - self.rest_frames) as u128;
            (self.current_time as u128) * (self.fps as u128) >= playable * 1000
        } else {
            false
        };
        if due {
            let mut kept: Vec<Rectangle> = Vec::new();
            let start = n - self.rest_frames;
            let mut i: usize = start;
            while i < n
                invariant
                    start <= i <= n,
                    n == self.frames@.len(),
                    kept@ == self.frames@.subrange(start as int, i as int),
                decreases n - i,
            {
                kept.push(self.frames[i]);
                i += 1;
                assert(kept@ =~= self.frames@.subrange(start as int, i as int));
            }
            self.frames = kept;
            self.is_resting = true;
        }
    }

    /// The index of the frame shown.
    pub fn current_frame(&self) -> (r: usize)
        ensures
            r as int == self@.frame_index(),
            self.frames@.len() > 0 ==> r < self.frames@.len(),
    {
        let n = self.frames.len();
        if n == 0 {
            return 0;
        }
        proof {
            lemma_u64_product(self.current_time, self.fps);
        }
        let played = (self.current_time as u128) * (self.fps as u128) / (MS_PER_SECOND as u128);
        (played % (n as u128)) as usize
    }

    /// The sheet region of the frame shown.
    pub fn region(&self) -> (r: Rectangle)
        requires
            self.frames@.len() > 0,
        ensures
            r == self.frames@[self@.frame_index()],
    {
        self.frames[self.current_frame()]
    }

    /// Width and height of the frame shown.
    pub fn size(&self) -> (r: (i64, i64))
        requires
            self.frames@.len() > 0,
        ensures
            r.0 == self.frames@[self@.frame_index()].w,
            r.1 == self.frames@[self@.frame_index()].h,
    {
        let f = self.region();
        (f.w, f.h)
    }
}

/// Moving the clock on by `a` and then by `b` leaves an animation in the same
/// state, and so on the same frame, as moving it on by `a + b` at once.
pub proof fn lemma_advance_additive(m: SpriteModel, a: nat, b: nat)
    requires
        m.time <= u64::MAX,
    ensures
        m.advanced(a).advanced(b) == m.advanced(a + b),
        m.advanced(a).advanced(b).frame_index() == m.advanced(a + b).frame_index(),
{
    let t1 = if m.time + a > u64::MAX { u64::MAX as nat } else { m.time + a };
    let t2 = if m.time + a + b > u64::MAX { u64::MAX as nat } else { m.time + a + b };
    let m1 = SpriteModel { time: t1, ..m };
    assert(t1 <= t2);
    lemma_mul_inequality(t1 as int, t2 as int, m.fps as int);
    if m1.rest_due() {
        assert(m.advanced(a) == m1.rested());
        assert(!m1.rested().rest_due());
    }
}

} // verus!
