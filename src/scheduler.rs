//! Frame pacing: from the clock, decides whether to wait or run a frame, and
//! counts frames over each second for reporting.

use vstd::prelude::*;

verus! {

/// Default frame interval: sixty frames per second, in whole milliseconds.
pub const FRAME_INTERVAL: u64 = 16;

/// Length of the frame-rate reporting window, in milliseconds.
pub const REPORT_WINDOW: u64 = 1000;

/// What the game loop should do at a given clock reading.
#[derive(Clone, Copy, Debug, PartialEq, Eq, Structural)]
pub enum Tick {
    /// Too early: sleep this many milliseconds, then read the clock again.
    Wait(u64),
    /// Run one frame covering `elapsed` milliseconds; `fps_report` holds the
    /// number of frames of the window that just closed, if one did.
    Frame { elapsed: u64, fps_report: Option<u64> },
}

/// The pacing state.
#[derive(Clone, Copy, Debug, PartialEq, Eq, Structural)]
pub struct FrameScheduler {
    /// Shortest time between two frames, in milliseconds.
    pub interval: u64,
    /// Clock reading of the last frame run.
    pub before: u64,
    /// Clock reading at which the current reporting window opened.
    pub last_second: u64,
    /// Frames run in the current reporting window.
    pub frames: u64,
}

/// Milliseconds from `a` to `b`, zero if the clock reads earlier.
pub open spec fn since(a: u64, b: u64) -> u64 {
    if b >= a { (b - a) as u64 } else { 0 }
}

impl FrameScheduler {
    /// The state after the clock reads `now`, and the decision taken.
    pub open spec fn ticked(self, now: u64) -> (FrameScheduler, Tick) {
        let dt = since(self.before, now);
        if dt < self.interval {
            (self, Tick::Wait((self.interval - dt) as u64))
        } else {
            let frames = if self.frames == u64::MAX { self.frames } else { (self.frames + 1) as u64 };
            if since(self.last_second, now) > REPORT_WINDOW {
                (FrameScheduler { before: now, last_second: now, frames: 0, ..self }, Tick::Frame { elapsed: dt, fps_report: Some(frames) })
            } else {
                (FrameScheduler { before: now, frames, ..self }, Tick::Frame { elapsed: dt, fps_report: None })
            }
        }
    }

    /// A scheduler running at most one frame per `interval` milliseconds,
    /// started at clock reading `now`.
    pub fn new(interval: u64, now: u64) -> (r: FrameScheduler)
        ensures
            r == (FrameScheduler { interval, before: now, last_second: now, frames: 0 }),
    {
        FrameScheduler { interval, before: now, last_second: now, frames: 0 }
    }

    /// Reads the clock: waits while less than one interval has passed since
    /// the last frame, and otherwise runs a frame covering the time measured.
    pub fn tick(&mut self, now: u64) -> (r: Tick)
        ensures
            (*final(self), r) == old(self).ticked(now),
    {
        let dt = now.saturating_sub(self.before);
        if dt < self.interval {
            return Tick::Wait(self.interval - dt);
        }
        self.before = now;
        self.frames = self.frames.saturating_add(1);
        if now.saturating_sub(self.last_second) > REPORT_WINDOW {
            let report = self.frames;
            self.last_second = now;
            self.frames = 0;
            Tick::Frame { elapsed: dt, fps_report: Some(report) }
        } else {
            Tick::Frame { elapsed: dt, fps_report: None }
        }
    }
}

/// A frame runs exactly when at least one interval has passed since the last
/// one, and it covers the time measured, not the interval; before that the
/// scheduler waits out the rest of the interval and keeps its state.
pub proof fn lemma_tick_paces(s: FrameScheduler, now: u64)
    ensures
        since(s.before, now) < s.interval ==> s.ticked(now).0 == s && s.ticked(now).1 == Tick::Wait(
            (s.interval - since(s.before, now)) as u64,
        ),
        since(s.before, now) >= s.interval ==> s.ticked(now).1 is Frame && s.ticked(now).0.before == now,
        since(s.before, now) >= s.interval ==> (s.ticked(now).1 matches Tick::Frame { elapsed, .. } ==> elapsed == since(s.before, now)),
{
}

} // verus!
