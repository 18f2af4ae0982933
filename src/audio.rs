//! Feeding a sound's samples to the audio device chunk by chunk.

use vstd::prelude::*;

verus! {

/// How far playback of a sample buffer has got.
#[derive(Clone, Copy, Debug, PartialEq, Eq, Structural)]
pub struct AudioCursor {
    pub position: usize,
}

impl AudioCursor {
    /// Playback from the start.
    pub fn new() -> (r: AudioCursor)
        ensures
            r.position == 0,
    {
        AudioCursor { position: 0 }
    }

    /// Whether the next `len` samples are still in a buffer of `total`.
    pub open spec fn can_fill(self, len: int, total: int) -> bool {
        self.position + len <= total
    }

    /// Whether the next `len` samples are still in a buffer of `total`.
    pub fn has_room(&self, len: usize, total: usize) -> (r: bool)
        ensures
            r == self.can_fill(len as int, total as int),
    {
        len <= total && self.position <= total - len
    }

    /// Copies the next `out.len()` samples into `out` and moves past them.
    pub fn fill(&mut self, samples: &[u8], out: &mut [u8])
        requires
            old(self).can_fill(old(out)@.len() as int, samples@.len() as int),
        ensures
            final(out)@ == samples@.subrange(old(self).position as int, old(self).position + old(out)@.len()),
            final(self).position == old(self).position + old(out)@.len(),
    {
        let start = self.position;
        let n = out.len();
        let total = samples.len();
        let mut i: usize = 0;
        while i < n
            invariant
                n == out@.len(),
                n == old(out)@.len(),
                start == old(self).position,
                total == samples@.len(),
                start + n <= total,
                i <= n,
                forall|j: int| 0 <= j < i ==> out@[j] == samples@[start + j],
            decreases n - i,
        {
            out[i] = samples[start + i];
            i += 1;
        }
        assert(out@ =~= samples@.subrange(start as int, start + n));
        self.position = start + n;
    }
}

} // verus!
