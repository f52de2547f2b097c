//! The pull-based stereo sample source.
//!
//! A signal graph is, to the real-time path, a stateful unit that hands
//! out one stereo pair per invocation and advances its internal clock by
//! exactly one sample period each time. `StereoSource` captures that
//! capability: `taken` counts the pairs drawn so far, `sample_at` fixes
//! the pair every future invocation will return, and `next_stereo_sample`
//! advances by exactly one step without reordering, skipping or replay.
//!
//! Two graph shapes live here: a constant source (a degenerate
//! oscillator, useful for exercising the interleaving) and a scripted
//! source that plays a finite recording and then falls silent.

use vstd::prelude::*;

use crate::amplitude::Amplitude;

verus! {

/// A stateful producer of stereo amplitude pairs, drawn one pair per
/// frame on the real-time path.
pub trait StereoSource: Sized {
    /// Well-formedness of the source's state; every method keeps it.
    spec fn inv(&self) -> bool;

    /// How many stereo pairs have been drawn so far.
    spec fn taken(&self) -> nat;

    /// The pair that the `k`-th invocation (counting from zero) returns.
    spec fn sample_at(&self, k: int) -> (Amplitude, Amplitude);

    /// Fixes the time-per-sample for the source's internal clock. Must be
    /// called before the first pair is drawn and never again mid-stream.
    fn set_sample_rate(&mut self, rate_hz: u32)
        requires
            old(self).inv(),
            old(self).taken() == 0,
        ensures
            final(self).inv(),
            final(self).taken() == 0,
    ;

    /// Draws the next stereo pair, advancing the source's clock by
    /// exactly one sample period.
    fn next_stereo_sample(&mut self) -> (r: (Amplitude, Amplitude))
        requires
            old(self).inv(),
        ensures
            final(self).inv(),
            final(self).taken() == old(self).taken() + 1,
            r == old(self).sample_at(old(self).taken() as int),
            forall|k: int| final(self).sample_at(k) == old(self).sample_at(k),
    ;
}

/// A source that produces the same stereo pair forever.
pub struct ConstSource {
    /// The left amplitude of every pair.
    pub left: Amplitude,
    /// The right amplitude of every pair.
    pub right: Amplitude,
    /// How many pairs have been drawn.
    pub count: Ghost<nat>,
}

impl ConstSource {
    /// Builds a source that yields `(left, right)` on every invocation.
    pub fn new(left: Amplitude, right: Amplitude) -> (r: ConstSource)
        ensures
            r.inv(),
            r.taken() == 0,
            forall|k: int| r.sample_at(k) == (left, right),
    {
        ConstSource { left, right, count: Ghost(0) }
    }
}

impl StereoSource for ConstSource {
    open spec fn inv(&self) -> bool {
        true
    }

    open spec fn taken(&self) -> nat {
        self.count@
    }

    open spec fn sample_at(&self, k: int) -> (Amplitude, Amplitude) {
        (self.left, self.right)
    }

    fn set_sample_rate(&mut self, rate_hz: u32) {
    }

    fn next_stereo_sample(&mut self) -> (r: (Amplitude, Amplitude)) {
        self.count = Ghost(self.count@ + 1);
        (self.left, self.right)
    }
}

/// A source that plays a finite recording of stereo pairs in order, then
/// falls silent.
pub struct ScriptedSource {
    /// The recorded pairs, one per frame.
    pub frames: Vec<(Amplitude, Amplitude)>,
    /// The next pair to play; stays at `frames.len()` once the recording
    /// has run out.
    pub pos: usize,
    /// How many pairs have been drawn, including silent ones past the
    /// end of the recording.
    pub count: Ghost<nat>,
}

impl ScriptedSource {
    /// Builds a source that plays `frames` from the start.
    pub fn new(frames: Vec<(Amplitude, Amplitude)>) -> (r: ScriptedSource)
        ensures
            r.inv(),
            r.taken() == 0,
            forall|k: int| #![trigger r.sample_at(k)]
                r.sample_at(k) == if 0 <= k < frames@.len() {
                    frames@[k]
                } else {
                    (Amplitude { raw: 0 }, Amplitude { raw: 0 })
                },
    {
        ScriptedSource { frames, pos: 0, count: Ghost(0) }
    }
}

impl StereoSource for ScriptedSource {
    open spec fn inv(&self) -> bool {
        if self.count@ < self.frames@.len() {
            self.pos == self.count@
        } else {
            self.pos == self.frames@.len()
        }
    }

    open spec fn taken(&self) -> nat {
        self.count@
    }

    open spec fn sample_at(&self, k: int) -> (Amplitude, Amplitude) {
        if 0 <= k < self.frames@.len() {
            self.frames@[k]
        } else {
            (Amplitude { raw: 0 }, Amplitude { raw: 0 })
        }
    }

    fn set_sample_rate(&mut self, rate_hz: u32) {
    }

    fn next_stereo_sample(&mut self) -> (r: (Amplitude, Amplitude)) {
        self.count = Ghost(self.count@ + 1);
        if self.pos < self.frames.len() {
            let pair = self.frames[self.pos];
            self.pos = self.pos + 1;
            pair
        } else {
            (Amplitude { raw: 0 }, Amplitude { raw: 0 })
        }
    }
}

} // verus!
