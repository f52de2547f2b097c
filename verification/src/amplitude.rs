//! Fixed-point stereo amplitudes.
//!
//! The signal graph produces amplitudes nominally in `[-1.0, 1.0]`. Inside
//! the verified core an amplitude is held in signed fixed point: the raw
//! value counts steps of `1/32768`, so `UNIT` (32768) stands for full scale
//! `1.0` and `-UNIT` for `-1.0`. Values outside `[-UNIT, UNIT]` are legal
//! (the graph does not clamp); the converters saturate them.

use vstd::prelude::*;

verus! {

/// Raw fixed-point steps per full-scale amplitude (`1.0`).
pub const UNIT: i64 = 32768;

/// One amplitude sample in fixed point: `raw` counts steps of `1/UNIT`.
#[derive(Clone, Copy, PartialEq, Eq, Structural, Debug)]
pub struct Amplitude {
    pub raw: i64,
}

impl View for Amplitude {
    type V = int;

    open spec fn view(&self) -> int {
        self.raw as int
    }
}

impl Amplitude {
    /// Builds an amplitude from its raw fixed-point value.
    pub fn from_raw(raw: i64) -> (r: Amplitude)
        ensures
            r@ == raw as int,
    {
        Amplitude { raw }
    }

    /// The raw fixed-point value.
    pub fn raw(&self) -> (r: i64)
        ensures
            r as int == self@,
    {
        self.raw
    }

    /// Digital silence: amplitude zero.
    pub fn silence() -> (r: Amplitude)
        ensures
            r@ == 0,
    {
        Amplitude { raw: 0 }
    }
}

} // verus!
