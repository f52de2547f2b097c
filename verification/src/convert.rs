//! Saturating conversion from fixed-point amplitudes to the output
//! device's native sample representations.
//!
//! The device negotiates one of a small closed set of native formats:
//! 32-bit float (a pass-through, kept in fixed point here and only
//! rescaled at the unverified edge), signed 16-bit, or unsigned 16-bit.
//! Fixed point with `UNIT == 32768` makes the signed 16-bit mapping the
//! identity on in-range values; out-of-range inputs saturate at the
//! format's representable bounds instead of wrapping.

use vstd::prelude::*;

use crate::amplitude::Amplitude;
use crate::amplitude::UNIT;

verus! {

/// The signed 16-bit value an amplitude converts to: the raw value
/// clamped to `[i16::MIN, i16::MAX]`.
pub open spec fn to_i16_spec(v: int) -> int {
    if v < -32768 {
        -32768
    } else if v > 32767 {
        32767
    } else {
        v
    }
}

/// The unsigned 16-bit value an amplitude converts to: the raw value
/// shifted up by `UNIT` and clamped to `[0, u16::MAX]`.
pub open spec fn to_u16_spec(v: int) -> int {
    if v + 32768 < 0 {
        0
    } else if v + 32768 > 65535 {
        65535
    } else {
        v + 32768
    }
}

/// Converts an amplitude to the device's signed 16-bit representation,
/// saturating at the representable bounds.
pub fn amplitude_to_i16(a: Amplitude) -> (r: i16)
    ensures
        r as int == to_i16_spec(a@),
{
    if a.raw < -32768 {
        -32768
    } else if a.raw > 32767 {
        32767
    } else {
        a.raw as i16
    }
}

/// Converts an amplitude to the device's unsigned 16-bit representation,
/// saturating at the representable bounds.
pub fn amplitude_to_u16(a: Amplitude) -> (r: u16)
    ensures
        r as int == to_u16_spec(a@),
{
    if a.raw < -32768 {
        0
    } else if a.raw > 32767 {
        65535
    } else {
        (a.raw + 32768) as u16
    }
}

/// A native sample representation the device may demand: one fixed
/// conversion from an amplitude, with its meaning given by
/// `from_amplitude_spec`.
pub trait NativeSample: Copy + Sized {
    /// The native value that `from_amplitude` returns for `a`.
    spec fn from_amplitude_spec(a: Amplitude) -> Self;

    /// Converts one amplitude to this native representation.
    fn from_amplitude(a: Amplitude) -> (r: Self)
        ensures
            r == Self::from_amplitude_spec(a),
    ;
}

impl NativeSample for i16 {
    open spec fn from_amplitude_spec(a: Amplitude) -> i16 {
        to_i16_spec(a@) as i16
    }

    fn from_amplitude(a: Amplitude) -> (r: i16) {
        amplitude_to_i16(a)
    }
}

impl NativeSample for u16 {
    open spec fn from_amplitude_spec(a: Amplitude) -> u16 {
        to_u16_spec(a@) as u16
    }

    fn from_amplitude(a: Amplitude) -> (r: u16) {
        amplitude_to_u16(a)
    }
}

/// The floating-point formats take the amplitude through unchanged; the
/// rescaling to `[-1.0, 1.0]` happens outside the verified core.
impl NativeSample for Amplitude {
    open spec fn from_amplitude_spec(a: Amplitude) -> Amplitude {
        a
    }

    fn from_amplitude(a: Amplitude) -> (r: Amplitude) {
        a
    }
}

/// The signed 16-bit converter is monotonic: a lower amplitude never
/// converts to a higher native value.
pub proof fn lemma_to_i16_monotonic(a: Amplitude, b: Amplitude)
    requires
        a@ < b@,
    ensures
        to_i16_spec(a@) <= to_i16_spec(b@),
{
}

/// The unsigned 16-bit converter is monotonic: a lower amplitude never
/// converts to a higher native value.
pub proof fn lemma_to_u16_monotonic(a: Amplitude, b: Amplitude)
    requires
        a@ < b@,
    ensures
        to_u16_spec(a@) <= to_u16_spec(b@),
{
}

/// The signed 16-bit converter saturates: amplitudes below full negative
/// scale convert to `i16::MIN`, amplitudes above full positive scale to
/// `i16::MAX`.
pub proof fn lemma_to_i16_saturates(a: Amplitude)
    ensures
        a@ <= -UNIT ==> to_i16_spec(a@) == i16::MIN,
        a@ >= UNIT ==> to_i16_spec(a@) == i16::MAX,
{
}

/// The unsigned 16-bit converter saturates: amplitudes below full
/// negative scale convert to `u16::MIN`, amplitudes above full positive
/// scale to `u16::MAX`.
pub proof fn lemma_to_u16_saturates(a: Amplitude)
    ensures
        a@ <= -UNIT ==> to_u16_spec(a@) == u16::MIN,
        a@ >= UNIT ==> to_u16_spec(a@) == u16::MAX,
{
}

} // verus!
