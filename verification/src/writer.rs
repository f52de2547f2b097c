//! The frame writer: the heart of the real-time callback.
//!
//! A device output buffer is a flat run of native sample slots,
//! partitioned into consecutive frames of `channels` slots each. For
//! every complete frame the writer draws exactly one stereo pair from
//! the source, converts both components to the native representation,
//! and places the left value in every even channel slot of the frame
//! and the right value in every odd one (so a mono device hears only
//! the left channel, and a four-channel device hears L, R, L, R). A
//! trailing group shorter than one frame is left untouched for the
//! caller; no slot outside the complete frames is written, and no pair
//! is drawn for the short group.

use vstd::prelude::*;

use vstd::arithmetic::div_mod::lemma_fundamental_div_mod;
use vstd::arithmetic::div_mod::lemma_fundamental_div_mod_converse;
use vstd::arithmetic::mul::lemma_mul_inequality;
use vstd::arithmetic::mul::lemma_mul_is_distributive_add_other_way;
use vstd::pervasive::VecAdditionalExecFns;

use crate::convert::NativeSample;
use crate::source::StereoSource;

verus! {

/// The native value that slot `i` of the buffer holds after a write
/// that began with the source at pair index `start`: the left component
/// of the frame's pair at even channel offsets, the right at odd ones.
pub open spec fn slot_value<T: NativeSample, S: StereoSource>(
    source: S,
    start: int,
    i: int,
    channels: int,
) -> T {
    let pair = source.sample_at(start + i / channels);
    if (i % channels) % 2 == 0 {
        T::from_amplitude_spec(pair.0)
    } else {
        T::from_amplitude_spec(pair.1)
    }
}

/// Fills every complete frame of `out` from `source`: one stereo pair
/// is drawn per frame, the left component lands in the frame's even
/// channel slots and the right in its odd ones, both converted to the
/// native representation. The trailing `len % channels` slots are left
/// exactly as they were, and no pair is drawn for them.
pub fn write_frames<T: NativeSample, S: StereoSource>(
    out: &mut Vec<T>,
    channels: usize,
    source: &mut S,
)
    requires
        channels >= 1,
        old(source).inv(),
    ensures
        final(source).inv(),
        final(out)@.len() == old(out)@.len(),
        final(source).taken() == old(source).taken() + old(out)@.len() as int / channels as int,
        forall|k: int| final(source).sample_at(k) == old(source).sample_at(k),
        forall|i: int|
            0 <= i < old(out)@.len() - old(out)@.len() as int % (channels as int)
                ==> final(out)@[i]
                == slot_value::<T, S>(
                *old(source),
                old(source).taken() as int,
                i,
                channels as int,
            ),
        forall|i: int|
            old(out)@.len() - old(out)@.len() as int % (channels as int) <= i < old(out)@.len()
                ==> final(out)@[i] == old(out)@[i],
{
    let len = out.len();
    let frames = len / channels;
    proof {
        lemma_fundamental_div_mod(len as int, channels as int);
    }
    let mut f: usize = 0;
    while f < frames
        invariant
            channels >= 1,
            source.inv(),
            f <= frames,
            frames == len as int / channels as int,
            out@.len() == len,
            len == old(out)@.len(),
            (frames as int) * (channels as int) <= len,
            source.taken() == old(source).taken() + f,
            forall|k: int| source.sample_at(k) == old(source).sample_at(k),
            forall|i: int|
                0 <= i < f * (channels as int) ==> out@[i] == slot_value::<T, S>(
                    *old(source),
                    old(source).taken() as int,
                    i,
                    channels as int,
                ),
            forall|i: int| f * (channels as int) <= i < len ==> out@[i] == old(out)@[i],
        decreases frames - f,
    {
        proof {
            lemma_mul_inequality(f as int + 1, frames as int, channels as int);
            lemma_mul_is_distributive_add_other_way(channels as int, f as int, 1);
        }
        let ghost frame_base = (f as int) * (channels as int);
        let pair = source.next_stereo_sample();
        let left_native = T::from_amplitude(pair.0);
        let right_native = T::from_amplitude(pair.1);
        let base = f * channels;
        let mut c: usize = 0;
        while c < channels
            invariant
                channels >= 1,
                c <= channels,
                base == (f as int) * (channels as int),
                base + channels <= len,
                out@.len() == len,
                len == old(out)@.len(),
                left_native == T::from_amplitude_spec(
                    old(source).sample_at(old(source).taken() + f).0,
                ),
                right_native == T::from_amplitude_spec(
                    old(source).sample_at(old(source).taken() + f).1,
                ),
                forall|i: int|
                    0 <= i < base ==> out@[i] == slot_value::<T, S>(
                        *old(source),
                        old(source).taken() as int,
                        i,
                        channels as int,
                    ),
                forall|i: int|
                    base <= i < base + c ==> out@[i] == (if (i - base) % 2 == 0 {
                        left_native
                    } else {
                        right_native
                    }),
                forall|i: int| base + c <= i < len ==> out@[i] == old(out)@[i],
            decreases channels - c,
        {
            let idx = base + c;
            if c % 2 == 0 {
                out.set(idx, left_native);
            } else {
                out.set(idx, right_native);
            }
            c = c + 1;
        }
        proof {
            assert forall|i: int| frame_base <= i < frame_base + channels implies out@[i]
                == slot_value::<T, S>(
                *old(source),
                old(source).taken() as int,
                i,
                channels as int,
            ) by {
                lemma_fundamental_div_mod_converse(i, channels as int, f as int, i - frame_base);
            }
        }
        f = f + 1;
    }
    proof {
        lemma_fundamental_div_mod(len as int, channels as int);
    }
}

} // verus!
