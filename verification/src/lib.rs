//! Real-time audio bridge: a pull-based stereo sample source feeding a
//! hardware-clocked output buffer, with verified frame interleaving and
//! saturating sample-format conversion.
//!
//! Amplitudes live in signed fixed point (`amplitude`), the converters
//! map them to the device's native representations (`convert`), a
//! `source` hands out one stereo pair per frame, and the frame `writer`
//! fills each hardware buffer inside the real-time callback.

pub mod amplitude;
pub mod convert;
pub mod source;
pub mod writer;
