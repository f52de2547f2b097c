use audio_bridge::amplitude::Amplitude;
use audio_bridge::amplitude::UNIT;
use audio_bridge::source::ConstSource;
use audio_bridge::source::ScriptedSource;
use audio_bridge::source::StereoSource;
use audio_bridge::writer::write_frames;

#[test]
fn stereo_full_scale_i16() {
    // A graph holding (1.0, -1.0), two channels, eight slots: the native
    // buffer alternates max and min.
    let mut out: Vec<i16> = vec![0; 8];
    let mut src = ConstSource::new(Amplitude::from_raw(UNIT), Amplitude::from_raw(-UNIT));
    write_frames(&mut out, 2, &mut src);
    assert_eq!(out, vec![32767, -32768, 32767, -32768, 32767, -32768, 32767, -32768]);
}

#[test]
fn stereo_full_scale_u16() {
    let mut out: Vec<u16> = vec![1; 8];
    let mut src = ConstSource::new(Amplitude::from_raw(UNIT), Amplitude::from_raw(-UNIT));
    write_frames(&mut out, 2, &mut src);
    assert_eq!(out, vec![65535, 0, 65535, 0, 65535, 0, 65535, 0]);
}

#[test]
fn mono_hears_only_left() {
    // One channel: the right component never surfaces.
    let mut out: Vec<i16> = vec![0; 4];
    let mut src = ConstSource::new(Amplitude::from_raw(UNIT), Amplitude::from_raw(-UNIT));
    write_frames(&mut out, 1, &mut src);
    assert_eq!(out, vec![32767, 32767, 32767, 32767]);
}

#[test]
fn partial_trailing_frame_left_untouched() {
    // Seven slots, two channels: three complete frames are written and
    // the seventh slot keeps its previous value.
    let mut out: Vec<i16> = vec![7; 7];
    let mut src = ConstSource::new(Amplitude::from_raw(UNIT), Amplitude::from_raw(-UNIT));
    write_frames(&mut out, 2, &mut src);
    assert_eq!(out, vec![32767, -32768, 32767, -32768, 32767, -32768, 7]);
}

#[test]
fn four_channels_repeat_left_right() {
    // Four channels, one frame: the left/right pair repeats across the
    // whole frame, not just the first two slots.
    let mut out: Vec<i16> = vec![0; 4];
    let mut src = ConstSource::new(Amplitude::from_raw(11), Amplitude::from_raw(-22));
    write_frames(&mut out, 4, &mut src);
    assert_eq!(out, vec![11, -22, 11, -22]);
}

#[test]
fn four_channels_passthrough_amplitudes() {
    // The floating-point path carries amplitudes through unchanged.
    let mut out: Vec<Amplitude> = vec![Amplitude::from_raw(0); 4];
    let mut src = ConstSource::new(Amplitude::from_raw(123), Amplitude::from_raw(-456));
    write_frames(&mut out, 4, &mut src);
    assert_eq!(out[0].raw(), 123);
    assert_eq!(out[1].raw(), -456);
    assert_eq!(out[2].raw(), 123);
    assert_eq!(out[3].raw(), -456);
}

#[test]
fn scripted_source_plays_in_order() {
    // Each frame draws exactly one pair, in order, with no skip or replay.
    let script = vec![
        (Amplitude::from_raw(1), Amplitude::from_raw(2)),
        (Amplitude::from_raw(3), Amplitude::from_raw(4)),
        (Amplitude::from_raw(5), Amplitude::from_raw(6)),
    ];
    let mut src = ScriptedSource::new(script);
    let mut out: Vec<i16> = vec![0; 6];
    write_frames(&mut out, 2, &mut src);
    assert_eq!(out, vec![1, 2, 3, 4, 5, 6]);
}

#[test]
fn scripted_source_falls_silent_after_end() {
    let script = vec![(Amplitude::from_raw(9), Amplitude::from_raw(-9))];
    let mut src = ScriptedSource::new(script);
    let mut out: Vec<i16> = vec![5; 6];
    write_frames(&mut out, 2, &mut src);
    assert_eq!(out, vec![9, -9, 0, 0, 0, 0]);
}

#[test]
fn one_pair_drawn_per_complete_frame() {
    // Seven slots at two channels make three complete frames, so exactly
    // three pairs leave the source: its position advances to three.
    let script = vec![
        (Amplitude::from_raw(1), Amplitude::from_raw(1)),
        (Amplitude::from_raw(2), Amplitude::from_raw(2)),
        (Amplitude::from_raw(3), Amplitude::from_raw(3)),
        (Amplitude::from_raw(4), Amplitude::from_raw(4)),
        (Amplitude::from_raw(5), Amplitude::from_raw(5)),
    ];
    let mut src = ScriptedSource::new(script);
    let mut out: Vec<i16> = vec![0; 7];
    write_frames(&mut out, 2, &mut src);
    assert_eq!(src.pos, 3);
    assert_eq!(out, vec![1, 1, 2, 2, 3, 3, 0]);
}

#[test]
fn empty_buffer_draws_nothing() {
    let script = vec![(Amplitude::from_raw(1), Amplitude::from_raw(1))];
    let mut src = ScriptedSource::new(script);
    let mut out: Vec<i16> = Vec::new();
    write_frames(&mut out, 2, &mut src);
    assert_eq!(src.pos, 0);
    assert!(out.is_empty());
}

#[test]
fn buffer_shorter_than_one_frame_is_untouched() {
    let script = vec![(Amplitude::from_raw(1), Amplitude::from_raw(1))];
    let mut src = ScriptedSource::new(script);
    let mut out: Vec<i16> = vec![42; 3];
    write_frames(&mut out, 4, &mut src);
    assert_eq!(src.pos, 0);
    assert_eq!(out, vec![42, 42, 42]);
}

#[test]
fn set_sample_rate_before_first_sample() {
    let mut src = ConstSource::new(Amplitude::from_raw(8), Amplitude::from_raw(-8));
    src.set_sample_rate(44100);
    let mut out: Vec<i16> = vec![0; 2];
    write_frames(&mut out, 2, &mut src);
    assert_eq!(out, vec![8, -8]);
}
