use ame_audio::{
    duration_from_frames, AudioError, DecodeAction, Decoder, MediaTime, PacketEvent, SampleRing,
    SILENCE,
};
use audioadapter_buffers::direct::InterleavedSlice;
use rubato::{
    Async, FixedAsync, Resampler, SincInterpolationParameters, SincInterpolationType,
    WindowFunction,
};

fn deliver(decoder: &mut Decoder, frames: u64) -> u64 {
    match decoder.on_packet(PacketEvent::Decoded { frames }) {
        DecodeAction::Deliver { position_ms, .. } => position_ms,
        other => panic!("expected a delivery, got {:?}", other),
    }
}

#[test]
fn stream_without_sample_rate_is_unsupported() {
    let r = Decoder::new(None, Some(2), 48000, None);
    assert_eq!(r.err(), Some(AudioError::UnsupportedFormat));
    let r = Decoder::new(Some(0), Some(2), 48000, None);
    assert_eq!(r.err(), Some(AudioError::UnsupportedFormat));
}

#[test]
fn stream_without_channels_is_unsupported() {
    let r = Decoder::new(Some(44100), None, 48000, None);
    assert_eq!(r.err(), Some(AudioError::UnsupportedFormat));
    let r = Decoder::new(Some(44100), Some(0), 48000, None);
    assert_eq!(r.err(), Some(AudioError::UnsupportedFormat));
    let r = Decoder::new(Some(44100), Some(2), 0, None);
    assert_eq!(r.err(), Some(AudioError::UnsupportedFormat));
}

#[test]
fn position_follows_decoded_frames() {
    let mut d = Decoder::new(Some(44100), Some(2), 44100, None).unwrap();
    assert_eq!(d.position_ms(), 0);
    assert_eq!(deliver(&mut d, 22050), 500);
    assert_eq!(deliver(&mut d, 22050), 1000);
    assert_eq!(deliver(&mut d, 441), 1010);
    assert_eq!(d.frames_decoded(), 44541);
}

#[test]
fn position_is_offset_by_the_start() {
    let start = MediaTime::from_millis(2500);
    let mut d = Decoder::new(Some(48000), Some(2), 48000, Some(start)).unwrap();
    assert_eq!(d.position_ms(), 2500);
    assert_eq!(deliver(&mut d, 4800), 2600);
}

#[test]
fn seek_happens_only_for_a_later_start() {
    let d = Decoder::new(Some(44100), Some(2), 44100, None).unwrap();
    assert_eq!(d.seek_target(), None);
    let d = Decoder::new(Some(44100), Some(2), 44100, Some(MediaTime::zero())).unwrap();
    assert_eq!(d.seek_target(), None);
    let t = MediaTime::new(3, 250_000_000);
    let d = Decoder::new(Some(44100), Some(2), 44100, Some(t)).unwrap();
    assert_eq!(d.seek_target(), Some(t));
}

#[test]
fn end_of_stream_finishes_successfully() {
    let mut d = Decoder::new(Some(44100), Some(2), 44100, None).unwrap();
    deliver(&mut d, 1152);
    assert_eq!(d.on_packet(PacketEvent::EndOfStream), DecodeAction::Finish(Ok(())));
    assert_eq!(d.frames_decoded(), 1152);
}

#[test]
fn corrupt_packet_ends_the_decoder_but_output_keeps_emitting_silence() {
    let ring = SampleRing::new(64);
    let (mut producer, mut consumer) = ring.split();
    let mut d = Decoder::new(Some(44100), Some(2), 44100, None).unwrap();
    deliver(&mut d, 2);
    producer.push_slice(&[1, 2, 3, 4]);
    let failure = AudioError::Decode("malformed frame header".to_string());
    assert_eq!(
        d.on_packet(PacketEvent::Failed(failure.clone())),
        DecodeAction::Finish(Err(failure))
    );
    let mut out = vec![5u32; 6];
    assert_eq!(consumer.fill_output(&mut out), 4);
    assert_eq!(out, vec![1, 2, 3, 4, SILENCE, SILENCE]);
    for _ in 0..3 {
        let mut out = vec![5u32; 6];
        assert_eq!(consumer.fill_output(&mut out), 0);
        assert_eq!(out, vec![SILENCE; 6]);
    }
}

#[test]
fn resampling_is_needed_only_between_different_rates() {
    let d = Decoder::new(Some(44100), Some(2), 44100, None).unwrap();
    assert!(!d.needs_resampling());
    let d = Decoder::new(Some(44100), Some(2), 48000, None).unwrap();
    assert!(d.needs_resampling());
}

#[test]
fn resampler_input_waits_for_whole_frames() {
    let d = Decoder::new(Some(44100), Some(2), 48000, None).unwrap();
    assert_eq!(d.resampler_input_len(2047, 1024), None);
    assert_eq!(d.resampler_input_len(2048, 1024), Some(2048));
    assert_eq!(d.resampler_input_len(5000, 1024), Some(2048));
    assert_eq!(d.resampler_input_len(5000, 0), None);
    assert_eq!(d.samples_in_frames(7), Some(14));
    assert_eq!(d.samples_in_frames(usize::MAX), None);
}

#[test]
fn resampling_44100_to_48000_produces_the_expected_count() {
    let d = Decoder::new(Some(44100), Some(2), 48000, None).unwrap();
    assert!(d.needs_resampling());
    let ratio = 48000f64 / 44100f64;
    assert!((ratio - 1.088).abs() < 0.001);

    let params = SincInterpolationParameters {
        sinc_len: 64,
        f_cutoff: Some(0.95),
        interpolation: SincInterpolationType::Linear,
        oversampling_factor: 128,
        window: WindowFunction::BlackmanHarris2,
    };
    let mut resampler =
        Async::<f32>::new_sinc(ratio, 1.1, &params, 1024, 2, FixedAsync::Input).unwrap();
    let mut staged = vec![0.0f32; 44100 * 2];
    let mut consumed = 0usize;
    let mut produced = 0usize;
    while let Some(n) = d.resampler_input_len(staged.len(), resampler.input_frames_next()) {
        let in_frames = n / 2;
        let input = InterleavedSlice::new(&staged[..n], 2, in_frames).unwrap();
        let out_cap = resampler.process_all_needed_output_len(in_frames);
        let mut out = vec![0.0f32; out_cap * 2];
        let mut output = InterleavedSlice::new_mut(&mut out, 2, out_cap).unwrap();
        let (n_in, n_out) = resampler.process_into_buffer(&input, &mut output, None).unwrap();
        staged.drain(..d.samples_in_frames(n_in).unwrap());
        consumed += n_in;
        produced += n_out;
    }
    assert!(staged.len() < 1024 * 2);
    let expected = consumed as f64 * ratio;
    assert!((produced as f64 - expected).abs() <= 4.0, "{} vs {}", produced, expected);
}

#[test]
fn full_decode_ends_at_the_probed_duration() {
    let total: u64 = 441_000;
    let duration = duration_from_frames(Some(total), Some(44100)).unwrap();
    let mut d = Decoder::new(Some(44100), Some(2), 44100, None).unwrap();
    let mut left = total;
    let mut last = 0;
    while left > 0 {
        let chunk = left.min(1152);
        let p = deliver(&mut d, chunk);
        assert!(p >= last);
        last = p;
        left -= chunk;
    }
    assert_eq!(d.frames_decoded(), total);
    assert_eq!(last, duration.as_millis());
    assert_eq!(last, 10_000);
}

#[test]
fn frame_count_matches_duration_times_rate() {
    let total: u64 = 1_234_567;
    let rate: u32 = 48000;
    let d = duration_from_frames(Some(total), Some(rate)).unwrap();
    let nanos = d.secs() as u128 * 1_000_000_000 + d.subsec_nanos() as u128;
    let frames_from_duration = nanos * rate as u128 / 1_000_000_000;
    assert!(total as u128 - frames_from_duration <= 1);
}
