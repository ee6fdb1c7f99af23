use ame_audio::{
    check_output_format, AudioError, DecodeAction, Decoder, EngineState, MediaTime, OutputConfig,
    PacketEvent, PlaybackState, SampleFormat,
};

fn config(sample_rate: u32, channels: u16, format: SampleFormat) -> OutputConfig {
    OutputConfig { sample_rate, channels, format }
}

fn engine() -> EngineState {
    EngineState::new(config(48000, 2, SampleFormat::F32)).unwrap()
}

fn deliver(decoder: &mut Decoder, frames: u64) -> u64 {
    match decoder.on_packet(PacketEvent::Decoded { frames }) {
        DecodeAction::Deliver { position_ms, .. } => position_ms,
        other => panic!("expected a delivery, got {:?}", other),
    }
}

#[test]
fn new_engine_is_idle() {
    let e = engine();
    assert_eq!(e.state(), PlaybackState::Idle);
    assert_eq!(e.position_ms(), 0);
    assert_eq!(e.retained_path(), None);
    assert_eq!(e.config(), config(48000, 2, SampleFormat::F32));
}

#[test]
fn config_without_room_for_a_ring_is_refused() {
    let r = EngineState::new(config(0, 2, SampleFormat::F32));
    assert_eq!(r.err(), Some(AudioError::DeviceNotAvailable));
    let r = EngineState::new(config(48000, 0, SampleFormat::F32));
    assert_eq!(r.err(), Some(AudioError::DeviceNotAvailable));
}

#[test]
fn output_formats_the_callback_writes() {
    assert_eq!(check_output_format(SampleFormat::F32), Ok(()));
    assert_eq!(check_output_format(SampleFormat::I16), Ok(()));
    assert_eq!(check_output_format(SampleFormat::U16), Ok(()));
    assert_eq!(check_output_format(SampleFormat::I32), Err(AudioError::UnsupportedFormat));
    assert_eq!(check_output_format(SampleFormat::F64), Err(AudioError::UnsupportedFormat));
    assert_eq!(check_output_format(SampleFormat::Other), Err(AudioError::UnsupportedFormat));
}

#[test]
fn play_of_a_file_retains_it_and_tracks_position() {
    let mut e = engine();
    let plan = e.play(Some("/music/a.flac".to_string())).unwrap();
    assert_eq!(plan.ring_capacity, 192000);
    assert_eq!(plan.start, None);
    assert_eq!(plan.position_ms, 0);
    assert!(plan.track_position);
    assert!(plan.start_output);
    assert_eq!(e.state(), PlaybackState::Playing);
    assert_eq!(e.retained_path(), Some("/music/a.flac"));
}

#[test]
fn play_of_a_stream_retains_nothing() {
    let mut e = engine();
    let plan = e.play(None).unwrap();
    assert!(!plan.track_position);
    assert_eq!(e.retained_path(), None);
    assert_eq!(e.seek(MediaTime::from_millis(1000)).err(), Some(AudioError::SeekUnsupported));
    assert_eq!(e.state(), PlaybackState::Playing);
}

#[test]
fn play_on_an_unsupported_format_leaves_the_engine_idle() {
    let mut e = EngineState::new(config(48000, 2, SampleFormat::I32)).unwrap();
    let r = e.play(Some("/music/a.flac".to_string()));
    assert_eq!(r.err(), Some(AudioError::UnsupportedFormat));
    assert_eq!(e.state(), PlaybackState::Idle);
    assert_eq!(e.retained_path(), None);
}

#[test]
fn pause_resume_and_stop() {
    let mut e = engine();
    assert!(!e.pause());
    assert!(!e.resume());
    assert_eq!(e.state(), PlaybackState::Idle);
    e.play(Some("/a.flac".to_string())).unwrap();
    assert!(e.pause());
    assert_eq!(e.state(), PlaybackState::Paused);
    assert!(e.resume());
    assert_eq!(e.state(), PlaybackState::Playing);
    e.seek(MediaTime::from_millis(3000)).unwrap();
    e.stop();
    assert_eq!(e.state(), PlaybackState::Idle);
    assert_eq!(e.position_ms(), 0);
    assert_eq!(e.retained_path(), None);
}

#[test]
fn seek_without_a_session_is_unsupported_and_changes_nothing() {
    let mut e = engine();
    assert_eq!(e.seek(MediaTime::from_millis(2000)).err(), Some(AudioError::SeekUnsupported));
    assert_eq!(e.state(), PlaybackState::Idle);
    assert_eq!(e.position_ms(), 0);
}

#[test]
fn seek_while_paused_stays_paused() {
    let mut e = engine();
    e.play(Some("/a.flac".to_string())).unwrap();
    e.pause();
    let plan = e.seek(MediaTime::from_millis(7000)).unwrap();
    assert!(!plan.start_output);
    assert_eq!(plan.start, Some(MediaTime::from_millis(7000)));
    assert_eq!(e.state(), PlaybackState::Paused);
    assert_eq!(e.position_ms(), 7000);
}

#[test]
fn session_failure_returns_to_idle() {
    let mut e = engine();
    e.play(Some("/a.flac".to_string())).unwrap();
    e.session_failed();
    assert_eq!(e.state(), PlaybackState::Idle);
    assert_eq!(e.retained_path(), None);
}

#[test]
fn switching_output_stops_the_session() {
    let mut e = engine();
    e.play(Some("/a.flac".to_string())).unwrap();
    assert_eq!(e.set_output(config(0, 2, SampleFormat::F32)), Err(AudioError::DeviceNotAvailable));
    assert_eq!(e.state(), PlaybackState::Playing);
    assert_eq!(e.set_output(config(44100, 1, SampleFormat::I16)), Ok(()));
    assert_eq!(e.state(), PlaybackState::Idle);
    assert_eq!(e.config(), config(44100, 1, SampleFormat::I16));
    let plan = e.play(None).unwrap();
    assert_eq!(plan.ring_capacity, 88200);
}

#[test]
fn seek_publishes_the_target_before_decoding_resumes() {
    let mut e = engine();
    e.play(Some("/a.flac".to_string())).unwrap();
    let target = MediaTime::new(2, 0);
    let plan = e.seek(target).unwrap();
    assert_eq!(e.position_ms(), 2000);
    assert_eq!(plan.position_ms, 2000);
    let d = Decoder::new(Some(44100), Some(2), 48000, plan.start).unwrap();
    assert_eq!(d.position_ms(), 2000);
    assert_eq!(d.seek_target(), Some(target));
}

#[test]
fn ten_second_file_seek_back_to_two_seconds() {
    let rate: u32 = 44100;
    let total_frames: u64 = 10 * rate as u64;
    let packet: u64 = 1152;

    let mut e = EngineState::new(config(rate, 2, SampleFormat::F32)).unwrap();
    let plan = e.play(Some("/music/ten_seconds.wav".to_string())).unwrap();
    assert!(plan.track_position);
    let mut d = Decoder::new(Some(rate), Some(2), rate, plan.start).unwrap();
    let mut position = d.position_ms();
    while position < 5000 {
        position = deliver(&mut d, packet);
    }
    assert!(position >= 5000);

    let plan = e.seek(MediaTime::from_millis(2000)).unwrap();
    assert_eq!(e.position_ms(), 2000);
    assert!(plan.start_output);
    let mut d = Decoder::new(Some(rate), Some(2), rate, plan.start).unwrap();
    assert_eq!(d.position_ms(), 2000);
    let mut left = total_frames - 2 * rate as u64;
    let mut last = 2000;
    while left > 0 {
        let chunk = left.min(packet);
        let p = deliver(&mut d, chunk);
        assert!(p >= last);
        assert!(p <= 10_000);
        last = p;
        left -= chunk;
    }
    assert_eq!(d.on_packet(PacketEvent::EndOfStream), DecodeAction::Finish(Ok(())));
    assert_eq!(last, 10_000);
}
