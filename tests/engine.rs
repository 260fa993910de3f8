use oneamp_core::capture::AudioCaptureBuffer;
use oneamp_core::controller::{ControlInput, Effect, Notice, PlaybackController, PlaybackState};
use oneamp_core::decoder::{
    decode_step, eq_route, frames_at_timestamp, interleave, packet_step, select_track, stream_params, EqRoute,
    PacketDecode, PacketRead, PacketStep, PositionClock, SeekOutcome,
};
use oneamp_core::output::{next_stream_attempt, OutputBuffer, StreamFormat};
use oneamp_core::track::{collect_tags, TagKey, TrackInfo};

#[test]
fn test_audio_capture_buffer() {
    let mut buffer = AudioCaptureBuffer::new(1024, 0.0f32);
    let samples = buffer.get_samples();
    assert_eq!(samples.len(), 1024, "Buffer should have correct size");
    let test_samples: Vec<f32> = (0..512).map(|i| (i as f32) / 512.0).collect();
    buffer.update(&test_samples, 44100, 2);
    let retrieved = buffer.get_samples();
    assert_eq!(retrieved.len(), 1024, "Buffer size should remain constant");
    assert_eq!(buffer.sample_rate(), 44100);
    assert_eq!(buffer.channels(), 2);
}

#[test]
fn capture_keeps_only_latest_chunk() {
    let mut buffer = AudioCaptureBuffer::new(4, 0i32);
    assert_eq!(buffer.get_samples(), &[0, 0, 0, 0]);
    buffer.update(&[1, 2, 3, 4, 5, 6], 48000, 1);
    assert_eq!(buffer.get_samples(), &[1, 2, 3, 4]);
    buffer.update(&[7], 48000, 1);
    assert_eq!(buffer.get_samples(), &[7, 0, 0, 0]);
    assert_eq!(buffer.sample_rate(), 48000);
    assert_eq!(buffer.channels(), 1);
}

#[test]
fn test_track_info_creation() {
    let track = TrackInfo {
        path: "/test/path.mp3".to_string(),
        title: Some("Test Track".to_string()),
        artist: Some("Test Artist".to_string()),
        album: Some("Test Album".to_string()),
        n_frames: Some(180 * 44100),
        sample_rate: Some(44100),
        channels: Some(2),
    };
    assert_eq!(track.title, Some("Test Track".to_string()));
    assert_eq!(track.sample_rate, Some(44100));
    assert_eq!(track.channels, Some(2));
}

#[test]
fn later_tags_override_earlier_ones() {
    let tags = vec![
        (TagKey::TrackTitle, "First".to_string()),
        (TagKey::Artist, "Someone".to_string()),
        (TagKey::Other, "2001".to_string()),
        (TagKey::TrackTitle, "Second".to_string()),
    ];
    let (title, artist, album) = collect_tags(&tags);
    assert_eq!(title.as_deref(), Some("Second"));
    assert_eq!(artist.as_deref(), Some("Someone"));
    assert_eq!(album, None);
    let info = TrackInfo::from_probe("/m/a.flac".to_string(), &tags, Some(441000), Some(44100), Some(2));
    assert_eq!(info.title.as_deref(), Some("Second"));
    assert_eq!(info.channels, Some(2));
    assert_eq!(info.duration_frames(), Some(441000));
    let no_rate = TrackInfo::from_probe("/m/a.flac".to_string(), &tags, Some(441000), None, None);
    assert_eq!(no_rate.duration_frames(), None);
    assert_eq!(no_rate.channels, None);
}

#[test]
fn needs_data_below_quarter_second() {
    let mut out: OutputBuffer<f32> = OutputBuffer::new(44100, 2);
    assert!(out.needs_data());
    out.write_samples(&vec![0.5f32; 22049]);
    assert!(out.needs_data());
    out.write_samples(&[0.5f32]);
    assert!(!out.needs_data());
    assert_eq!(out.buffer_len(), 22050);
}

#[test]
fn underrun_yields_exact_silence() {
    let mut out: OutputBuffer<f32> = OutputBuffer::new(44100, 2);
    let mut data = vec![1.0f32; 512];
    out.render(&mut data, 0.0);
    assert_eq!(data.len(), 512);
    assert!(data.iter().all(|s| *s == 0.0));
}

#[test]
fn render_drains_in_order_then_pads() {
    let mut out: OutputBuffer<i16> = OutputBuffer::new(8, 1);
    out.write_samples(&[1, 2, 3]);
    let mut data = [9i16; 2];
    out.render(&mut data, 0);
    assert_eq!(data, [1, 2]);
    let mut data = [9i16; 3];
    out.render(&mut data, 0);
    assert_eq!(data, [3, 0, 0]);
    assert_eq!(out.buffer_len(), 0);
}

#[test]
fn paused_output_keeps_its_samples() {
    let mut out: OutputBuffer<i16> = OutputBuffer::new(8, 1);
    out.write_samples(&[1, 2, 3]);
    out.pause();
    assert!(!out.is_playing());
    let mut data = [9i16; 2];
    out.render(&mut data, 0);
    assert_eq!(data, [0, 0]);
    assert_eq!(out.buffer_len(), 3);
    out.play();
    assert_eq!(out.next_sample(0), 1);
    out.clear();
    assert_eq!(out.buffer_len(), 0);
    assert_eq!(out.next_sample(7), 7);
    assert_eq!(out.sample_rate(), 8);
    assert_eq!(out.channels(), 1);
}

#[test]
fn stream_attempts_requested_then_default() {
    let req = StreamFormat { sample_rate: 44100, channels: 2 };
    let def = StreamFormat { sample_rate: 48000, channels: 2 };
    assert_eq!(next_stream_attempt(req, def, 0), Some(req));
    assert_eq!(next_stream_attempt(req, def, 1), Some(def));
    assert_eq!(next_stream_attempt(req, def, 2), None);
}

#[test]
fn track_selection_and_defaults() {
    assert_eq!(select_track(&[false, true, true]), Some(1));
    assert_eq!(select_track(&[false, false]), None);
    assert_eq!(select_track(&[]), None);
    assert_eq!(stream_params(None, None), (44100, 2));
    assert_eq!(stream_params(Some(48000), Some(1)), (48000, 1));
}

#[test]
fn packet_error_policy() {
    assert_eq!(packet_step(PacketRead::Packet(3), 3), PacketStep::Decode);
    assert_eq!(packet_step(PacketRead::Packet(4), 3), PacketStep::Skip);
    assert_eq!(packet_step(PacketRead::EndOfStream, 3), PacketStep::EndOfStream);
    assert_eq!(packet_step(PacketRead::ResetRequired, 3), PacketStep::ResetDecoder);
    assert_eq!(packet_step(PacketRead::Failed, 3), PacketStep::Fail);
    assert_eq!(decode_step(PacketDecode::Decoded), PacketStep::Decode);
    assert_eq!(decode_step(PacketDecode::BadPacket), PacketStep::Skip);
    assert_eq!(decode_step(PacketDecode::Failed), PacketStep::Fail);
}

#[test]
fn equalizer_routing() {
    assert_eq!(eq_route(false, 2), EqRoute::PassThrough);
    assert_eq!(eq_route(true, 1), EqRoute::Mono);
    assert_eq!(eq_route(true, 2), EqRoute::Stereo);
    assert_eq!(eq_route(true, 6), EqRoute::PassThrough);
}

#[test]
fn interleaves_planes_frame_by_frame() {
    let planes = vec![vec![1, 2, 3], vec![10, 20, 30, 40]];
    assert_eq!(interleave(&planes, 3), vec![1, 10, 2, 20, 3, 30]);
    assert_eq!(interleave(&planes, 0), Vec::<i32>::new());
    let mono = vec![vec![5, 6]];
    assert_eq!(interleave(&mono, 2), vec![5, 6]);
}

#[test]
fn timestamps_convert_to_frames() {
    assert_eq!(frames_at_timestamp(5 * 44100 + 30870, 1, 44100, 44100), 5 * 44100 + 30870);
    assert_eq!(frames_at_timestamp(5700, 1, 1000, 48000), 273600);
    assert_eq!(frames_at_timestamp(3, 1, 2, 44100), 66150);
    assert_eq!(frames_at_timestamp(7, 1, 1000, 0), 0);
    assert_eq!(frames_at_timestamp(u64::MAX, u32::MAX, 1, 44100), u64::MAX);
}

#[test]
fn clock_counts_frames_and_seeks() {
    let mut clock = PositionClock::new(44100);
    clock.advance(2048, 2);
    assert_eq!(clock.frames(), 1024);
    clock.advance(2048, 2);
    assert_eq!(clock.frames(), 2048);
    assert!(clock.on_seek(SeekOutcome::Landed(5 * 44100), 5 * 44100 + 10));
    assert_eq!(clock.frames(), 5 * 44100);
    clock.advance(1152 * 2, 2);
    assert_eq!(clock.frames(), 5 * 44100 + 1152);
    assert!(clock.on_seek(SeekOutcome::ResetRequired, 2 * 44100));
    assert_eq!(clock.frames(), 2 * 44100);
    assert!(!clock.on_seek(SeekOutcome::Failed, 7 * 44100));
    assert_eq!(clock.frames(), 2 * 44100);
    assert!(clock.on_seek(SeekOutcome::Landed(u64::MAX), 0));
    assert_eq!(clock.frames(), u64::MAX);
    clock.advance(100, 1);
    assert_eq!(clock.frames(), u64::MAX);
    assert_eq!(clock.sample_rate(), 44100);
}

fn notices_of(c: &mut PlaybackController, inputs: &[ControlInput]) -> Vec<Notice> {
    let mut out = Vec::new();
    for i in inputs {
        for e in c.step(*i) {
            if let Effect::Emit(n) = e {
                out.push(n);
            }
        }
    }
    out
}

#[test]
fn play_pause_resume_stop_order() {
    let mut c = PlaybackController::new();
    let n = notices_of(
        &mut c,
        &[
            ControlInput::Play,
            ControlInput::TrackProbed(true),
            ControlInput::PipelineOpened(true),
            ControlInput::Pause,
            ControlInput::Resume,
            ControlInput::Stop,
        ],
    );
    assert_eq!(
        n,
        vec![Notice::TrackLoaded, Notice::Playing, Notice::Paused, Notice::Playing, Notice::Stopped]
    );
    assert_eq!(c.state, PlaybackState::Idle);
}

#[test]
fn track_plays_to_its_end() {
    let mut c = PlaybackController::new();
    let n = notices_of(
        &mut c,
        &[ControlInput::Play, ControlInput::TrackProbed(true), ControlInput::PipelineOpened(true)],
    );
    assert_eq!(n, vec![Notice::TrackLoaded, Notice::Playing]);
    let mut clock = PositionClock::new(44100);
    let mut last = clock.frames();
    for _ in 0..100 {
        let plan = c.plan_tick(true, 100);
        assert!(plan.decode && plan.report_position && plan.send_visualization);
        clock.advance(8820, 2);
        assert!(clock.frames() > last);
        last = clock.frames();
    }
    assert_eq!(clock.frames(), 441000);
    assert_eq!(c.step(ControlInput::EndOfStream), vec![Effect::ReleasePlayback, Effect::Emit(Notice::Finished)]);
    assert_eq!(c.state, PlaybackState::Idle);
    assert!(!c.plan_tick(true, 1000).decode);
}

#[test]
fn seek_mid_playback_reports_no_error() {
    let mut c = PlaybackController::new();
    notices_of(
        &mut c,
        &[ControlInput::Play, ControlInput::TrackProbed(true), ControlInput::PipelineOpened(true)],
    );
    assert_eq!(c.step(ControlInput::Seek), vec![Effect::SeekDecoder]);
    assert!(!c.plan_tick(true, 1000).decode);
    assert_eq!(
        c.step(ControlInput::SeekFinished(true)),
        vec![Effect::ClearOutput, Effect::Emit(Notice::Playing)]
    );
    assert_eq!(c.state, PlaybackState::Playing);
    let mut clock = PositionClock::new(44100);
    clock.advance(44100 * 2 * 3, 2);
    clock.on_seek(SeekOutcome::Landed(5 * 44100), 5 * 44100);
    clock.advance(4096, 2);
    assert_eq!(clock.frames(), 5 * 44100 + 2048);
    let mut reset = PositionClock::new(44100);
    reset.advance(2 * 44100 * 2, 2);
    assert!(reset.on_seek(SeekOutcome::ResetRequired, 5 * 44100));
    reset.advance(1152 * 2, 2);
    assert_eq!(reset.frames(), 5 * 44100 + 1152);
}

#[test]
fn seek_while_paused_stays_paused() {
    let mut c = PlaybackController::new();
    notices_of(
        &mut c,
        &[
            ControlInput::Play,
            ControlInput::TrackProbed(true),
            ControlInput::PipelineOpened(true),
            ControlInput::Pause,
        ],
    );
    assert_eq!(c.step(ControlInput::Seek), vec![Effect::SeekDecoder]);
    assert_eq!(
        c.step(ControlInput::SeekFinished(true)),
        vec![Effect::ClearOutput, Effect::Emit(Notice::Paused)]
    );
    assert_eq!(c.state, PlaybackState::Paused);
    let plan = c.plan_tick(true, 1000);
    assert!(!plan.decode && !plan.report_position && !plan.send_visualization);
}

#[test]
fn failures_leave_controller_idle() {
    let mut c = PlaybackController::new();
    assert_eq!(notices_of(&mut c, &[ControlInput::Play, ControlInput::TrackProbed(false)]), vec![Notice::LoadFailed]);
    assert_eq!(c.state, PlaybackState::Idle);
    let n = notices_of(
        &mut c,
        &[ControlInput::Play, ControlInput::TrackProbed(true), ControlInput::PipelineOpened(false)],
    );
    assert_eq!(n, vec![Notice::TrackLoaded, Notice::PlayFailed]);
    assert_eq!(c.state, PlaybackState::Idle);
    let n = notices_of(
        &mut c,
        &[
            ControlInput::Play,
            ControlInput::TrackProbed(true),
            ControlInput::PipelineOpened(true),
            ControlInput::Seek,
            ControlInput::SeekFinished(false),
        ],
    );
    assert_eq!(n, vec![Notice::TrackLoaded, Notice::Playing, Notice::SeekFailed]);
    assert_eq!(c.state, PlaybackState::Idle);
}

#[test]
fn ignored_and_final_inputs() {
    let mut c = PlaybackController::new();
    assert!(c.step(ControlInput::Pause).is_empty());
    assert!(c.step(ControlInput::Resume).is_empty());
    assert!(c.step(ControlInput::Seek).is_empty());
    assert!(c.step(ControlInput::EndOfStream).is_empty());
    assert_eq!(c.step(ControlInput::Next), vec![Effect::ReleasePlayback, Effect::Emit(Notice::RequestNext)]);
    assert_eq!(
        c.step(ControlInput::Previous),
        vec![Effect::ReleasePlayback, Effect::Emit(Notice::RequestPrevious)]
    );
    assert_eq!(c.step(ControlInput::Shutdown), vec![Effect::ReleasePlayback, Effect::Exit]);
    assert!(!c.running);
    assert!(c.step(ControlInput::Play).is_empty());
}

#[test]
fn position_reports_are_throttled() {
    let mut c = PlaybackController::new();
    notices_of(
        &mut c,
        &[ControlInput::Play, ControlInput::TrackProbed(true), ControlInput::PipelineOpened(true)],
    );
    assert!(!c.plan_tick(false, 99).report_position);
    assert!(c.plan_tick(false, 100).report_position);
    assert!(!c.plan_tick(false, 100).decode);
    c.step(ControlInput::Pause);
    let plan = c.plan_tick(true, 500);
    assert!(!plan.decode && !plan.report_position && !plan.send_visualization);
}
