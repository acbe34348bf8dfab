use std::sync::Arc;

use petalsonic::audio_data::PetalSonicAudioData;
use petalsonic::config::SourceConfig;
use petalsonic::playback::{LoopMode, PlayState, PlaybackInfo, PlaybackInstance};
use petalsonic::world::SourceId;

fn mono_data(samples: Vec<f32>, rate: u32) -> Arc<PetalSonicAudioData> {
    let bits: Vec<u32> = samples.iter().map(|s| s.to_bits()).collect();
    Arc::new(PetalSonicAudioData::new(bits, rate, 1).unwrap())
}

#[test]
fn audio_data_metadata() {
    let data = mono_data(vec![0.1, 0.2, 0.3, 0.4], 48000);
    assert_eq!(data.sample_rate(), 48000);
    assert_eq!(data.channels(), 1);
    assert_eq!(data.total_frames(), 4);
    assert_eq!(data.len(), 4);
    assert!(!data.is_empty());
}

#[test]
fn audio_data_rejects_zero_configuration() {
    assert!(PetalSonicAudioData::new(vec![0, 0], 0, 1).is_err());
    assert!(PetalSonicAudioData::new(vec![0, 0], 48000, 0).is_err());
}

#[test]
fn audio_data_duration_is_exact() {
    // 72000 frames at 48 kHz last exactly 1.5 s.
    let bits: Vec<u32> = vec![0; 72000];
    let data = PetalSonicAudioData::new(bits, 48000, 1).unwrap();
    assert_eq!(data.duration(), (1, 500_000_000));
}

#[test]
fn channel_samples_extracts_planar_data() {
    let interleaved: Vec<u32> = vec![10, 20, 11, 21, 12, 22];
    let data = PetalSonicAudioData::new(interleaved, 44100, 2).unwrap();
    assert_eq!(data.channel_samples(0).unwrap(), vec![10, 11, 12]);
    assert_eq!(data.channel_samples(1).unwrap(), vec![20, 21, 22]);
    assert!(data.channel_samples(2).is_err());
}

#[test]
fn frame_range_extracts_interleaved_frames() {
    let interleaved: Vec<u32> = vec![10, 20, 11, 21, 12, 22];
    let data = PetalSonicAudioData::new(interleaved, 44100, 2).unwrap();
    assert_eq!(data.frame_range(1, 3).unwrap(), vec![11, 21, 12, 22]);
    assert_eq!(data.frame_range(0, 1).unwrap(), vec![10, 20]);
    assert!(data.frame_range(3, 3).is_err());
    assert!(data.frame_range(0, 4).is_err());
    assert!(data.frame_range(2, 1).is_err());
}

#[test]
fn playback_info_clamps_position() {
    let mut info = PlaybackInfo::new(10);
    assert_eq!(info.current_frame, 0);
    assert!(matches!(info.play_state, PlayState::Stopped));
    info.update_position(7);
    assert_eq!(info.current_frame, 7);
    assert!(!info.is_finished());
    info.update_position(25);
    assert_eq!(info.current_frame, 10);
    assert!(info.is_finished());
}

#[test]
fn state_transitions_keep_the_cursor() {
    let data = mono_data(vec![0.5; 100], 48000);
    let mut inst = PlaybackInstance::new(
        SourceId(0),
        data,
        SourceConfig::non_spatial(),
        LoopMode::Once,
    );
    inst.play_from_beginning();
    let filled = inst.fill_buffer(30);
    assert_eq!(filled.len(), 30);
    assert_eq!(inst.info.current_frame, 30);

    // Pause then resume: the cursor is exactly where it was.
    inst.pause();
    assert_eq!(inst.info.current_frame, 30);
    assert!(matches!(inst.info.play_state, PlayState::Paused));
    inst.resume();
    assert_eq!(inst.info.current_frame, 30);
    assert!(matches!(inst.info.play_state, PlayState::Playing));

    // Stop keeps the position too.
    inst.stop();
    assert_eq!(inst.info.current_frame, 30);
    assert!(matches!(inst.info.play_state, PlayState::Stopped));
}

#[test]
fn fill_buffer_returns_the_cursor_window() {
    let samples: Vec<f32> = (0..8).map(|i| i as f32 / 8.0).collect();
    let data = mono_data(samples.clone(), 48000);
    let mut inst = PlaybackInstance::new(
        SourceId(1),
        data,
        SourceConfig::non_spatial(),
        LoopMode::Once,
    );
    inst.play_from_beginning();
    let first = inst.fill_buffer(5);
    let expected: Vec<u32> = samples[0..5].iter().map(|s| s.to_bits()).collect();
    assert_eq!(first, expected);
    assert_eq!(inst.info.current_frame, 5);
    assert!(!inst.reached_end_this_iteration);

    // The rest of the data is shorter than the block: the fill stops at
    // the end, sets the end flag, and the instance stops.
    let second = inst.fill_buffer(5);
    let expected: Vec<u32> = samples[5..8].iter().map(|s| s.to_bits()).collect();
    assert_eq!(second, expected);
    assert_eq!(inst.info.current_frame, 8);
    assert!(inst.reached_end_this_iteration);
    assert!(matches!(inst.info.play_state, PlayState::Stopped));

    // Not playing: no contribution, no movement.
    let third = inst.fill_buffer(5);
    assert!(third.is_empty());
    assert_eq!(inst.info.current_frame, 8);
}

#[test]
fn spatial_input_block_zero_fills_past_the_end() {
    let data = mono_data(vec![0.25, 0.5, 0.75], 48000);
    let mut inst = PlaybackInstance::new(
        SourceId(2),
        data,
        SourceConfig::spatial(petalsonic::math::Vec3Bits::new(0, 0, 0)),
        LoopMode::Once,
    );
    inst.play_from_beginning();
    let block = inst.spatial_input_block(5);
    assert_eq!(
        block,
        vec![
            0.25f32.to_bits(),
            0.5f32.to_bits(),
            0.75f32.to_bits(),
            0,
            0
        ]
    );
    assert_eq!(inst.info.current_frame, 3);
    assert!(inst.reached_end_this_iteration);
    assert!(matches!(inst.info.play_state, PlayState::Stopped));
}

#[test]
fn check_and_clear_end_flag_reports_once() {
    let data = mono_data(vec![0.5; 4], 48000);
    let mut inst = PlaybackInstance::new(
        SourceId(3),
        data,
        SourceConfig::non_spatial(),
        LoopMode::Infinite,
    );
    inst.play_from_beginning();
    inst.fill_buffer(4);
    assert_eq!(inst.check_and_clear_end_flag(), Some(LoopMode::Infinite));
    assert_eq!(inst.check_and_clear_end_flag(), None);
}

// The cursor never passes the end of the data, whatever is asked of
// the instance.
#[test]
fn cursor_stays_within_bounds() {
    let data = mono_data(vec![0.5; 6], 48000);
    let mut inst = PlaybackInstance::new(
        SourceId(4),
        data,
        SourceConfig::non_spatial(),
        LoopMode::Once,
    );
    inst.play_from_beginning();
    inst.fill_buffer(1000);
    assert_eq!(inst.info.current_frame, 6);
    assert_eq!(inst.info.total_frames, 6);
}
