use std::sync::Arc;

use petalsonic::audio_data::PetalSonicAudioData;
use petalsonic::config::SourceConfig;
use petalsonic::math::Vec3Bits;
use petalsonic::mixer::mix_playback_instances;
use petalsonic::playback::{LoopMode, PlayState, PlaybackInstance};
use petalsonic::world::SourceId;

fn mono_data(samples: Vec<f32>, rate: u32) -> Arc<PetalSonicAudioData> {
    let bits: Vec<u32> = samples.iter().map(|s| s.to_bits()).collect();
    Arc::new(PetalSonicAudioData::new(bits, rate, 1).unwrap())
}

fn playing(
    id: u64,
    samples: Vec<f32>,
    config: SourceConfig,
    loop_mode: LoopMode,
) -> PlaybackInstance {
    let mut inst = PlaybackInstance::new(SourceId(id), mono_data(samples, 48000), config, loop_mode);
    inst.play_from_beginning();
    inst
}

#[test]
fn non_spatial_sources_contribute_their_samples() {
    let mut active = vec![
        playing(0, vec![0.1; 100], SourceConfig::non_spatial(), LoopMode::Once),
        playing(1, vec![0.2; 50], SourceConfig::non_spatial(), LoopMode::Once),
    ];
    let (result, contributions, spatial) = mix_playback_instances(&mut active, 32, false);
    assert_eq!(result.frames_filled, 32);
    assert!(result.completed_sources.is_empty());
    assert!(result.looped_sources.is_empty());
    assert!(spatial.is_empty());
    assert_eq!(contributions.len(), 2);
    assert_eq!(contributions[0].source_id, SourceId(0));
    assert_eq!(contributions[0].samples, vec![0.1f32.to_bits(); 32]);
    assert_eq!(contributions[1].source_id, SourceId(1));
    assert_eq!(contributions[1].samples, vec![0.2f32.to_bits(); 32]);
    assert_eq!(active.len(), 2);
    assert_eq!(active[0].info.current_frame, 32);
    assert_eq!(active[1].info.current_frame, 32);
}

#[test]
fn spatial_sources_feed_the_processor_when_available() {
    let position = Vec3Bits::new(1.0f32.to_bits(), 0, 0);
    let config = SourceConfig::spatial_with_volume(position, 0.5f32.to_bits());
    let mut active = vec![playing(7, vec![0.25; 10], config, LoopMode::Once)];
    let (result, contributions, spatial) = mix_playback_instances(&mut active, 4, true);
    assert_eq!(result.frames_filled, 4);
    assert!(contributions.is_empty());
    assert_eq!(spatial.len(), 1);
    assert_eq!(spatial[0].source_id, SourceId(7));
    assert_eq!(spatial[0].samples, vec![0.25f32.to_bits(); 4]);
    assert_eq!(spatial[0].position, position);
    assert_eq!(spatial[0].volume, 0.5f32.to_bits());
    assert_eq!(active[0].info.current_frame, 4);
}

// Without a spatial processor, spatial sources stay silent and frozen:
// their cursors do not advance.
#[test]
fn spatial_sources_are_skipped_without_a_processor() {
    let config = SourceConfig::spatial(Vec3Bits::new(0, 0, 0));
    let mut active = vec![playing(3, vec![0.25; 10], config, LoopMode::Once)];
    let (result, contributions, spatial) = mix_playback_instances(&mut active, 4, false);
    assert_eq!(result.frames_filled, 0);
    assert!(contributions.is_empty());
    assert!(spatial.is_empty());
    assert_eq!(active[0].info.current_frame, 0);
    assert!(matches!(active[0].info.play_state, PlayState::Playing));
}

#[test]
fn once_source_completes_and_is_removed() {
    let mut active = vec![playing(5, vec![0.5; 10], SourceConfig::non_spatial(), LoopMode::Once)];
    let (result, contributions, _) = mix_playback_instances(&mut active, 16, false);
    assert_eq!(result.frames_filled, 10);
    assert_eq!(result.completed_sources, vec![SourceId(5)]);
    assert!(result.looped_sources.is_empty());
    assert_eq!(contributions[0].samples.len(), 10);
    assert!(active.is_empty());
}

#[test]
fn infinite_source_loops_and_restarts() {
    let mut active =
        vec![playing(9, vec![0.5; 10], SourceConfig::non_spatial(), LoopMode::Infinite)];
    let (result, _, _) = mix_playback_instances(&mut active, 16, false);
    assert!(result.completed_sources.is_empty());
    assert_eq!(result.looped_sources, vec![SourceId(9)]);
    // The restarted instance survives, playing from the beginning; its
    // continuation is rendered in the next block, not this one.
    assert_eq!(active.len(), 1);
    assert_eq!(active[0].info.current_frame, 0);
    assert!(matches!(active[0].info.play_state, PlayState::Playing));
    assert!(!active[0].reached_end_this_iteration);

    let (result, contributions, _) = mix_playback_instances(&mut active, 4, false);
    assert!(result.looped_sources.is_empty());
    assert_eq!(contributions[0].samples.len(), 4);
    assert_eq!(active[0].info.current_frame, 4);
}

// A zero-frame buffer played with loop mode `Once` completes on the
// first block and contributes no samples.
#[test]
fn empty_source_completes_immediately() {
    let mut active = vec![playing(2, vec![], SourceConfig::non_spatial(), LoopMode::Once)];
    let (result, contributions, _) = mix_playback_instances(&mut active, 16, false);
    assert_eq!(result.completed_sources, vec![SourceId(2)]);
    assert_eq!(contributions.len(), 1);
    assert!(contributions[0].samples.is_empty());
    assert!(active.is_empty());
}

// After every mixer block, no instance still carries the transient
// end flag.
#[test]
fn end_flags_are_clear_after_a_block() {
    let mut active = vec![
        playing(0, vec![0.5; 3], SourceConfig::non_spatial(), LoopMode::Once),
        playing(1, vec![0.5; 30], SourceConfig::non_spatial(), LoopMode::Once),
        playing(2, vec![0.5; 3], SourceConfig::non_spatial(), LoopMode::Infinite),
    ];
    mix_playback_instances(&mut active, 8, false);
    for inst in &active {
        assert!(!inst.reached_end_this_iteration);
    }
}

// Paused and stopped instances do not contribute; a stopped instance
// is dropped from the active set.
#[test]
fn paused_and_stopped_instances_do_not_mix() {
    let mut paused = playing(0, vec![0.5; 10], SourceConfig::non_spatial(), LoopMode::Once);
    paused.pause();
    let mut stopped = playing(1, vec![0.5; 10], SourceConfig::non_spatial(), LoopMode::Once);
    stopped.stop();
    let mut active = vec![paused, stopped];
    let (result, contributions, _) = mix_playback_instances(&mut active, 8, false);
    assert_eq!(result.frames_filled, 0);
    assert!(contributions.is_empty());
    assert_eq!(active.len(), 1);
    assert_eq!(active[0].audio_id, SourceId(0));
    assert_eq!(active[0].info.current_frame, 0);
}

// An instance that reaches its end mid-block contributes only the
// frames up to the end.
#[test]
fn end_mid_block_truncates_the_contribution() {
    let samples: Vec<f32> = (0..6).map(|i| i as f32).collect();
    let mut active = vec![playing(4, samples.clone(), SourceConfig::non_spatial(), LoopMode::Once)];
    let (result, contributions, _) = mix_playback_instances(&mut active, 10, false);
    assert_eq!(result.frames_filled, 6);
    let expected: Vec<u32> = samples.iter().map(|s| s.to_bits()).collect();
    assert_eq!(contributions[0].samples, expected);
}
