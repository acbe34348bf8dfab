use std::sync::Arc;

use petalsonic::audio_data::PetalSonicAudioData;
use petalsonic::config::{PetalSonicWorldDesc, SourceConfig};
use petalsonic::engine::process_playback_commands;
use petalsonic::error::PetalSonicError;
use petalsonic::math::{Pose, QuatBits, Vec3Bits};
use petalsonic::playback::{LoopMode, PlayState, PlaybackInstance};
use petalsonic::world::{PetalSonicAudioListener, PetalSonicAudioSource, PetalSonicWorld, SourceId};

fn world() -> PetalSonicWorld {
    PetalSonicWorld::new(PetalSonicWorldDesc::default()).unwrap()
}

fn mono_data(samples: Vec<f32>, rate: u32) -> Arc<PetalSonicAudioData> {
    let bits: Vec<u32> = samples.iter().map(|s| s.to_bits()).collect();
    Arc::new(PetalSonicAudioData::new(bits, rate, 1).unwrap())
}

#[test]
fn world_descriptor_defaults() {
    let desc = PetalSonicWorldDesc::default();
    assert_eq!(desc.sample_rate, 48000);
    assert_eq!(desc.block_size, 1024);
    assert_eq!(desc.channels, 2);
    assert_eq!(desc.buffer_duration_micros, 10000);
    assert_eq!(desc.max_sources, 64);
    assert!(desc.hrtf_path.is_none());
}

#[test]
fn world_rejects_zero_configuration() {
    let mut desc = PetalSonicWorldDesc::default();
    desc.sample_rate = 0;
    assert!(PetalSonicWorld::new(desc).is_err());
    let mut desc = PetalSonicWorldDesc::default();
    desc.block_size = 0;
    assert!(PetalSonicWorld::new(desc).is_err());
    let mut desc = PetalSonicWorldDesc::default();
    desc.channels = 0;
    assert!(PetalSonicWorld::new(desc).is_err());
}

#[test]
fn registration_mints_fresh_dense_handles() {
    let mut w = world();
    let a = w
        .register_audio(mono_data(vec![0.5; 10], 48000), SourceConfig::non_spatial())
        .unwrap();
    let b = w
        .register_audio(mono_data(vec![0.5; 10], 48000), SourceConfig::non_spatial())
        .unwrap();
    assert_eq!(a, SourceId(0));
    assert_eq!(b, SourceId(1));
    assert!(w.contains_audio(a));
    assert!(w.contains_audio(b));
    assert_eq!(w.get_audio_source_ids(), vec![a, b]);
}

// Registering audio at the world rate stores the buffer bit-identical
// to the input.
#[test]
fn registration_at_world_rate_stores_identically() {
    let mut w = world();
    let samples: Vec<f32> = vec![0.1, -0.2, 0.3, 1.0, -1.0];
    let data = mono_data(samples.clone(), 48000);
    let original_bits: Vec<u32> = samples.iter().map(|s| s.to_bits()).collect();
    let id = w.register_audio(data, SourceConfig::non_spatial()).unwrap();
    let stored = w.get_audio_data(id).unwrap();
    assert_eq!(stored.samples(), &original_bits);
    assert_eq!(stored.sample_rate(), 48000);
}

// Audio at any other rate is rejected: the offline resampling to the
// world rate happens outside the engine, before registration.
#[test]
fn registration_rejects_mismatched_rate() {
    let mut w = world();
    let data = mono_data(vec![0.5; 10], 96000);
    match w.register_audio(data, SourceConfig::non_spatial()) {
        Err(PetalSonicError::AudioFormat(_)) => {}
        _ => panic!("expected an AudioFormat error"),
    }
    assert!(w.get_audio_source_ids().is_empty());
}

#[test]
fn add_source_matches_register_audio() {
    let mut w = world();
    let id = w
        .add_source(mono_data(vec![0.5; 10], 48000), SourceConfig::non_spatial())
        .unwrap();
    assert_eq!(id, SourceId(0));
    assert!(w.contains_audio(id));
}

#[test]
fn removal_forgets_the_source() {
    let mut w = world();
    let id = w
        .register_audio(mono_data(vec![0.5; 4], 48000), SourceConfig::non_spatial())
        .unwrap();
    let removed = w.remove_audio_data(id).unwrap();
    assert_eq!(removed.total_frames(), 4);
    assert!(!w.contains_audio(id));
    assert!(w.get_audio_data(id).is_none());
    assert!(w.remove_audio_data(id).is_none());
}

#[test]
fn listener_pose_round_trips() {
    let mut w = world();
    assert_eq!(w.listener().pose(), Pose::identity());
    let pose = Pose::new(
        Vec3Bits::new(1.0f32.to_bits(), 2.0f32.to_bits(), 3.0f32.to_bits()),
        QuatBits::identity(),
    );
    w.set_listener_pose(pose);
    assert_eq!(w.listener().pose(), pose);

    let mut listener = PetalSonicAudioListener::default();
    listener.set_pose(pose);
    assert_eq!(listener.pose(), pose);
}

#[test]
fn play_on_unknown_id_fails_before_the_channel() {
    let mut w = world();
    match w.play(SourceId(42), LoopMode::Once) {
        Err(PetalSonicError::Engine(_)) => {}
        _ => panic!("expected an Engine error"),
    }
    // Nothing was enqueued for the render side.
    assert!(w.try_recv_command().is_none());
}

#[test]
fn update_source_config_requires_a_known_id() {
    let mut w = world();
    assert!(w
        .update_source_config(SourceId(0), SourceConfig::non_spatial())
        .is_err());
    let id = w
        .register_audio(mono_data(vec![0.5; 4], 48000), SourceConfig::non_spatial())
        .unwrap();
    let position = Vec3Bits::new(1.0f32.to_bits(), 0, 0);
    assert!(w
        .update_source_config(id, SourceConfig::spatial(position))
        .is_ok());
}

// Commands issued by the host apply in issue order: Play, Pause, Play
// leaves the source playing, resumed at its paused position.
#[test]
fn commands_apply_in_issue_order() {
    let mut w = world();
    let id = w
        .register_audio(mono_data(vec![0.5; 100], 48000), SourceConfig::non_spatial())
        .unwrap();
    let mut active: Vec<PlaybackInstance> = Vec::new();

    w.play(id, LoopMode::Once).unwrap();
    process_playback_commands(&w, &mut active, 64);
    assert_eq!(active.len(), 1);
    assert!(matches!(active[0].info.play_state, PlayState::Playing));

    // Advance some frames, then pause and resume through the channel.
    active[0].fill_buffer(25);
    w.pause(id).unwrap();
    w.play(id, LoopMode::Once).unwrap();
    process_playback_commands(&w, &mut active, 64);
    assert_eq!(active.len(), 1);
    assert!(matches!(active[0].info.play_state, PlayState::Playing));
    // The cursor is exactly where the pause left it.
    assert_eq!(active[0].info.current_frame, 25);
}

#[test]
fn stop_and_stop_all_transition_instances() {
    let mut w = world();
    let a = w
        .register_audio(mono_data(vec![0.5; 100], 48000), SourceConfig::non_spatial())
        .unwrap();
    let b = w
        .register_audio(mono_data(vec![0.5; 100], 48000), SourceConfig::non_spatial())
        .unwrap();
    let mut active: Vec<PlaybackInstance> = Vec::new();
    w.play(a, LoopMode::Once).unwrap();
    w.play(b, LoopMode::Once).unwrap();
    process_playback_commands(&w, &mut active, 64);
    assert_eq!(active.len(), 2);

    w.stop(a).unwrap();
    process_playback_commands(&w, &mut active, 64);
    assert!(matches!(active[0].info.play_state, PlayState::Stopped));
    assert!(matches!(active[1].info.play_state, PlayState::Playing));

    w.stop_all().unwrap();
    process_playback_commands(&w, &mut active, 64);
    assert!(matches!(active[0].info.play_state, PlayState::Stopped));
    assert!(matches!(active[1].info.play_state, PlayState::Stopped));
}

// A Play while playing restarts from the beginning; an UpdateConfig
// replaces the configuration of the active instance.
#[test]
fn play_restarts_and_update_config_applies() {
    let mut w = world();
    let id = w
        .register_audio(mono_data(vec![0.5; 100], 48000), SourceConfig::non_spatial())
        .unwrap();
    let mut active: Vec<PlaybackInstance> = Vec::new();
    w.play(id, LoopMode::Once).unwrap();
    process_playback_commands(&w, &mut active, 64);
    active[0].fill_buffer(40);
    assert_eq!(active[0].info.current_frame, 40);

    w.play(id, LoopMode::Infinite).unwrap();
    process_playback_commands(&w, &mut active, 64);
    assert_eq!(active[0].info.current_frame, 0);
    assert_eq!(active[0].loop_mode, LoopMode::Infinite);

    let position = Vec3Bits::new(0, 1.0f32.to_bits(), 0);
    w.update_source_config(id, SourceConfig::spatial(position))
        .unwrap();
    process_playback_commands(&w, &mut active, 64);
    assert_eq!(active[0].config.position(), Some(position));
}

#[test]
fn audio_source_getters() {
    let source = PetalSonicAudioSource {
        position: Vec3Bits::new(1, 2, 3),
        volume: 1.0f32.to_bits(),
    };
    assert_eq!(source.position(), Vec3Bits::new(1, 2, 3));
    assert_eq!(source.volume(), 1.0f32.to_bits());
}

// The Pause command is the state machine's edge out of playing alone:
// it leaves a stopped instance stopped, keeping its position.
#[test]
fn pause_leaves_non_playing_instances_alone() {
    let mut w = world();
    let id = w
        .register_audio(mono_data(vec![0.5; 100], 48000), SourceConfig::non_spatial())
        .unwrap();
    let mut active: Vec<PlaybackInstance> = Vec::new();
    w.play(id, LoopMode::Once).unwrap();
    process_playback_commands(&w, &mut active, 64);
    active[0].fill_buffer(10);

    w.stop(id).unwrap();
    w.pause(id).unwrap();
    process_playback_commands(&w, &mut active, 64);
    assert!(matches!(active[0].info.play_state, PlayState::Stopped));
    assert_eq!(active[0].info.current_frame, 10);
}

// update_source_config enqueues exactly one command for the render side.
#[test]
fn update_source_config_enqueues_one_command() {
    let mut w = world();
    let id = w
        .register_audio(mono_data(vec![0.5; 4], 48000), SourceConfig::non_spatial())
        .unwrap();
    let position = Vec3Bits::new(2, 0, 0);
    w.update_source_config(id, SourceConfig::spatial(position))
        .unwrap();
    match w.try_recv_command() {
        Some(petalsonic::playback::PlaybackCommand::UpdateConfig(got_id, config)) => {
            assert_eq!(got_id, id);
            assert_eq!(config.position(), Some(position));
        }
        other => panic!("expected one UpdateConfig command, got {:?}", other),
    }
    assert!(w.try_recv_command().is_none());
}

// play enqueues exactly one Play command carrying the stored config.
#[test]
fn play_enqueues_the_stored_config() {
    let mut w = world();
    let position = Vec3Bits::new(0, 3, 0);
    let id = w
        .register_audio(
            mono_data(vec![0.5; 4], 48000),
            SourceConfig::spatial(position),
        )
        .unwrap();
    w.play(id, LoopMode::Infinite).unwrap();
    match w.try_recv_command() {
        Some(petalsonic::playback::PlaybackCommand::Play(got_id, config, mode)) => {
            assert_eq!(got_id, id);
            assert_eq!(config.position(), Some(position));
            assert_eq!(mode, LoopMode::Infinite);
        }
        other => panic!("expected one Play command, got {:?}", other),
    }
    assert!(w.try_recv_command().is_none());
}
