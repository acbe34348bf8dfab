use petalsonic::config::PetalSonicWorldDesc;
use petalsonic::engine::AudioEngine;
use petalsonic::error::PetalSonicError;
use petalsonic::events::{PetalSonicEvent, RenderTimingEvent};
use petalsonic::math::Vec3Bits;
use petalsonic::world::SourceId;

#[test]
fn engine_lifecycle() {
    let mut engine = AudioEngine::new(PetalSonicWorldDesc::default()).unwrap();
    assert!(!engine.is_running());
    engine.start().unwrap();
    assert!(engine.is_running());
    engine.start().unwrap();
    assert!(engine.is_running());
    engine.stop().unwrap();
    assert!(!engine.is_running());
}

#[test]
fn engine_rejects_zero_configuration() {
    let mut desc = PetalSonicWorldDesc::default();
    desc.channels = 0;
    match AudioEngine::new(desc) {
        Err(PetalSonicError::Configuration(_)) => {}
        _ => panic!("expected a Configuration error"),
    }
}

#[test]
fn event_source_ids() {
    let id = SourceId(3);
    assert_eq!(
        PetalSonicEvent::SourceCompleted { source_id: id }.source_id(),
        Some(id)
    );
    assert_eq!(
        PetalSonicEvent::SourceLooped {
            source_id: id,
            loop_count: 2
        }
        .source_id(),
        Some(id)
    );
    assert_eq!(
        PetalSonicEvent::BufferUnderrun { source_id: None }.source_id(),
        None
    );
    assert_eq!(PetalSonicEvent::EngineStarted.source_id(), None);
}

#[test]
fn event_classification() {
    let id = SourceId(0);
    assert!(PetalSonicEvent::BufferUnderrun { source_id: None }.is_error());
    assert!(PetalSonicEvent::EngineError {
        error: "lost the device".to_string()
    }
    .is_error());
    assert!(!PetalSonicEvent::SourceCompleted { source_id: id }.is_error());

    assert!(PetalSonicEvent::SourceCompleted { source_id: id }.is_source_event());
    assert!(PetalSonicEvent::SourceLooped {
        source_id: id,
        loop_count: 1
    }
    .is_source_event());
    assert!(!PetalSonicEvent::EngineStopped.is_source_event());
    assert!(!PetalSonicEvent::BufferUnderrun { source_id: Some(id) }.is_source_event());

    let moved = PetalSonicEvent::SourcePoseChanged {
        source_id: id,
        old_position: Vec3Bits::new(0, 0, 0),
        new_position: Vec3Bits::new(1, 2, 3),
    };
    assert!(moved.is_source_event());
    assert!(!moved.is_error());
}

#[test]
fn timing_events_carry_their_numbers() {
    let timing = RenderTimingEvent {
        mixing_time_us: 120,
        spatial_time_us: 40,
        resampling_time_us: 15,
        total_time_us: 180,
    };
    assert_eq!(timing.mixing_time_us, 120);
    assert_eq!(timing.total_time_us, 180);
}

#[test]
fn error_messages_are_kept() {
    let err = PetalSonicError::AudioDevice("no default output device".to_string());
    assert_eq!(err.message().as_str(), "no default output device");
}
