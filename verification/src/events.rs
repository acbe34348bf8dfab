use vstd::prelude::*;

use crate::math::Vec3Bits;
use crate::world::SourceId;

verus! {

/// Timing of one render iteration, in microseconds, for profiling.
#[derive(Clone, Copy, Debug, PartialEq, Eq, Structural)]
pub struct RenderTimingEvent {
    /// Time spent mixing audio sources.
    pub mixing_time_us: u64,
    /// Time spent on spatial processing.
    pub spatial_time_us: u64,
    /// Time spent resampling.
    pub resampling_time_us: u64,
    /// Total time of the render iteration.
    pub total_time_us: u64,
}

/// Events emitted by the engine to the host. Events carry plain values
/// only, never references to engine-internal state.
#[derive(Clone, Debug, PartialEq)]
pub enum PetalSonicEvent {
    /// A source with loop mode `Once` reached the end of its data.
    SourceCompleted {
        /// The source that completed.
        source_id: SourceId,
    },
    /// A source with loop mode `Infinite` reached the end of its data
    /// and was restarted.
    SourceLooped {
        /// The source that looped.
        source_id: SourceId,
        /// How many times the source has looped, when tracked.
        loop_count: u32,
    },
    /// A source started playing.
    SourceStarted {
        /// The source that started.
        source_id: SourceId,
    },
    /// A source was stopped.
    SourceStopped {
        /// The source that stopped.
        source_id: SourceId,
    },
    /// The device callback found too few frames in the ring buffer.
    BufferUnderrun {
        /// The source concerned, when one can be named.
        source_id: Option<SourceId>,
    },
    /// The render side could not place frames into the ring buffer.
    BufferOverrun {
        /// The source concerned, when one can be named.
        source_id: Option<SourceId>,
    },
    /// The output device changed.
    DeviceChanged {
        /// Name of the new device.
        device_name: String,
    },
    /// The spatialization backend failed for one source.
    SpatializationError {
        /// The source concerned.
        source_id: SourceId,
        /// Description of the failure.
        error: String,
    },
    /// A source reached the end of its data.
    SourceReachedEnd {
        /// The source concerned.
        source_id: SourceId,
        /// Remaining play time, in nanoseconds.
        remaining_nanos: u64,
    },
    /// A source's volume changed.
    SourceVolumeChanged {
        /// The source concerned.
        source_id: SourceId,
        /// Previous volume, as an IEEE-754 bit pattern.
        old_volume: u32,
        /// New volume, as an IEEE-754 bit pattern.
        new_volume: u32,
    },
    /// A source moved.
    SourcePoseChanged {
        /// The source concerned.
        source_id: SourceId,
        /// Previous position.
        old_position: Vec3Bits,
        /// New position.
        new_position: Vec3Bits,
    },
    /// The listener moved.
    ListenerPoseChanged {
        /// Previous position.
        old_position: Vec3Bits,
        /// New position.
        new_position: Vec3Bits,
    },
    /// The engine started.
    EngineStarted,
    /// The engine stopped.
    EngineStopped,
    /// The engine failed.
    EngineError {
        /// Description of the failure.
        error: String,
    },
}

impl PetalSonicEvent {
    /// The source the event speaks of, when it speaks of one.
    pub fn source_id(&self) -> (r: Option<SourceId>)
        ensures
            r == self.source_id_spec(),
    {
        match self {
            PetalSonicEvent::SourceCompleted { source_id } => Some(*source_id),
            PetalSonicEvent::SourceLooped { source_id, .. } => Some(*source_id),
            PetalSonicEvent::SourceStarted { source_id } => Some(*source_id),
            PetalSonicEvent::SourceStopped { source_id } => Some(*source_id),
            PetalSonicEvent::SpatializationError { source_id, .. } => Some(*source_id),
            PetalSonicEvent::SourceReachedEnd { source_id, .. } => Some(*source_id),
            PetalSonicEvent::SourceVolumeChanged { source_id, .. } => Some(*source_id),
            PetalSonicEvent::SourcePoseChanged { source_id, .. } => Some(*source_id),
            PetalSonicEvent::BufferUnderrun { source_id } => *source_id,
            PetalSonicEvent::BufferOverrun { source_id } => *source_id,
            _ => None,
        }
    }

    /// The source the event speaks of, as a value.
    pub open spec fn source_id_spec(&self) -> Option<SourceId> {
        match *self {
            PetalSonicEvent::SourceCompleted { source_id } => Some(source_id),
            PetalSonicEvent::SourceLooped { source_id, .. } => Some(source_id),
            PetalSonicEvent::SourceStarted { source_id } => Some(source_id),
            PetalSonicEvent::SourceStopped { source_id } => Some(source_id),
            PetalSonicEvent::SpatializationError { source_id, .. } => Some(source_id),
            PetalSonicEvent::SourceReachedEnd { source_id, .. } => Some(source_id),
            PetalSonicEvent::SourceVolumeChanged { source_id, .. } => Some(source_id),
            PetalSonicEvent::SourcePoseChanged { source_id, .. } => Some(source_id),
            PetalSonicEvent::BufferUnderrun { source_id } => source_id,
            PetalSonicEvent::BufferOverrun { source_id } => source_id,
            _ => None,
        }
    }

    /// Whether the event reports a failure.
    pub fn is_error(&self) -> (r: bool)
        ensures
            r == self.is_error_spec(),
    {
        match self {
            PetalSonicEvent::BufferUnderrun { .. } => true,
            PetalSonicEvent::BufferOverrun { .. } => true,
            PetalSonicEvent::SpatializationError { .. } => true,
            PetalSonicEvent::EngineError { .. } => true,
            _ => false,
        }
    }

    /// Whether the event reports a failure, as a value.
    pub open spec fn is_error_spec(&self) -> bool {
        match *self {
            PetalSonicEvent::BufferUnderrun { .. } => true,
            PetalSonicEvent::BufferOverrun { .. } => true,
            PetalSonicEvent::SpatializationError { .. } => true,
            PetalSonicEvent::EngineError { .. } => true,
            _ => false,
        }
    }

    /// Whether the event is about one source's playback.
    pub fn is_source_event(&self) -> (r: bool)
        ensures
            r == self.is_source_event_spec(),
    {
        match self {
            PetalSonicEvent::SourceCompleted { .. } => true,
            PetalSonicEvent::SourceLooped { .. } => true,
            PetalSonicEvent::SourceStarted { .. } => true,
            PetalSonicEvent::SourceStopped { .. } => true,
            PetalSonicEvent::SourceReachedEnd { .. } => true,
            PetalSonicEvent::SourceVolumeChanged { .. } => true,
            PetalSonicEvent::SourcePoseChanged { .. } => true,
            _ => false,
        }
    }

    /// Whether the event is about one source's playback, as a value.
    pub open spec fn is_source_event_spec(&self) -> bool {
        match *self {
            PetalSonicEvent::SourceCompleted { .. } => true,
            PetalSonicEvent::SourceLooped { .. } => true,
            PetalSonicEvent::SourceStarted { .. } => true,
            PetalSonicEvent::SourceStopped { .. } => true,
            PetalSonicEvent::SourceReachedEnd { .. } => true,
            PetalSonicEvent::SourceVolumeChanged { .. } => true,
            PetalSonicEvent::SourcePoseChanged { .. } => true,
            _ => false,
        }
    }
}

} // verus!
