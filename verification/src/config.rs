use vstd::prelude::*;

use crate::math::{Vec3Bits, F32_ONE_BITS};

verus! {

/// Configuration of a world: the internal processing rate, the render
/// block size, and the limits the engine is built for.
#[derive(Debug)]
pub struct PetalSonicWorldDesc {
    /// Sample rate of world processing, in Hz. May differ from the rate
    /// the audio device runs at.
    pub sample_rate: u32,
    /// Number of frames generated per render block at the world rate.
    pub block_size: usize,
    /// Number of audio channels (almost always 2).
    pub channels: u16,
    /// Buffer duration used by audio processing, in microseconds.
    pub buffer_duration_micros: u64,
    /// Maximum number of concurrent audio sources.
    pub max_sources: usize,
    /// Optional path to a custom HRTF data file. When absent, the
    /// spatialization backend's built-in HRTF is used.
    pub hrtf_path: Option<String>,
}

impl PetalSonicWorldDesc {
    /// Whether the descriptor is acceptable to the engine: a nonzero
    /// sample rate, block size and channel count.
    pub open spec fn valid(&self) -> bool {
        self.sample_rate > 0 && self.block_size > 0 && self.channels > 0
    }
}

impl Default for PetalSonicWorldDesc {
    /// 48 kHz stereo, 1024-frame blocks, 10 ms buffering, 64 sources.
    fn default() -> (r: PetalSonicWorldDesc)
        ensures
            r.sample_rate == 48000,
            r.block_size == 1024,
            r.channels == 2,
            r.buffer_duration_micros == 10000,
            r.max_sources == 64,
            r.hrtf_path is None,
            r.valid(),
    {
        PetalSonicWorldDesc {
            sample_rate: 48000,
            block_size: 1024,
            channels: 2,
            buffer_duration_micros: 10000,
            max_sources: 64,
            hrtf_path: None,
        }
    }
}

/// How an audio source is rendered.
#[derive(Clone, Copy, Debug, PartialEq, Eq, Structural)]
pub enum SourceConfig {
    /// The source plays directly, without 3D spatialization.
    NonSpatial,
    /// The source is rendered through the HRTF pipeline.
    Spatial {
        /// World-space position, carried as IEEE-754 bit patterns.
        position: Vec3Bits,
        /// Volume multiplier, carried as an IEEE-754 bit pattern
        /// (0.0 is silent, 1.0 is full volume).
        volume: u32,
    },
}

impl Default for SourceConfig {
    /// The default configuration is non-spatial.
    fn default() -> (r: SourceConfig)
        ensures
            r == SourceConfig::NonSpatial,
    {
        SourceConfig::NonSpatial
    }
}

impl SourceConfig {
    /// A non-spatial source configuration.
    pub fn non_spatial() -> (r: SourceConfig)
        ensures
            r == SourceConfig::NonSpatial,
    {
        SourceConfig::NonSpatial
    }

    /// A spatial source at the given position, at full volume.
    pub fn spatial(position: Vec3Bits) -> (r: SourceConfig)
        ensures
            r == (SourceConfig::Spatial { position, volume: F32_ONE_BITS }),
    {
        SourceConfig::Spatial { position, volume: F32_ONE_BITS }
    }

    /// A spatial source at the given position and volume.
    pub fn spatial_with_volume(position: Vec3Bits, volume: u32) -> (r: SourceConfig)
        ensures
            r == (SourceConfig::Spatial { position, volume }),
    {
        SourceConfig::Spatial { position, volume }
    }

    /// Whether this configuration is spatial.
    pub fn is_spatial(&self) -> (r: bool)
        ensures
            r == (self is Spatial),
    {
        match self {
            SourceConfig::Spatial { .. } => true,
            SourceConfig::NonSpatial => false,
        }
    }

    /// The position of a spatial source; `None` for a non-spatial one.
    pub fn position(&self) -> (r: Option<Vec3Bits>)
        ensures
            match *self {
                SourceConfig::Spatial { position, .. } => r == Some(position),
                SourceConfig::NonSpatial => r is None,
            },
    {
        match self {
            SourceConfig::Spatial { position, .. } => Some(*position),
            SourceConfig::NonSpatial => None,
        }
    }

    /// The volume of a spatial source; `None` for a non-spatial one.
    pub fn volume(&self) -> (r: Option<u32>)
        ensures
            match *self {
                SourceConfig::Spatial { volume, .. } => r == Some(volume),
                SourceConfig::NonSpatial => r is None,
            },
    {
        match self {
            SourceConfig::Spatial { volume, .. } => Some(*volume),
            SourceConfig::NonSpatial => None,
        }
    }
}

} // verus!
