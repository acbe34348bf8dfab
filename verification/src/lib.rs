//! A real-time spatial audio engine: a host builds a 3D scene of audio
//! sources around a listener, and the engine delivers a binaural
//! stereo signal to the audio output device.
//!
//! This crate holds the verified core of the pipeline: the audio data
//! model, the playback-instance state machine, the mixer with its
//! loop-event bookkeeping, the command dispatch, the streaming
//! resampler's chunk discipline and bypass, and the flow control
//! around the device-bound ring buffer. Sample amplitudes are carried
//! throughout as IEEE-754 bit patterns and never computed on here: the
//! float signal processing — summing, HRTF spatialization through the
//! backend, rate interpolation, device format conversion — runs in the
//! host shell around this crate, on values this crate hands it.

pub mod audio_data;
pub mod channel;
pub mod config;
pub mod engine;
pub mod error;
pub mod events;
pub mod math;
pub mod mixer;
pub mod playback;
pub mod ring;
pub mod world;

pub use config::{PetalSonicWorldDesc, SourceConfig};
pub use engine::AudioEngine;
pub use error::PetalSonicError;
pub use events::{PetalSonicEvent, RenderTimingEvent};
pub use playback::{LoopMode, PlayState, PlaybackCommand, PlaybackInfo, PlaybackInstance};
pub use world::{PetalSonicAudioListener, PetalSonicAudioSource, PetalSonicWorld, SourceId};
