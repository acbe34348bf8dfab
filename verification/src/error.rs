use vstd::prelude::*;

verus! {

/// Errors reported by the engine's public operations.
///
/// The taxonomy follows the failure sources of the pipeline: the audio
/// device, malformed data or configuration, decoding and resampling,
/// the ring buffer, engine misuse, and the spatialization backend.
#[derive(Debug)]
pub enum PetalSonicError {
    /// The audio device could not be selected, opened or started.
    AudioDevice(String),
    /// Invalid data or configuration: zero sample rate, zero channels,
    /// a mismatched input size, a channel index out of range.
    AudioFormat(String),
    /// A failure while decoding or resampling audio data.
    AudioLoading(String),
    /// A failure of the device-bound ring buffer.
    RingBuffer(String),
    /// Engine misuse: an unknown source id, a missing buffer in command
    /// dispatch, a failure of the command channel.
    Engine(String),
    /// Invalid world configuration.
    Configuration(String),
    /// A failure of the HRTF / ambisonics backend.
    Spatialization(String),
    /// Any other failure.
    Unknown(String),
}

impl PetalSonicError {
    /// The text carried by the error, whichever variant it is.
    pub fn message(&self) -> (r: &String)
        ensures
            r@ == self.message_spec(),
    {
        match self {
            PetalSonicError::AudioDevice(s) => s,
            PetalSonicError::AudioFormat(s) => s,
            PetalSonicError::AudioLoading(s) => s,
            PetalSonicError::RingBuffer(s) => s,
            PetalSonicError::Engine(s) => s,
            PetalSonicError::Configuration(s) => s,
            PetalSonicError::Spatialization(s) => s,
            PetalSonicError::Unknown(s) => s,
        }
    }

    /// The text carried by the error, as a sequence of characters.
    pub open spec fn message_spec(&self) -> Seq<char> {
        match self {
            PetalSonicError::AudioDevice(s) => s@,
            PetalSonicError::AudioFormat(s) => s@,
            PetalSonicError::AudioLoading(s) => s@,
            PetalSonicError::RingBuffer(s) => s@,
            PetalSonicError::Engine(s) => s@,
            PetalSonicError::Configuration(s) => s@,
            PetalSonicError::Spatialization(s) => s@,
            PetalSonicError::Unknown(s) => s@,
        }
    }
}

} // verus!
