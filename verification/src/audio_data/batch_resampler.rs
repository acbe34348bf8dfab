use vstd::prelude::*;

use crate::audio_data::resampler::ResamplerConfigView;
use crate::error::PetalSonicError;

verus! {

/// Configuration of the chunked offline resampler for whole buffers.
///
/// Like [`crate::audio_data::AudioResampler`], the conversion itself
/// runs outside the engine; this type holds and validates its
/// parameters and is kept for hosts that drive the batch path directly.
pub struct BatchResampler {
    source_sample_rate: u32,
    target_sample_rate: u32,
    channels: u16,
    chunk_size: usize,
}

impl View for BatchResampler {
    type V = ResamplerConfigView;

    closed spec fn view(&self) -> ResamplerConfigView {
        ResamplerConfigView {
            source_sample_rate: self.source_sample_rate,
            target_sample_rate: self.target_sample_rate,
            channels: self.channels,
            chunk_size: self.chunk_size as nat,
        }
    }
}

impl BatchResampler {
    /// Builds a batch resampler configuration.
    ///
    /// Returns an `AudioFormat` error exactly when a sample rate or the
    /// channel count is zero. The chunk size defaults to 1024 frames.
    pub fn new(
        source_sample_rate: u32,
        target_sample_rate: u32,
        channels: u16,
        chunk_size: Option<usize>,
    ) -> (r: Result<BatchResampler, PetalSonicError>)
        ensures
            (r is Ok) <==> (source_sample_rate > 0 && target_sample_rate > 0 && channels > 0),
            r matches Ok(a) ==> {
                &&& a@.source_sample_rate == source_sample_rate
                &&& a@.target_sample_rate == target_sample_rate
                &&& a@.channels == channels
                &&& a@.chunk_size == (if chunk_size is Some {
                    chunk_size->0 as int
                } else {
                    1024int
                })
            },
            r matches Err(e) ==> e is AudioFormat,
    {
        if source_sample_rate == 0 || target_sample_rate == 0 {
            return Err(
                PetalSonicError::AudioFormat("Sample rates must be greater than 0".to_owned()),
            );
        }
        if channels == 0 {
            return Err(
                PetalSonicError::AudioFormat("Channel count must be greater than 0".to_owned()),
            );
        }
        let chunk = match chunk_size {
            Some(c) => c,
            None => 1024,
        };
        Ok(BatchResampler { source_sample_rate, target_sample_rate, channels, chunk_size: chunk })
    }

    /// The target (output) sample rate in Hz.
    pub fn target_sample_rate(&self) -> (r: u32)
        ensures
            r == self@.target_sample_rate,
    {
        self.target_sample_rate
    }

    /// The source (input) sample rate in Hz.
    pub fn source_sample_rate(&self) -> (r: u32)
        ensures
            r == self@.source_sample_rate,
    {
        self.source_sample_rate
    }

    /// The number of channels.
    pub fn channels(&self) -> (r: u16)
        ensures
            r == self@.channels,
    {
        self.channels
    }

    /// The processing chunk size in frames.
    pub fn chunk_size(&self) -> (r: usize)
        ensures
            r == self@.chunk_size,
    {
        self.chunk_size
    }
}

} // verus!
