use vstd::prelude::*;

use crate::error::PetalSonicError;

verus! {

/// Type of streaming resampler algorithm.
#[derive(Clone, Copy, Debug, PartialEq, Eq, Structural)]
pub enum ResamplerType {
    /// Fast polynomial resampler: lower quality but faster.
    Fast,
    /// Sinc interpolation resampler: higher quality but slower.
    Sinc,
}

impl Default for ResamplerType {
    /// The default algorithm is the sinc resampler.
    fn default() -> (r: ResamplerType)
        ensures
            r == ResamplerType::Sinc,
    {
        ResamplerType::Sinc
    }
}

/// State of the streaming sample-rate converter that bridges the world
/// rate to the device rate.
///
/// The caller always supplies exactly `input_chunk_size` frames per
/// invocation and receives a variable number of output frames. The
/// interpolating conversion itself runs outside the engine on float
/// samples; this type validates the configuration, fixes the chunk
/// discipline, and implements the mandatory bypass: when the source and
/// target rates are equal the converter is an exact pass-through.
pub struct StreamingResampler {
    source_sample_rate: u32,
    target_sample_rate: u32,
    channels: u16,
    input_chunk_size: usize,
    resampler_type: ResamplerType,
}

/// Mathematical view of a streaming resampler.
pub ghost struct StreamingResamplerView {
    /// Source (input) sample rate in Hz.
    pub source_sample_rate: u32,
    /// Target (output) sample rate in Hz.
    pub target_sample_rate: u32,
    /// Number of channels.
    pub channels: u16,
    /// Fixed input chunk size in frames.
    pub input_chunk_size: nat,
    /// Chosen resampler algorithm.
    pub resampler_type: ResamplerType,
}

impl View for StreamingResampler {
    type V = StreamingResamplerView;

    closed spec fn view(&self) -> StreamingResamplerView {
        StreamingResamplerView {
            source_sample_rate: self.source_sample_rate,
            target_sample_rate: self.target_sample_rate,
            channels: self.channels,
            input_chunk_size: self.input_chunk_size as nat,
            resampler_type: self.resampler_type,
        }
    }
}

impl StreamingResampler {
    /// Builds a streaming resampler with a fixed input size.
    ///
    /// Returns an `AudioFormat` error exactly when a sample rate, the
    /// channel count, or the input frame count is zero. The algorithm
    /// defaults to [`ResamplerType::Sinc`] when none is given.
    pub fn new(
        source_sample_rate: u32,
        target_sample_rate: u32,
        channels: u16,
        input_frames: usize,
        resampler_type: Option<ResamplerType>,
    ) -> (r: Result<StreamingResampler, PetalSonicError>)
        ensures
            (r is Ok) <==> (source_sample_rate > 0 && target_sample_rate > 0 && channels > 0
                && input_frames > 0),
            r matches Ok(a) ==> {
                &&& a@.source_sample_rate == source_sample_rate
                &&& a@.target_sample_rate == target_sample_rate
                &&& a@.channels == channels
                &&& a@.input_chunk_size == input_frames
                &&& a@.resampler_type == (if resampler_type is Some {
                    resampler_type->0
                } else {
                    ResamplerType::Sinc
                })
            },
            r matches Err(e) ==> e is AudioFormat,
    {
        if source_sample_rate == 0 || target_sample_rate == 0 {
            return Err(PetalSonicError::AudioFormat(
                "Sample rates must be greater than 0".to_owned(),
            ));
        }
        if channels == 0 {
            return Err(PetalSonicError::AudioFormat(
                "Channel count must be greater than 0".to_owned(),
            ));
        }
        if input_frames == 0 {
            return Err(PetalSonicError::AudioFormat(
                "Input frames must be greater than 0".to_owned(),
            ));
        }
        let rt = match resampler_type {
            Some(t) => t,
            None => ResamplerType::Sinc,
        };
        Ok(
            StreamingResampler {
                source_sample_rate,
                target_sample_rate,
                channels,
                input_chunk_size: input_frames,
                resampler_type: rt,
            },
        )
    }

    /// The fixed input chunk size in frames.
    pub fn input_chunk_size(&self) -> (r: usize)
        ensures
            r == self@.input_chunk_size,
    {
        self.input_chunk_size
    }

    /// The target (output) sample rate in Hz.
    pub fn target_sample_rate(&self) -> (r: u32)
        ensures
            r == self@.target_sample_rate,
    {
        self.target_sample_rate
    }

    /// The source (input) sample rate in Hz.
    pub fn source_sample_rate(&self) -> (r: u32)
        ensures
            r == self@.source_sample_rate,
    {
        self.source_sample_rate
    }

    /// The number of channels.
    pub fn channels(&self) -> (r: u16)
        ensures
            r == self@.channels,
    {
        self.channels
    }

    /// The chosen resampler algorithm.
    pub fn resampler_type(&self) -> (r: ResamplerType)
        ensures
            r == self@.resampler_type,
    {
        self.resampler_type
    }

    /// Whether the converter is a pass-through: the source rate equals
    /// the target rate.
    pub open spec fn is_bypass_spec(&self) -> bool {
        self@.source_sample_rate == self@.target_sample_rate
    }

    /// Whether the converter is a pass-through.
    pub fn is_bypass(&self) -> (r: bool)
        ensures
            r == self.is_bypass_spec(),
    {
        self.source_sample_rate == self.target_sample_rate
    }

    /// Whether an interleaved input holds exactly one input chunk:
    /// `input_chunk_size` frames of `channels` samples each.
    pub open spec fn input_fits(&self, input_len: nat) -> bool {
        input_len == self@.input_chunk_size * self@.channels
    }

    /// Checks the fixed-input-size discipline for an interleaved input
    /// of `input_samples` samples.
    ///
    /// Returns an `AudioFormat` error exactly when the input is not one
    /// whole chunk.
    pub fn validate_input(&self, input_samples: usize) -> (r: Result<(), PetalSonicError>)
        requires
            self@.input_chunk_size * self@.channels <= usize::MAX,
        ensures
            (r is Ok) <==> self.input_fits(input_samples as nat),
            r matches Err(e) ==> e is AudioFormat,
    {
        if input_samples == self.input_chunk_size * (self.channels as usize) {
            Ok(())
        } else {
            Err(PetalSonicError::AudioFormat("Input size mismatch".to_owned()))
        }
    }

    /// One pass-through invocation: copies exactly one input chunk to
    /// the output unchanged and reports `(frames_written,
    /// frames_consumed)`, both one chunk.
    ///
    /// This is the whole conversion when the source and target rates
    /// are equal; the interpolating path runs outside the engine.
    /// Returns an `AudioFormat` error exactly when the input is not one
    /// whole chunk or the output has no room for it.
    pub fn process_bypass(&self, input: &Vec<u32>, output: &mut Vec<u32>) -> (r: Result<
        (usize, usize),
        PetalSonicError,
    >)
        requires
            self.is_bypass_spec(),
            self@.input_chunk_size * self@.channels <= usize::MAX,
        ensures
            (r is Ok) <==> (self.input_fits(input@.len() as nat) && input@.len()
                <= old(output)@.len()),
            r matches Ok(n) ==> {
                &&& n.0 == self@.input_chunk_size
                &&& n.1 == self@.input_chunk_size
                &&& final(output)@.len() == old(output)@.len()
                &&& forall|i: int| 0 <= i < input@.len() ==> final(output)@[i] == input@[i]
                &&& forall|i: int|
                    input@.len() <= i < final(output)@.len() ==> final(output)@[i] == old(
                        output,
                    )@[i]
            },
            r matches Err(e) ==> {
                &&& e is AudioFormat
                &&& final(output)@ == old(output)@
            },
    {
        if input.len() != self.input_chunk_size * (self.channels as usize) {
            return Err(PetalSonicError::AudioFormat("Input size mismatch".to_owned()));
        }
        if output.len() < input.len() {
            return Err(PetalSonicError::AudioFormat("Output buffer too small".to_owned()));
        }
        let mut i: usize = 0;
        while i < input.len()
            invariant
                i <= input@.len(),
                input@.len() <= output@.len(),
                output@.len() == old(output)@.len(),
                forall|j: int| 0 <= j < i ==> output@[j] == input@[j],
                forall|j: int| i <= j < output@.len() ==> output@[j] == old(output)@[j],
            decreases input@.len() - i,
        {
            let v = input[i];
            output.set(i, v);
            i += 1;
        }
        Ok((self.input_chunk_size, self.input_chunk_size))
    }
}

} // verus!
