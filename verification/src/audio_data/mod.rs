use vstd::prelude::*;

pub mod batch_resampler;
pub mod load_options;
pub mod resampler;
pub mod streaming_resampler;

use std::sync::Arc;

use crate::error::PetalSonicError;

verus! {

/// Relies on std's Arc::clone: returns a new reference to the same
/// allocation; the audio data itself is untouched.
#[verifier::external_body]
pub(crate) fn share_audio(data: &Arc<PetalSonicAudioData>) -> (r: Arc<PetalSonicAudioData>)
    ensures
        r == *data,
{
    Arc::clone(data)
}

/// Mathematical view of an audio buffer: the interleaved sample bit
/// patterns and the metadata.
pub ghost struct AudioDataView {
    /// Interleaved sample bit patterns.
    pub samples: Seq<u32>,
    /// Sample rate in Hz.
    pub sample_rate: u32,
    /// Number of channels.
    pub channels: u16,
    /// Number of whole frames.
    pub total_frames: nat,
}

impl AudioDataView {
    /// Well-formedness: a nonzero rate and channel count, and a frame
    /// count consistent with the sample count.
    pub open spec fn wf(&self) -> bool {
        &&& self.sample_rate >= 1
        &&& self.channels >= 1
        &&& self.total_frames == self.samples.len() as int / self.channels as int
    }
}

/// Immutable interleaved PCM audio with its metadata.
///
/// Samples are IEEE-754 single-precision bit patterns stored in
/// interleaved order: the channel index varies fastest inside a frame
/// (`[L0, R0, L1, R1, ...]` for stereo). The engine never computes on
/// the sample values; it copies and routes them. A buffer is never
/// mutated after construction.
#[derive(Debug, Clone)]
pub struct PetalSonicAudioData {
    samples: Vec<u32>,
    sample_rate: u32,
    channels: u16,
    total_frames: usize,
}

impl View for PetalSonicAudioData {
    type V = AudioDataView;

    closed spec fn view(&self) -> AudioDataView {
        AudioDataView {
            samples: self.samples@,
            sample_rate: self.sample_rate,
            channels: self.channels,
            total_frames: self.total_frames as nat,
        }
    }
}

impl PetalSonicAudioData {
    /// Well-formedness of the underlying view.
    pub open spec fn wf(&self) -> bool {
        self@.wf()
    }

    /// Builds an audio buffer from interleaved sample bit patterns.
    ///
    /// Returns an `AudioFormat` error exactly when the sample rate or
    /// the channel count is zero. The frame count is the sample count
    /// divided by the channel count; a trailing partial frame is kept
    /// in storage but never read.
    pub fn new(samples: Vec<u32>, sample_rate: u32, channels: u16) -> (r: Result<
        PetalSonicAudioData,
        PetalSonicError,
    >)
        ensures
            (r is Ok) <==> (sample_rate > 0 && channels > 0),
            r matches Ok(a) ==> {
                &&& a.wf()
                &&& a@.samples == samples@
                &&& a@.sample_rate == sample_rate
                &&& a@.channels == channels
                &&& a@.total_frames == samples@.len() as int / channels as int
            },
            r matches Err(e) ==> e is AudioFormat,
    {
        if sample_rate == 0 {
            return Err(
                PetalSonicError::AudioFormat("Sample rate must be greater than 0".to_owned()),
            );
        }
        if channels == 0 {
            return Err(
                PetalSonicError::AudioFormat("Channel count must be greater than 0".to_owned()),
            );
        }
        let total_frames = samples.len() / (channels as usize);
        Ok(PetalSonicAudioData { samples, sample_rate, channels, total_frames })
    }

    /// The sample rate in Hz.
    pub fn sample_rate(&self) -> (r: u32)
        ensures
            r == self@.sample_rate,
    {
        self.sample_rate
    }

    /// The number of channels.
    pub fn channels(&self) -> (r: u16)
        ensures
            r == self@.channels,
    {
        self.channels
    }

    /// The interleaved sample bit patterns.
    pub fn samples(&self) -> (r: &Vec<u32>)
        ensures
            r@ == self@.samples,
    {
        &self.samples
    }

    /// The total number of frames (one frame holds one sample per channel).
    pub fn total_frames(&self) -> (r: usize)
        ensures
            r == self@.total_frames,
    {
        self.total_frames
    }

    /// Whether the buffer holds no samples.
    pub fn is_empty(&self) -> (r: bool)
        ensures
            r == (self@.samples.len() == 0),
    {
        self.samples.len() == 0
    }

    /// The total number of samples, over all channels.
    pub fn len(&self) -> (r: usize)
        ensures
            r == self@.samples.len(),
    {
        self.samples.len()
    }

    /// The duration of the audio as whole seconds and subsecond
    /// nanoseconds: `total_frames / sample_rate` seconds in all.
    pub fn duration(&self) -> (r: (u64, u32))
        requires
            self.wf(),
        ensures
            r.0 == self@.total_frames as int / self@.sample_rate as int,
            r.1 == (self@.total_frames as int % self@.sample_rate as int) * 1000000000
                / self@.sample_rate as int,
            r.1 < 1000000000,
    {
        let rate = self.sample_rate as u64;
        let frames = self.total_frames as u64;
        let secs = frames / rate;
        let rem = frames % rate;
        proof {
            assert(rem < rate);
            assert((rem as int) * 1000000000 < u64::MAX as int) by (nonlinear_arith)
                requires
                    rem < rate,
                    rate <= u32::MAX as u64,
            ;
            assert(((rem as int) * 1000000000) / (rate as int) < 1000000000) by (nonlinear_arith)
                requires
                    rem < rate,
                    rate >= 1,
            ;
            assert(frames as int % rate as int == self@.total_frames as int
                % self@.sample_rate as int);
            assert(frames as int / rate as int == self@.total_frames as int
                / self@.sample_rate as int);
        }
        let nanos = (rem * 1000000000) / rate;
        (secs, nanos as u32)
    }

    /// The samples of one channel, in frame order (planar extraction).
    ///
    /// Returns an `AudioFormat` error exactly when the channel index is
    /// out of range.
    pub fn channel_samples(&self, channel: usize) -> (r: Result<Vec<u32>, PetalSonicError>)
        requires
            self.wf(),
        ensures
            (r is Ok) <==> channel < self@.channels,
            r matches Ok(v) ==> {
                &&& v@.len() == self@.total_frames
                &&& forall|i: int|
                    0 <= i < self@.total_frames ==> v@[i] == self@.samples[i * self@.channels as int
                        + channel]
            },
            r matches Err(e) ==> e is AudioFormat,
    {
        if channel >= self.channels as usize {
            return Err(PetalSonicError::AudioFormat("Channel index out of range".to_owned()));
        }
        let ch = self.channels as usize;
        let total = self.total_frames;
        let n = self.samples.len();
        let mut out: Vec<u32> = Vec::new();
        let mut i: usize = 0;
        proof {
            assert(total * ch <= n) by (nonlinear_arith)
                requires
                    ch >= 1,
                    n == self@.samples.len(),
                    total == self@.samples.len() as int / ch as int,
            ;
        }
        while i < total
            invariant
                ch == self@.channels,
                channel < ch,
                total == self@.total_frames,
                i <= total,
                n == self@.samples.len(),
                total * ch <= n,
                self.samples@ == self@.samples,
                out@.len() == i,
                forall|j: int| 0 <= j < i ==> out@[j] == self@.samples[j * ch as int + channel],
            decreases total - i,
        {
            proof {
                assert(i * ch + channel < total * ch) by (nonlinear_arith)
                    requires
                        i < total,
                        channel < ch,
                ;
            }
            out.push(self.samples[i * ch + channel]);
            i += 1;
        }
        Ok(out)
    }

    /// The interleaved samples of the frames `start_frame .. end_frame`.
    ///
    /// Returns an `AudioFormat` error exactly when the range does not
    /// lie within the buffer: when `start_frame` is at or past the end,
    /// when `end_frame` is past the end, or when the range is reversed.
    pub fn frame_range(&self, start_frame: usize, end_frame: usize) -> (r: Result<
        Vec<u32>,
        PetalSonicError,
    >)
        requires
            self.wf(),
        ensures
            (r is Ok) <==> (start_frame < self@.total_frames && end_frame <= self@.total_frames
                && start_frame <= end_frame),
            r matches Ok(v) ==> {
                &&& v@.len() == (end_frame - start_frame) * self@.channels as int
                &&& forall|i: int|
                    0 <= i < v@.len() ==> v@[i] == self@.samples[start_frame * self@.channels as int
                        + i]
            },
            r matches Err(e) ==> e is AudioFormat,
    {
        if start_frame >= self.total_frames || end_frame > self.total_frames || start_frame
            > end_frame {
            return Err(PetalSonicError::AudioFormat("Frame range out of bounds".to_owned()));
        }
        let ch = self.channels as usize;
        let total = self.total_frames;
        let n = self.samples.len();
        proof {
            assert(total * ch <= n) by (nonlinear_arith)
                requires
                    ch >= 1,
                    n == self@.samples.len(),
                    total == self@.samples.len() as int / ch as int,
            ;
            assert(end_frame * ch <= total * ch) by (nonlinear_arith)
                requires
                    end_frame <= total,
            ;
            assert(start_frame * ch <= end_frame * ch) by (nonlinear_arith)
                requires
                    start_frame <= end_frame,
            ;
        }
        let start_sample = start_frame * ch;
        let end_sample = end_frame * ch;
        let mut out: Vec<u32> = Vec::new();
        let mut i: usize = start_sample;
        proof {
            assert((end_frame - start_frame) * ch as int == end_sample - start_sample)
                by (nonlinear_arith)
                requires
                    start_sample == start_frame * ch,
                    end_sample == end_frame * ch,
            ;
        }
        while i < end_sample
            invariant
                start_sample <= i <= end_sample,
                end_sample <= self@.samples.len(),
                self.samples@ == self@.samples,
                out@.len() == i - start_sample,
                forall|j: int| 0 <= j < out@.len() ==> out@[j] == self@.samples[start_sample + j],
            decreases end_sample - i,
        {
            out.push(self.samples[i]);
            i += 1;
        }
        Ok(out)
    }
}

} // verus!
