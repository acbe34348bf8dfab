use vstd::prelude::*;

verus! {

/// How to handle channel conversion while loading audio.
#[derive(Clone, Copy, Debug, PartialEq, Eq, Structural)]
pub enum ConvertToMono {
    /// Keep the file's original channel layout.
    Original,
    /// Combine all channels into one mono channel.
    ForceMono,
}

/// Options that control how an audio file is decoded and prepared.
///
/// Loading itself happens outside the engine; these options travel with
/// the request and are read by the loader.
#[derive(Clone, Debug)]
pub struct LoadOptions {
    /// Target sample rate for resampling; `None` keeps the original rate.
    pub target_sample_rate: Option<u32>,
    /// Whether to convert the loaded audio to mono.
    pub convert_to_mono: ConvertToMono,
    /// Maximum duration to load, in nanoseconds; `None` loads the whole file.
    pub max_duration_nanos: Option<u64>,
    /// Which channel to take for mono conversion; `None` mixes all channels.
    pub mono_channel: Option<usize>,
}

impl Default for LoadOptions {
    /// Keep the original rate and channel layout, and load the whole file.
    fn default() -> (r: LoadOptions)
        ensures
            r.target_sample_rate is None,
            r.convert_to_mono == ConvertToMono::Original,
            r.max_duration_nanos is None,
            r.mono_channel is None,
    {
        LoadOptions {
            target_sample_rate: None,
            convert_to_mono: ConvertToMono::Original,
            max_duration_nanos: None,
            mono_channel: None,
        }
    }
}

impl LoadOptions {
    /// Creates options with the default settings.
    pub fn new() -> (r: LoadOptions)
        ensures
            r.target_sample_rate is None,
            r.convert_to_mono == ConvertToMono::Original,
            r.max_duration_nanos is None,
            r.mono_channel is None,
    {
        LoadOptions {
            target_sample_rate: None,
            convert_to_mono: ConvertToMono::Original,
            max_duration_nanos: None,
            mono_channel: None,
        }
    }

    /// Sets the target sample rate.
    pub fn target_sample_rate(self, rate: u32) -> (r: LoadOptions)
        ensures
            r.target_sample_rate == Some(rate),
            r.convert_to_mono == self.convert_to_mono,
            r.max_duration_nanos == self.max_duration_nanos,
            r.mono_channel == self.mono_channel,
    {
        LoadOptions { target_sample_rate: Some(rate), ..self }
    }

    /// Sets the mono conversion option.
    pub fn convert_to_mono(self, convert: ConvertToMono) -> (r: LoadOptions)
        ensures
            r.convert_to_mono == convert,
            r.target_sample_rate == self.target_sample_rate,
            r.max_duration_nanos == self.max_duration_nanos,
            r.mono_channel == self.mono_channel,
    {
        LoadOptions { convert_to_mono: convert, ..self }
    }

    /// Sets the maximum duration to load, in nanoseconds.
    pub fn max_duration(self, duration_nanos: u64) -> (r: LoadOptions)
        ensures
            r.max_duration_nanos == Some(duration_nanos),
            r.target_sample_rate == self.target_sample_rate,
            r.convert_to_mono == self.convert_to_mono,
            r.mono_channel == self.mono_channel,
    {
        LoadOptions { max_duration_nanos: Some(duration_nanos), ..self }
    }

    /// Sets the channel to take for mono conversion.
    pub fn mono_channel(self, channel: usize) -> (r: LoadOptions)
        ensures
            r.mono_channel == Some(channel),
            r.target_sample_rate == self.target_sample_rate,
            r.convert_to_mono == self.convert_to_mono,
            r.max_duration_nanos == self.max_duration_nanos,
    {
        LoadOptions { mono_channel: Some(channel), ..self }
    }
}

} // verus!
