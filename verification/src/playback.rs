use vstd::prelude::*;

use std::sync::Arc;

use crate::audio_data::PetalSonicAudioData;
use crate::config::SourceConfig;
use crate::world::SourceId;

verus! {

/// Loop mode for audio playback.
#[derive(Clone, Copy, Debug, PartialEq, Eq, Structural)]
pub enum LoopMode {
    /// Play once and stop. The mixer reports the source as completed
    /// when it reaches the end of its data.
    Once,
    /// Loop forever. The mixer restarts the source and reports it as
    /// looped each time it reaches the end of its data.
    Infinite,
}

impl Default for LoopMode {
    /// The default loop mode plays once.
    fn default() -> (r: LoopMode)
        ensures
            r == LoopMode::Once,
    {
        LoopMode::Once
    }
}

/// The playback state of an audio source.
#[derive(Clone, Copy, Debug, PartialEq, Eq, Structural)]
pub enum PlayState {
    /// The source is currently playing.
    Playing,
    /// The source is paused and keeps its playback position.
    Paused,
    /// The source is stopped.
    Stopped,
}

/// Position and state of one playing source.
#[verifier::ext_equal]
#[derive(Clone, Copy, Debug, PartialEq, Eq, Structural)]
pub struct PlaybackInfo {
    /// Current playback position, in frames from the start of the data.
    pub current_frame: usize,
    /// Total number of frames in the audio data.
    pub total_frames: usize,
    /// Current playback state.
    pub play_state: PlayState,
}

impl PlaybackInfo {
    /// A fresh info: position zero, stopped.
    pub fn new(total_frames: usize) -> (r: PlaybackInfo)
        ensures
            r == (PlaybackInfo { current_frame: 0, total_frames, play_state: PlayState::Stopped }),
    {
        PlaybackInfo { current_frame: 0, total_frames, play_state: PlayState::Stopped }
    }

    /// Moves the position to `current_frame`, clamped to the end of the
    /// data.
    pub fn update_position(&mut self, current_frame: usize)
        ensures
            *final(self) == (PlaybackInfo {
                current_frame: if current_frame <= old(self).total_frames {
                    current_frame as int
                } else {
                    old(self).total_frames as int
                } as usize,
                ..*old(self)
            }),
    {
        self.current_frame = if current_frame <= self.total_frames {
            current_frame
        } else {
            self.total_frames
        };
    }

    /// Whether the position has reached the end of the data.
    pub fn is_finished(&self) -> (r: bool)
        ensures
            r == (self.current_frame >= self.total_frames),
    {
        self.current_frame >= self.total_frames
    }
}

/// An active playback instance: one source's cursor, state, loop mode,
/// and a transient end-of-data flag read by the mixer.
#[verifier::ext_equal]
#[derive(Debug)]
pub struct PlaybackInstance {
    /// Handle of the audio data being played.
    pub audio_id: SourceId,
    /// The shared audio data.
    pub audio_data: Arc<PetalSonicAudioData>,
    /// Current position and state.
    pub info: PlaybackInfo,
    /// How the source is rendered (spatial or not).
    pub config: SourceConfig,
    /// What happens at the end of the data.
    pub loop_mode: LoopMode,
    /// Set by cursor advancement when the end of the data is reached;
    /// cleared by the mixer within the same render block. Managed by
    /// the mixer; hosts must not write it.
    pub reached_end_this_iteration: bool,
}

impl PlaybackInstance {
    /// Whether the transient end-of-data flag is set.
    pub open spec fn reached_end_flag(&self) -> bool {
        self.reached_end_this_iteration
    }

    /// The playback cursor, in frames.
    pub open spec fn cursor(&self) -> int {
        self.info.current_frame as int
    }

    /// The total number of frames the instance plays. Playback reads
    /// the data as one mono stream: every stored sample is one frame.
    pub open spec fn total(&self) -> int {
        self.info.total_frames as int
    }

    /// Whether the instance is currently playing.
    pub open spec fn playing(&self) -> bool {
        self.info.play_state is Playing
    }

    /// Well-formedness: the cursor never passes the end of the data,
    /// and the frame count agrees with the audio data.
    pub open spec fn wf(&self) -> bool {
        &&& self.audio_data@.wf()
        &&& self.info.total_frames == self.audio_data@.samples.len()
        &&& self.info.current_frame <= self.info.total_frames
    }

    /// Whether `b` differs from `a` at most in its `info` field.
    pub open spec fn same_but_info(a: &PlaybackInstance, b: &PlaybackInstance) -> bool {
        &&& a.audio_id == b.audio_id
        &&& a.audio_data == b.audio_data
        &&& a.config == b.config
        &&& a.loop_mode == b.loop_mode
        &&& a.reached_end_flag() == b.reached_end_flag()
    }

    /// Creates an instance for the given audio data, stopped at the
    /// start, with the end flag clear.
    pub fn new(
        audio_id: SourceId,
        audio_data: Arc<PetalSonicAudioData>,
        config: SourceConfig,
        loop_mode: LoopMode,
    ) -> (r: PlaybackInstance)
        requires
            audio_data@.wf(),
        ensures
            r.wf(),
            r.audio_id == audio_id,
            r.audio_data == audio_data,
            r.config == config,
            r.loop_mode == loop_mode,
            r.info == (PlaybackInfo {
                current_frame: 0,
                total_frames: audio_data@.samples.len() as usize,
                play_state: PlayState::Stopped,
            }),
            !r.reached_end_flag(),
    {
        let total_frames = audio_data.len();
        PlaybackInstance {
            audio_id,
            audio_data,
            info: PlaybackInfo::new(total_frames),
            config,
            loop_mode,
            reached_end_this_iteration: false,
        }
    }

    /// Resumes playing from the current position.
    pub fn resume(&mut self)
        ensures
            PlaybackInstance::same_but_info(old(self), final(self)),
            final(self).info == (PlaybackInfo { play_state: PlayState::Playing, ..old(self).info }),
    {
        self.info.play_state = PlayState::Playing;
    }

    /// Resets the playback cursor to the beginning.
    pub fn reset(&mut self)
        ensures
            PlaybackInstance::same_but_info(old(self), final(self)),
            final(self).info == (PlaybackInfo { current_frame: 0, ..old(self).info }),
    {
        self.info.current_frame = 0;
    }

    /// Plays from the beginning: resets the cursor, then resumes.
    pub fn play_from_beginning(&mut self)
        ensures
            PlaybackInstance::same_but_info(old(self), final(self)),
            final(self).info == (PlaybackInfo {
                current_frame: 0,
                play_state: PlayState::Playing,
                ..old(self).info
            }),
    {
        self.reset();
        self.resume();
    }

    /// Replaces the loop mode.
    pub fn set_loop_mode(&mut self, loop_mode: LoopMode)
        ensures
            final(self).loop_mode == loop_mode,
            final(self).audio_id == old(self).audio_id,
            final(self).audio_data == old(self).audio_data,
            final(self).config == old(self).config,
            final(self).info == old(self).info,
            final(self).reached_end_flag() == old(self).reached_end_flag(),
    {
        self.loop_mode = loop_mode;
    }

    /// Pauses the instance, keeping its position.
    pub fn pause(&mut self)
        ensures
            PlaybackInstance::same_but_info(old(self), final(self)),
            final(self).info == (PlaybackInfo { play_state: PlayState::Paused, ..old(self).info }),
    {
        self.info.play_state = PlayState::Paused;
    }

    /// Stops the instance, keeping its position.
    pub fn stop(&mut self)
        ensures
            PlaybackInstance::same_but_info(old(self), final(self)),
            final(self).info == (PlaybackInfo { play_state: PlayState::Stopped, ..old(self).info }),
    {
        self.info.play_state = PlayState::Stopped;
    }

    /// What the cursor becomes when `frames_consumed` frames are
    /// consumed from position `cursor`: advanced, clamped to the end.
    pub open spec fn advanced_cursor(&self, frames_consumed: int) -> int {
        if self.cursor() + frames_consumed <= self.total() {
            self.cursor() + frames_consumed
        } else {
            self.total()
        }
    }

    /// Advances the cursor and checks for completion.
    ///
    /// This is the single source of truth for frame advancement: both
    /// the non-spatial fill and the spatial per-source fill call it.
    /// When the cursor reaches the end of the data it sets the
    /// transient end flag and stops the instance, for both loop modes;
    /// the mixer alone restarts `Infinite` sources.
    pub(crate) fn advance_and_check_completion(&mut self, frames_consumed: usize)
        requires
            old(self).wf(),
            old(self).cursor() + frames_consumed <= usize::MAX,
        ensures
            final(self).wf(),
            PlaybackInstance::same_but_info(old(self), final(self)) || (old(self).cursor()
                + frames_consumed >= old(self).total()),
            final(self).audio_id == old(self).audio_id,
            final(self).audio_data == old(self).audio_data,
            final(self).config == old(self).config,
            final(self).loop_mode == old(self).loop_mode,
            final(self).cursor() == old(self).advanced_cursor(frames_consumed as int),
            final(self).total() == old(self).total(),
            if old(self).cursor() + frames_consumed >= old(self).total() {
                final(self).reached_end_flag() && final(self).info.play_state is Stopped
            } else {
                final(self).reached_end_flag() == old(self).reached_end_flag()
                    && final(self).info.play_state == old(self).info.play_state
            },
    {
        let next = self.info.current_frame + frames_consumed;
        self.info.update_position(next);
        if self.info.current_frame >= self.info.total_frames {
            self.reached_end_this_iteration = true;
            self.info.play_state = PlayState::Stopped;
        }
    }

    /// Fills one render block's worth of this instance's mono samples.
    ///
    /// Returns the samples the instance contributes to the block: when
    /// playing, the data from the cursor up to `frame_count` frames or
    /// the end of the data, whichever comes first; when paused or
    /// stopped, nothing, with the instance unchanged. The cursor is
    /// advanced by the number of frames returned, and reaching the end
    /// of the data sets the end flag and stops the instance.
    ///
    /// The mixer adds each returned sample into every channel of the
    /// block; the summation itself runs outside the engine on float
    /// samples.
    pub fn fill_buffer(&mut self, frame_count: usize) -> (r: Vec<u32>)
        requires
            old(self).wf(),
        ensures
            final(self).wf(),
            !old(self).playing() ==> (r@.len() == 0 && *final(self) == *old(self)),
            old(self).playing() ==> {
                let k = if frame_count <= old(self).total() - old(self).cursor() {
                    frame_count as int
                } else {
                    old(self).total() - old(self).cursor()
                };
                &&& r@.len() == k
                &&& forall|i: int|
                    0 <= i < k ==> r@[i] == old(self).audio_data@.samples[old(self).cursor() + i]
                &&& final(self).cursor() == old(self).cursor() + k
                &&& final(self).audio_id == old(self).audio_id
                &&& final(self).audio_data == old(self).audio_data
                &&& final(self).config == old(self).config
                &&& final(self).loop_mode == old(self).loop_mode
                &&& final(self).total() == old(self).total()
                &&& if old(self).cursor() + k >= old(self).total() {
                    final(self).reached_end_flag() && final(self).info.play_state is Stopped
                } else {
                    final(self).reached_end_flag() == old(self).reached_end_flag() && final(self).playing()
                }
            },
    {
        if !matches!(self.info.play_state, PlayState::Playing) {
            return Vec::new();
        }
        let avail = self.info.total_frames - self.info.current_frame;
        let k = if frame_count <= avail {
            frame_count
        } else {
            avail
        };
        let samples = self.audio_data.samples();
        let start = self.info.current_frame;
        let mut out: Vec<u32> = Vec::new();
        let mut i: usize = 0;
        while i < k
            invariant
                i <= k,
                start + k <= usize::MAX,
                start + k <= samples@.len(),
                samples@ == old(self).audio_data@.samples,
                out@.len() == i,
                forall|j: int| 0 <= j < i ==> out@[j] == samples@[start + j],
            decreases k - i,
        {
            out.push(samples[start + i]);
            i += 1;
        }
        self.advance_and_check_completion(k);
        out
    }

    /// Copies exactly `frame_size` mono samples for the spatial
    /// pipeline, zero-filled past the end of the data, and advances the
    /// cursor by `frame_size` under the single-source-of-truth rule.
    ///
    /// The spatial processor applies the source's volume and the HRTF
    /// pipeline to the returned block outside the engine.
    pub fn spatial_input_block(&mut self, frame_size: usize) -> (r: Vec<u32>)
        requires
            old(self).wf(),
            old(self).playing(),
            old(self).cursor() + frame_size <= usize::MAX,
        ensures
            final(self).wf(),
            r@.len() == frame_size,
            forall|i: int|
                0 <= i < frame_size ==> r@[i] == if old(self).cursor() + i < old(self).total() {
                    old(self).audio_data@.samples[old(self).cursor() + i]
                } else {
                    0u32
                },
            final(self).cursor() == old(self).advanced_cursor(frame_size as int),
            final(self).audio_id == old(self).audio_id,
            final(self).audio_data == old(self).audio_data,
            final(self).config == old(self).config,
            final(self).loop_mode == old(self).loop_mode,
            final(self).total() == old(self).total(),
            if old(self).cursor() + frame_size >= old(self).total() {
                final(self).reached_end_flag() && final(self).info.play_state is Stopped
            } else {
                final(self).reached_end_flag() == old(self).reached_end_flag() && final(self).playing()
            },
    {
        let samples = self.audio_data.samples();
        let start = self.info.current_frame;
        let total = self.info.total_frames;
        let mut out: Vec<u32> = Vec::new();
        let mut i: usize = 0;
        while i < frame_size
            invariant
                i <= frame_size,
                start + frame_size <= usize::MAX,
                total == samples@.len(),
                samples@ == old(self).audio_data@.samples,
                out@.len() == i,
                forall|j: int|
                    0 <= j < i ==> out@[j] == if start + j < total {
                        samples@[start + j]
                    } else {
                        0u32
                    },
            decreases frame_size - i,
        {
            if start + i < total {
                out.push(samples[start + i]);
            } else {
                out.push(0);
            }
            i += 1;
        }
        self.advance_and_check_completion(frame_size);
        out
    }

    /// Reads and clears the transient end-of-data flag.
    ///
    /// Returns the loop mode when the flag was set, so the mixer can
    /// decide between completion and restart; returns `None` otherwise.
    pub fn check_and_clear_end_flag(&mut self) -> (r: Option<LoopMode>)
        ensures
            !final(self).reached_end_flag(),
            final(self).audio_id == old(self).audio_id,
            final(self).audio_data == old(self).audio_data,
            final(self).config == old(self).config,
            final(self).loop_mode == old(self).loop_mode,
            final(self).info == old(self).info,
            r == if old(self).reached_end_flag() {
                Some(old(self).loop_mode)
            } else {
                Option::<LoopMode>::None
            },
    {
        if self.reached_end_this_iteration {
            self.reached_end_this_iteration = false;
            Some(self.loop_mode)
        } else {
            None
        }
    }
}

/// Commands sent from the world to the render side for playback
/// control.
#[derive(Debug)]
pub enum PlaybackCommand {
    /// Play a source with the given configuration and loop mode.
    Play(SourceId, SourceConfig, LoopMode),
    /// Pause a source, keeping its position.
    Pause(SourceId),
    /// Stop a source.
    Stop(SourceId),
    /// Stop all sources.
    StopAll,
    /// Replace the configuration of an active source.
    UpdateConfig(SourceId, SourceConfig),
}

} // verus!
