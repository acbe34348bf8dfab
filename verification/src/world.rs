use vstd::prelude::*;

use std::sync::Arc;

use crate::audio_data::PetalSonicAudioData;
use crate::channel::{channel_try_recv, channel_unbounded, commands_sent, send_command};
use crate::config::{PetalSonicWorldDesc, SourceConfig};
use crate::error::PetalSonicError;
use crate::math::{Pose, Vec3Bits};
use crate::playback::PlaybackCommand;

verus! {

/// Lightweight handle for an audio source registered in a world.
///
/// Handles are minted densely by the world on registration and are
/// never reused within a run.
#[derive(Clone, Copy, Debug, PartialEq, Eq, Hash, Structural)]
pub struct SourceId(pub u64);

/// Spatial properties of an audio source, for querying.
#[derive(Clone, Copy, Debug, PartialEq, Eq, Structural)]
pub struct PetalSonicAudioSource {
    /// The world-space position of the source.
    pub position: Vec3Bits,
    /// The volume of the source, as an IEEE-754 bit pattern.
    pub volume: u32,
}

impl PetalSonicAudioSource {
    /// The world-space position of the source.
    pub fn position(&self) -> (r: Vec3Bits)
        ensures
            r == self.position,
    {
        self.position
    }

    /// The volume of the source, as an IEEE-754 bit pattern.
    pub fn volume(&self) -> (r: u32)
        ensures
            r == self.volume,
    {
        self.volume
    }
}

/// The listener: the pose from which all spatial audio is perceived.
#[derive(Clone, Copy, Debug, PartialEq, Eq, Structural)]
pub struct PetalSonicAudioListener {
    /// The listener's position and orientation.
    pub pose: Pose,
}

impl PetalSonicAudioListener {
    /// A listener with the given pose.
    pub fn new(pose: Pose) -> (r: PetalSonicAudioListener)
        ensures
            r.pose == pose,
    {
        PetalSonicAudioListener { pose }
    }

    /// The current pose of the listener.
    pub fn pose(&self) -> (r: Pose)
        ensures
            r == self.pose,
    {
        self.pose
    }

    /// Replaces the pose of the listener.
    pub fn set_pose(&mut self, pose: Pose)
        ensures
            final(self).pose == pose,
    {
        self.pose = pose;
    }
}

impl Default for PetalSonicAudioListener {
    /// The default listener stands at the identity pose.
    fn default() -> (r: PetalSonicAudioListener)
        ensures
            r.pose == Pose::identity_spec(),
    {
        PetalSonicAudioListener { pose: Pose::identity() }
    }
}

/// One registered source: its handle, its audio data, and how it is
/// rendered.
#[verifier::ext_equal]
pub struct SourceEntry {
    /// The handle minted at registration.
    pub id: SourceId,
    /// The registered audio data, already at the world rate.
    pub data: Arc<PetalSonicAudioData>,
    /// How the source is rendered.
    pub config: SourceConfig,
}

/// Mathematical view of a world: its configuration, its registry of
/// sources, the next handle to mint, and the listener.
pub ghost struct WorldView {
    /// The world configuration.
    pub desc: PetalSonicWorldDesc,
    /// The registered sources, in registration order.
    pub entries: Seq<SourceEntry>,
    /// The next handle to mint.
    pub next_source_id: u64,
    /// The listener.
    pub listener: PetalSonicAudioListener,
    /// The commands handed to the command channel so far, in order.
    pub commands_sent: Seq<PlaybackCommand>,
}

/// Whether the registry holds an entry with the given handle.
pub open spec fn contains_id(s: Seq<SourceEntry>, id: SourceId) -> bool {
    exists|i: int| 0 <= i < s.len() && (#[trigger] s[i]).id == id
}

/// Whether the registry's handles are pairwise distinct.
pub open spec fn entry_ids_unique(s: Seq<SourceEntry>) -> bool {
    forall|i: int, j: int| 0 <= i < j < s.len() ==> (#[trigger] s[i]).id != (#[trigger] s[j]).id
}

/// The audio data registered under the given handle.
pub open spec fn data_of(s: Seq<SourceEntry>, id: SourceId) -> Arc<PetalSonicAudioData> {
    let i = choose|i: int| 0 <= i < s.len() && (#[trigger] s[i]).id == id;
    s[i].data
}

/// The configuration registered under the given handle.
pub open spec fn config_of(s: Seq<SourceEntry>, id: SourceId) -> SourceConfig {
    let i = choose|i: int| 0 <= i < s.len() && (#[trigger] s[i]).id == id;
    s[i].config
}

/// The world façade: the registry of audio sources, the listener pose,
/// and the sending half of the command channel toward the render side.
///
/// The world is driven by the host; the render side reads commands from
/// [`PetalSonicWorld::command_receiver`]. For use across threads, the
/// host wraps the world in its own synchronization.
pub struct PetalSonicWorld {
    desc: PetalSonicWorldDesc,
    entries: Vec<SourceEntry>,
    next_source_id: u64,
    listener: PetalSonicAudioListener,
    command_sender: crossbeam_channel::Sender<PlaybackCommand>,
    command_receiver: crossbeam_channel::Receiver<PlaybackCommand>,
}

impl View for PetalSonicWorld {
    type V = WorldView;

    closed spec fn view(&self) -> WorldView {
        WorldView {
            desc: self.desc,
            entries: self.entries@,
            next_source_id: self.next_source_id,
            listener: self.listener,
            commands_sent: commands_sent(&self.command_sender),
        }
    }
}

impl PetalSonicWorld {
    /// Well-formedness: a valid configuration, pairwise distinct
    /// handles all below the next handle to mint, and every registered
    /// buffer well-formed and at the world rate.
    pub open spec fn wf(&self) -> bool {
        &&& self@.desc.valid()
        &&& entry_ids_unique(self@.entries)
        &&& forall|i: int|
            0 <= i < self@.entries.len() ==> (#[trigger] self@.entries[i]).id.0
                < self@.next_source_id
        &&& forall|i: int|
            0 <= i < self@.entries.len() ==> (#[trigger] self@.entries[i]).data@.wf()
        &&& forall|i: int|
            0 <= i < self@.entries.len() ==> (#[trigger] self@.entries[i]).data@.sample_rate
                == self@.desc.sample_rate
    }

    /// Creates a world with an empty registry, a listener at the
    /// identity pose, and a fresh command channel.
    ///
    /// Returns a `Configuration` error exactly when the descriptor has
    /// a zero sample rate, block size, or channel count.
    pub fn new(config: PetalSonicWorldDesc) -> (r: Result<PetalSonicWorld, PetalSonicError>)
        ensures
            (r is Ok) <==> config.valid(),
            r matches Ok(w) ==> {
                &&& w.wf()
                &&& w@.desc == config
                &&& w@.entries.len() == 0
                &&& w@.next_source_id == 0
                &&& w@.listener.pose == Pose::identity_spec()
            },
            r matches Err(e) ==> e is Configuration,
    {
        if config.sample_rate == 0 || config.block_size == 0 || config.channels == 0 {
            return Err(
                PetalSonicError::Configuration(
                    "Sample rate, block size and channel count must be greater than 0".to_owned(),
                ),
            );
        }
        let (command_sender, command_receiver) = channel_unbounded();
        Ok(
            PetalSonicWorld {
                desc: config,
                entries: Vec::new(),
                next_source_id: 0,
                listener: PetalSonicAudioListener::default(),
                command_sender,
                command_receiver,
            },
        )
    }

    /// The registry index of the entry with the given handle.
    fn index_of(&self, id: SourceId) -> (r: Option<usize>)
        ensures
            r matches Some(i) ==> i < self@.entries.len() && self@.entries[i as int].id == id,
            (r is Some) <==> contains_id(self@.entries, id),
    {
        let n = self.entries.len();
        let mut i: usize = 0;
        while i < n
            invariant
                n == self@.entries.len(),
                self@.entries == self.entries@,
                i <= n,
                forall|j: int| 0 <= j < i ==> (#[trigger] self@.entries[j]).id != id,
            decreases n - i,
        {
            if self.entries[i].id.0 == id.0 {
                return Some(i);
            }
            i += 1;
        }
        None
    }

    /// The sample rate of the world, in Hz.
    pub fn sample_rate(&self) -> (r: u32)
        ensures
            r == self@.desc.sample_rate,
    {
        self.desc.sample_rate
    }

    /// The configuration of the world.
    pub fn desc(&self) -> (r: &PetalSonicWorldDesc)
        ensures
            *r == self@.desc,
    {
        &self.desc
    }

    /// Registers audio data and returns a fresh handle for it.
    ///
    /// The buffer must already be at the world rate: a buffer at any
    /// other rate is rejected with an `AudioFormat` error, and the
    /// offline resampling to the world rate happens outside the engine
    /// before registration. A buffer at the world rate is stored
    /// unchanged, sample for sample.
    pub fn register_audio(&mut self, audio_data: Arc<PetalSonicAudioData>, config: SourceConfig)
        -> (r: Result<SourceId, PetalSonicError>)
        requires
            old(self).wf(),
            audio_data@.wf(),
            old(self)@.next_source_id < u64::MAX,
        ensures
            final(self).wf(),
            (r is Ok) <==> audio_data@.sample_rate == old(self)@.desc.sample_rate,
            r matches Ok(id) ==> {
                &&& id == SourceId(old(self)@.next_source_id)
                &&& final(self)@.entries == old(self)@.entries.push(
                    SourceEntry { id, data: audio_data, config },
                )
                &&& final(self)@.next_source_id == old(self)@.next_source_id + 1
                &&& final(self)@.desc == old(self)@.desc
                &&& final(self)@.listener == old(self)@.listener
                &&& final(self)@.commands_sent == old(self)@.commands_sent
            },
            r matches Err(e) ==> {
                &&& e is AudioFormat
                &&& final(self)@ == old(self)@
            },
    {
        if audio_data.sample_rate() != self.desc.sample_rate {
            return Err(
                PetalSonicError::AudioFormat(
                    "Audio data must be resampled to the world rate before registration".to_owned(),
                ),
            );
        }
        let id = SourceId(self.next_source_id);
        self.next_source_id = self.next_source_id + 1;
        self.entries.push(SourceEntry { id, data: audio_data, config });
        proof {
            assert forall|i: int, j: int|
                0 <= i < j < self@.entries.len() implies (#[trigger] self@.entries[i]).id != (
            #[trigger] self@.entries[j]).id by {
                if j == self@.entries.len() - 1 {
                    assert(old(self)@.entries[i].id.0 < old(self)@.next_source_id);
                }
            }
        }
        Ok(id)
    }

    /// Registers audio data and returns a fresh handle for it; the
    /// world-rate discipline of [`PetalSonicWorld::register_audio`]
    /// applies.
    pub fn add_source(&mut self, audio_data: Arc<PetalSonicAudioData>, config: SourceConfig) -> (r:
        Result<SourceId, PetalSonicError>)
        requires
            old(self).wf(),
            audio_data@.wf(),
            old(self)@.next_source_id < u64::MAX,
        ensures
            final(self).wf(),
            (r is Ok) <==> audio_data@.sample_rate == old(self)@.desc.sample_rate,
            r matches Ok(id) ==> {
                &&& id == SourceId(old(self)@.next_source_id)
                &&& final(self)@.entries == old(self)@.entries.push(
                    SourceEntry { id, data: audio_data, config },
                )
                &&& final(self)@.next_source_id == old(self)@.next_source_id + 1
                &&& final(self)@.desc == old(self)@.desc
                &&& final(self)@.listener == old(self)@.listener
                &&& final(self)@.commands_sent == old(self)@.commands_sent
            },
            r matches Err(e) ==> {
                &&& e is AudioFormat
                &&& final(self)@ == old(self)@
            },
    {
        self.register_audio(audio_data, config)
    }

    /// The audio data registered under the given handle, shared by
    /// reference; `None` when the handle is unknown.
    pub fn get_audio_data(&self, id: SourceId) -> (r: Option<Arc<PetalSonicAudioData>>)
        requires
            self.wf(),
        ensures
            (r is Some) <==> contains_id(self@.entries, id),
            r matches Some(d) ==> d == data_of(self@.entries, id),
    {
        let n = self.entries.len();
        let mut i: usize = 0;
        while i < n
            invariant
                self.wf(),
                n == self@.entries.len(),
                i <= n,
                forall|j: int| 0 <= j < i ==> (#[trigger] self@.entries[j]).id != id,
            decreases n - i,
        {
            if self.entries[i].id.0 == id.0 {
                let d = crate::audio_data::share_audio(&self.entries[i].data);
                proof {
                    let w = choose|w: int|
                        0 <= w < self@.entries.len() && (#[trigger] self@.entries[w]).id == id;
                    assert(self@.entries[i as int].id == id);
                    assert(w == i);
                }
                return Some(d);
            }
            i += 1;
        }
        None
    }

    /// Removes the audio data registered under the given handle and
    /// returns it; `None` when the handle is unknown.
    pub fn remove_audio_data(&mut self, id: SourceId) -> (r: Option<Arc<PetalSonicAudioData>>)
        requires
            old(self).wf(),
        ensures
            final(self).wf(),
            (r is Some) <==> contains_id(old(self)@.entries, id),
            final(self)@.desc == old(self)@.desc,
            final(self)@.next_source_id == old(self)@.next_source_id,
            final(self)@.listener == old(self)@.listener,
            final(self)@.commands_sent == old(self)@.commands_sent,
            r matches Some(d) ==> {
                &&& d == data_of(old(self)@.entries, id)
                &&& exists|w: int|
                    0 <= w < old(self)@.entries.len() && (#[trigger] old(self)@.entries[w]).id
                        == id && final(self)@.entries == old(self)@.entries.remove(w)
            },
            r is None ==> final(self)@.entries == old(self)@.entries,
            !contains_id(final(self)@.entries, id),
    {
        let n = self.entries.len();
        let mut i: usize = 0;
        while i < n
            invariant
                old(self).wf(),
                self == old(self),
                n == self@.entries.len(),
                i <= n,
                forall|j: int| 0 <= j < i ==> (#[trigger] self@.entries[j]).id != id,
            decreases n - i,
        {
            if self.entries[i].id.0 == id.0 {
                proof {
                    let w = choose|w: int|
                        0 <= w < self@.entries.len() && (#[trigger] self@.entries[w]).id == id;
                    assert(self@.entries[i as int].id == id);
                    assert(w == i);
                }
                let entry = self.entries.remove(i);
                proof {
                    assert forall|j: int|
                        0 <= j < self@.entries.len() implies (#[trigger] self@.entries[j]).id
                        != id by {
                        if j < i {
                            assert(self@.entries[j] == old(self)@.entries[j]);
                        } else {
                            assert(self@.entries[j] == old(self)@.entries[j + 1]);
                        }
                    }
                }
                return Some(entry.data);
            }
            i += 1;
        }
        None
    }

    /// The handles of all registered sources, in registration order.
    pub fn get_audio_source_ids(&self) -> (r: Vec<SourceId>)
        ensures
            r@ == self@.entries.map_values(|e: SourceEntry| e.id),
    {
        let n = self.entries.len();
        let mut out: Vec<SourceId> = Vec::new();
        let mut i: usize = 0;
        while i < n
            invariant
                n == self@.entries.len(),
                i <= n,
                self@.entries == self.entries@,
                out@.len() == i,
                forall|j: int| 0 <= j < i ==> out@[j] == (#[trigger] self@.entries[j]).id,
            decreases n - i,
        {
            out.push(self.entries[i].id);
            i += 1;
        }
        proof {
            assert(out@ =~= self@.entries.map_values(|e: SourceEntry| e.id));
        }
        out
    }

    /// Whether a source is registered under the given handle.
    pub fn contains_audio(&self, id: SourceId) -> (r: bool)
        ensures
            r == contains_id(self@.entries, id),
    {
        let n = self.entries.len();
        let mut i: usize = 0;
        while i < n
            invariant
                n == self@.entries.len(),
                self@.entries == self.entries@,
                i <= n,
                forall|j: int| 0 <= j < i ==> (#[trigger] self@.entries[j]).id != id,
            decreases n - i,
        {
            if self.entries[i].id.0 == id.0 {
                return true;
            }
            i += 1;
        }
        false
    }

    /// Replaces the listener pose. The render side reads the new pose
    /// on its next block.
    pub fn set_listener_pose(&mut self, pose: Pose)
        ensures
            final(self)@.listener.pose == pose,
            final(self)@.desc == old(self)@.desc,
            final(self)@.entries == old(self)@.entries,
            final(self)@.next_source_id == old(self)@.next_source_id,
            final(self)@.commands_sent == old(self)@.commands_sent,
    {
        self.listener.pose = pose;
    }

    /// A copy of the current listener.
    pub fn listener(&self) -> (r: PetalSonicAudioListener)
        ensures
            r == self@.listener,
    {
        self.listener
    }

    /// Replaces the configuration of a registered source and hands the
    /// render side exactly one command to update any active instance of
    /// it.
    ///
    /// Returns an `Engine` error when the handle is unknown, leaving
    /// the world unchanged, or when the command channel is closed, in
    /// which case the registry is updated but no command was enqueued.
    pub fn update_source_config(&mut self, audio_id: SourceId, config: SourceConfig) -> (r: Result<
        (),
        PetalSonicError,
    >)
        requires
            old(self).wf(),
        ensures
            final(self).wf(),
            !contains_id(old(self)@.entries, audio_id) ==> (r matches Err(e) && e is Engine
                && final(self)@ == old(self)@),
            contains_id(old(self)@.entries, audio_id) ==> {
                &&& final(self)@.entries.len() == old(self)@.entries.len()
                &&& forall|j: int|
                    0 <= j < old(self)@.entries.len() && (#[trigger] old(self)@.entries[j]).id
                        != audio_id ==> final(self)@.entries[j] == old(self)@.entries[j]
                &&& forall|j: int|
                    0 <= j < old(self)@.entries.len() && (#[trigger] old(self)@.entries[j]).id
                        == audio_id ==> final(self)@.entries[j] == (SourceEntry {
                        config,
                        ..old(self)@.entries[j]
                    })
                &&& final(self)@.desc == old(self)@.desc
                &&& final(self)@.next_source_id == old(self)@.next_source_id
                &&& final(self)@.listener == old(self)@.listener
            },
            r is Ok ==> contains_id(old(self)@.entries, audio_id)
                && final(self)@.commands_sent == old(self)@.commands_sent.push(
                PlaybackCommand::UpdateConfig(audio_id, config),
            ),
            r is Err ==> final(self)@.commands_sent == old(self)@.commands_sent,
            r matches Err(e) ==> e is Engine,
    {
        let idx = match self.index_of(audio_id) {
            Some(i) => i,
            None => {
                return Err(PetalSonicError::Engine("Audio data not found".to_owned()));
            },
        };
        let mut entry = self.entries.remove(idx);
        entry.config = config;
        self.entries.insert(idx, entry);
        proof {
            assert(self@.entries =~= old(self)@.entries.update(
                idx as int,
                SourceEntry { config, ..old(self)@.entries[idx as int] },
            ));
            assert forall|j: int|
                0 <= j < old(self)@.entries.len() && (#[trigger] old(self)@.entries[j]).id
                    == audio_id implies self@.entries[j] == (SourceEntry {
                config,
                ..old(self)@.entries[j]
            }) by {
                if j != idx {
                    assert(old(self)@.entries[idx as int].id == audio_id);
                }
            }
        }
        if !send_command(&mut self.command_sender, PlaybackCommand::UpdateConfig(audio_id, config))
        {
            return Err(PetalSonicError::Engine("Failed to send update config command".to_owned()));
        }
        Ok(())
    }

    /// Asks the render side to play a registered source with the given
    /// loop mode: hands it exactly one play command carrying the
    /// source's registered configuration.
    ///
    /// Returns an `Engine` error, before touching the command channel,
    /// when the handle is unknown; and when the command channel is
    /// closed, in which case nothing was enqueued.
    pub fn play(&mut self, audio_id: SourceId, loop_mode: crate::playback::LoopMode) -> (r: Result<
        (),
        PetalSonicError,
    >)
        requires
            old(self).wf(),
        ensures
            final(self).wf(),
            final(self)@.entries == old(self)@.entries,
            final(self)@.desc == old(self)@.desc,
            final(self)@.next_source_id == old(self)@.next_source_id,
            final(self)@.listener == old(self)@.listener,
            !contains_id(old(self)@.entries, audio_id) ==> (r matches Err(e) && e is Engine
                && final(self)@ == old(self)@),
            r is Ok ==> contains_id(old(self)@.entries, audio_id)
                && final(self)@.commands_sent == old(self)@.commands_sent.push(
                PlaybackCommand::Play(
                    audio_id,
                    config_of(old(self)@.entries, audio_id),
                    loop_mode,
                ),
            ),
            r is Err ==> final(self)@.commands_sent == old(self)@.commands_sent,
            r matches Err(e) ==> e is Engine,
    {
        let idx = match self.index_of(audio_id) {
            Some(i) => i,
            None => {
                return Err(PetalSonicError::Engine("Audio data not found".to_owned()));
            },
        };
        let config = self.entries[idx].config;
        proof {
            let w = choose|w: int|
                0 <= w < self@.entries.len() && (#[trigger] self@.entries[w]).id == audio_id;
            assert(self@.entries[idx as int].id == audio_id);
            assert(w == idx);
        }
        if !send_command(
            &mut self.command_sender,
            PlaybackCommand::Play(audio_id, config, loop_mode),
        ) {
            return Err(PetalSonicError::Engine("Failed to send play command".to_owned()));
        }
        Ok(())
    }

    /// Asks the render side to pause a source: hands it exactly one
    /// pause command. Returns an `Engine` error when the command
    /// channel is closed, in which case nothing was enqueued.
    pub fn pause(&mut self, audio_id: SourceId) -> (r: Result<(), PetalSonicError>)
        ensures
            final(self)@.entries == old(self)@.entries,
            final(self)@.desc == old(self)@.desc,
            final(self)@.next_source_id == old(self)@.next_source_id,
            final(self)@.listener == old(self)@.listener,
            r is Ok ==> final(self)@.commands_sent == old(self)@.commands_sent.push(
                PlaybackCommand::Pause(audio_id),
            ),
            r is Err ==> final(self)@.commands_sent == old(self)@.commands_sent,
            r matches Err(e) ==> e is Engine,
    {
        if !send_command(&mut self.command_sender, PlaybackCommand::Pause(audio_id)) {
            return Err(PetalSonicError::Engine("Failed to send pause command".to_owned()));
        }
        Ok(())
    }

    /// Asks the render side to stop a source: hands it exactly one stop
    /// command. Returns an `Engine` error when the command channel is
    /// closed, in which case nothing was enqueued.
    pub fn stop(&mut self, audio_id: SourceId) -> (r: Result<(), PetalSonicError>)
        ensures
            final(self)@.entries == old(self)@.entries,
            final(self)@.desc == old(self)@.desc,
            final(self)@.next_source_id == old(self)@.next_source_id,
            final(self)@.listener == old(self)@.listener,
            r is Ok ==> final(self)@.commands_sent == old(self)@.commands_sent.push(
                PlaybackCommand::Stop(audio_id),
            ),
            r is Err ==> final(self)@.commands_sent == old(self)@.commands_sent,
            r matches Err(e) ==> e is Engine,
    {
        if !send_command(&mut self.command_sender, PlaybackCommand::Stop(audio_id)) {
            return Err(PetalSonicError::Engine("Failed to send stop command".to_owned()));
        }
        Ok(())
    }

    /// Asks the render side to stop all sources: hands it exactly one
    /// stop-all command. Returns an `Engine` error when the command
    /// channel is closed, in which case nothing was enqueued.
    pub fn stop_all(&mut self) -> (r: Result<(), PetalSonicError>)
        ensures
            final(self)@.entries == old(self)@.entries,
            final(self)@.desc == old(self)@.desc,
            final(self)@.next_source_id == old(self)@.next_source_id,
            final(self)@.listener == old(self)@.listener,
            r is Ok ==> final(self)@.commands_sent == old(self)@.commands_sent.push(
                PlaybackCommand::StopAll,
            ),
            r is Err ==> final(self)@.commands_sent == old(self)@.commands_sent,
            r matches Err(e) ==> e is Engine,
    {
        if !send_command(&mut self.command_sender, PlaybackCommand::StopAll) {
            return Err(PetalSonicError::Engine("Failed to send stop all command".to_owned()));
        }
        Ok(())
    }

    /// The receiving half of the command channel, polled by the render
    /// side.
    pub fn command_receiver(&self) -> &crossbeam_channel::Receiver<PlaybackCommand> {
        &self.command_receiver
    }

    /// Takes one pending command from the command channel without
    /// blocking; `None` when none is pending.
    pub fn try_recv_command(&self) -> Option<PlaybackCommand> {
        channel_try_recv(&self.command_receiver)
    }
}

} // verus!
