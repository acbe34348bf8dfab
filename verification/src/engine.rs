use vstd::prelude::*;

use crate::channel::channel_try_recv;
use crate::config::{PetalSonicWorldDesc, SourceConfig};
use crate::error::PetalSonicError;
use crate::mixer::{
    completed_of, ends_this_block, flags_clear, lemma_completed_contains, wf_active,
};
use crate::playback::{LoopMode, PlayState, PlaybackCommand, PlaybackInfo, PlaybackInstance};
use crate::ring::{ring_occupied_len, ring_vacant_len, RingProducer};
use crate::world::{contains_id, data_of, PetalSonicWorld, SourceId};

verus! {

/// Whether the active set holds an instance for the given source.
pub open spec fn has_instance(s: Seq<PlaybackInstance>, id: SourceId) -> bool {
    exists|i: int| 0 <= i < s.len() && (#[trigger] s[i]).audio_id == id
}

/// Whether the active set's sources are pairwise distinct.
pub open spec fn instance_ids_unique(s: Seq<PlaybackInstance>) -> bool {
    forall|i: int, j: int|
        0 <= i < j < s.len() ==> (#[trigger] s[i]).audio_id != (#[trigger] s[j]).audio_id
}

/// An instance as the `Play` command leaves it: the given configuration
/// and loop mode; resumed in place when it was paused, and otherwise
/// restarted from the beginning.
pub open spec fn played(p: PlaybackInstance, config: SourceConfig, loop_mode: LoopMode) -> PlaybackInstance {
    PlaybackInstance {
        config,
        loop_mode,
        info: PlaybackInfo {
            current_frame: if p.info.play_state is Paused {
                p.info.current_frame
            } else {
                0
            },
            play_state: PlayState::Playing,
            ..p.info
        },
        ..p
    }
}

/// How the `Play` command relates the active set before and after: for
/// an unknown source nothing changes; for a known source its instance
/// is updated as [`played`] says, or created playing from the
/// beginning when there was none.
pub open spec fn play_applies(
    world: PetalSonicWorld,
    s: Seq<PlaybackInstance>,
    t: Seq<PlaybackInstance>,
    id: SourceId,
    config: SourceConfig,
    loop_mode: LoopMode,
) -> bool {
    if !contains_id(world@.entries, id) {
        t == s
    } else if has_instance(s, id) {
        &&& t.len() == s.len()
        &&& forall|j: int|
            0 <= j < s.len() && (#[trigger] s[j]).audio_id != id ==> t[j] == s[j]
        &&& forall|j: int|
            0 <= j < s.len() && (#[trigger] s[j]).audio_id == id ==> t[j] == played(
                s[j],
                config,
                loop_mode,
            )
    } else {
        &&& t.len() == s.len() + 1
        &&& forall|j: int| 0 <= j < s.len() ==> (#[trigger] t[j]) == s[j]
        &&& t.last().audio_id == id
        &&& t.last().audio_data == data_of(world@.entries, id)
        &&& t.last().config == config
        &&& t.last().loop_mode == loop_mode
        &&& t.last().info.current_frame == 0
        &&& t.last().info.play_state is Playing
        &&& !t.last().reached_end_flag()
    }
}

/// How the `Pause` command relates the active set before and after:
/// the source's playing instance becomes paused in place. Pause is the
/// state machine's edge out of playing alone: a paused or stopped
/// instance, like everything else and an unknown source's set, is
/// unchanged.
pub open spec fn pause_applies(
    s: Seq<PlaybackInstance>,
    t: Seq<PlaybackInstance>,
    id: SourceId,
) -> bool {
    &&& t.len() == s.len()
    &&& forall|j: int| 0 <= j < s.len() && (#[trigger] s[j]).audio_id != id ==> t[j] == s[j]
    &&& forall|j: int|
        0 <= j < s.len() && (#[trigger] s[j]).audio_id == id ==> t[j] == (if s[j].playing() {
            PlaybackInstance {
                info: PlaybackInfo { play_state: PlayState::Paused, ..s[j].info },
                ..s[j]
            }
        } else {
            s[j]
        })
}

/// How the `Stop` command relates the active set before and after: the
/// source's instance becomes stopped, keeping its position; the mixer
/// drops stopped instances at its next block.
pub open spec fn stop_applies(
    s: Seq<PlaybackInstance>,
    t: Seq<PlaybackInstance>,
    id: SourceId,
) -> bool {
    &&& t.len() == s.len()
    &&& forall|j: int| 0 <= j < s.len() && (#[trigger] s[j]).audio_id != id ==> t[j] == s[j]
    &&& forall|j: int|
        0 <= j < s.len() && (#[trigger] s[j]).audio_id == id ==> t[j] == (PlaybackInstance {
            info: PlaybackInfo { play_state: PlayState::Stopped, ..s[j].info },
            ..s[j]
        })
}

/// How the `StopAll` command relates the active set before and after:
/// every instance becomes stopped, keeping its position.
pub open spec fn stop_all_applies(s: Seq<PlaybackInstance>, t: Seq<PlaybackInstance>) -> bool {
    &&& t.len() == s.len()
    &&& forall|j: int|
        0 <= j < s.len() ==> (#[trigger] t[j]) == (PlaybackInstance {
            info: PlaybackInfo { play_state: PlayState::Stopped, ..s[j].info },
            ..s[j]
        })
}

/// How the `UpdateConfig` command relates the active set before and
/// after: the source's instance carries the new configuration;
/// an unknown source's set is unchanged.
pub open spec fn update_config_applies(
    s: Seq<PlaybackInstance>,
    t: Seq<PlaybackInstance>,
    id: SourceId,
    config: SourceConfig,
) -> bool {
    &&& t.len() == s.len()
    &&& forall|j: int| 0 <= j < s.len() && (#[trigger] s[j]).audio_id != id ==> t[j] == s[j]
    &&& forall|j: int|
        0 <= j < s.len() && (#[trigger] s[j]).audio_id == id ==> t[j] == (PlaybackInstance {
            config,
            ..s[j]
        })
}

/// How one command relates the active set before and after.
pub open spec fn command_applies(
    world: PetalSonicWorld,
    s: Seq<PlaybackInstance>,
    t: Seq<PlaybackInstance>,
    command: PlaybackCommand,
) -> bool {
    match command {
        PlaybackCommand::Play(id, config, loop_mode) => play_applies(
            world,
            s,
            t,
            id,
            config,
            loop_mode,
        ),
        PlaybackCommand::Pause(id) => pause_applies(s, t, id),
        PlaybackCommand::Stop(id) => stop_applies(s, t, id),
        PlaybackCommand::StopAll => stop_all_applies(s, t),
        PlaybackCommand::UpdateConfig(id, config) => update_config_applies(s, t, id, config),
    }
}

/// A single-element update of the active set preserves
/// well-formedness, clear flags, and distinct sources, provided the new
/// element does too and keeps its source.
proof fn lemma_update_preserves(
    s: Seq<PlaybackInstance>,
    t: Seq<PlaybackInstance>,
    i: int,
    q: PlaybackInstance,
)
    requires
        0 <= i < s.len(),
        t == s.update(i, q),
        wf_active(s),
        flags_clear(s),
        instance_ids_unique(s),
        q.wf(),
        !q.reached_end_flag(),
        q.audio_id == s[i].audio_id,
    ensures
        wf_active(t),
        flags_clear(t),
        instance_ids_unique(t),
{
    assert forall|j: int| 0 <= j < t.len() implies (#[trigger] t[j]).wf() by {
        if j != i {
            assert(t[j] == s[j]);
        }
    }
    assert forall|j: int| 0 <= j < t.len() implies !(#[trigger] t[j]).reached_end_flag() by {
        if j != i {
            assert(t[j] == s[j]);
        }
    }
    assert forall|a: int, b: int|
        0 <= a < b < t.len() implies (#[trigger] t[a]).audio_id != (#[trigger] t[b]).audio_id by {
        assert(s[a].audio_id != s[b].audio_id);
        assert(t[a].audio_id == s[a].audio_id);
        assert(t[b].audio_id == s[b].audio_id);
    }
}

/// Applies a `Play` command: creates or updates the source's
/// instance and starts it, resumed in place when it was paused and
/// from the beginning otherwise. A `Play` for a source the world does
/// not know is dropped.
#[verifier::loop_isolation(false)]
#[verifier::rlimit(30)]
fn apply_play(
    world: &PetalSonicWorld,
    active: &mut Vec<PlaybackInstance>,
    id: SourceId,
    config: SourceConfig,
    loop_mode: LoopMode,
) -> (applied: bool)
    requires
        world.wf(),
        wf_active(old(active)@),
        flags_clear(old(active)@),
        instance_ids_unique(old(active)@),
    ensures
        wf_active(final(active)@),
        flags_clear(final(active)@),
        instance_ids_unique(final(active)@),
        play_applies(*world, old(active)@, final(active)@, id, config, loop_mode),
        applied == contains_id(world@.entries, id),
{
    let data = match world.get_audio_data(id) {
        Some(d) => d,
        None => {
            return false;
        },
    };
    let n = active.len();
    let mut i: usize = 0;
    while i < n
        invariant
            n == active@.len(),
            i <= n,
            active@ == old(active)@,
            wf_active(old(active)@),
            flags_clear(old(active)@),
            instance_ids_unique(old(active)@),
            world.wf(),
            contains_id(world@.entries, id),
            data@.wf(),
            data == data_of(world@.entries, id),
            forall|j: int| 0 <= j < i ==> (#[trigger] active@[j]).audio_id != id,
        decreases n - i,
    {
        if active[i].audio_id.0 == id.0 {
            let mut inst = active.remove(i);
            inst.config = config;
            inst.set_loop_mode(loop_mode);
            let paused = match inst.info.play_state {
                PlayState::Paused => true,
                _ => false,
            };
            if paused {
                inst.resume();
            } else {
                inst.play_from_beginning();
            }
            active.insert(i, inst);
            proof {
                let p = old(active)@[i as int];
                let q = played(p, config, loop_mode);
                assert(p.audio_id == id);
                assert(p.wf());
                assert(active@[i as int].info =~= q.info);
                assert(active@[i as int] =~= q);
                assert(active@ =~= old(active)@.update(i as int, q));
                assert(q.wf());
                lemma_update_preserves(old(active)@, active@, i as int, q);
                assert forall|j: int|
                    0 <= j < old(active)@.len() && (#[trigger] old(
                        active,
                    )@[j]).audio_id != id implies active@[j] == old(active)@[j] by {
                    assert(old(active)@[i as int].audio_id == id);
                }
                assert(has_instance(old(active)@, id));
                assert forall|j: int|
                    0 <= j < old(active)@.len() && (#[trigger] old(
                        active,
                    )@[j]).audio_id == id implies active@[j] == played(
                    old(active)@[j],
                    config,
                    loop_mode,
                ) by {
                    if j != i {
                        assert(old(active)@[j].audio_id != p.audio_id);
                    }
                }
            }
            return true;
        }
        i += 1;
    }
    let mut inst = PlaybackInstance::new(id, data, config, loop_mode);
    inst.play_from_beginning();
    active.push(inst);
    proof {
        assert(!has_instance(old(active)@, id));
        assert(active@.last().wf());
        assert forall|j: int| 0 <= j < active@.len() implies (#[trigger] active@[j]).wf()
            by {
            if j < active@.len() - 1 {
                assert(active@[j] == old(active)@[j]);
            }
        }
        assert forall|j: int|
            0 <= j < active@.len() implies !(#[trigger] active@[j]).reached_end_flag() by {
            if j < active@.len() - 1 {
                assert(active@[j] == old(active)@[j]);
            }
        }
        assert forall|a: int, b: int|
            0 <= a < b < active@.len() implies (#[trigger] active@[a]).audio_id != (
        #[trigger] active@[b]).audio_id by {
            if b == active@.len() - 1 {
                assert(old(active)@[a].audio_id != id);
            }
        }
    }
    true
}

/// Applies a `Pause` command: the source's playing instance becomes
/// paused in place; a paused or stopped instance, and a source with no
/// instance, is left alone.
#[verifier::loop_isolation(false)]
#[verifier::rlimit(30)]
fn apply_pause(active: &mut Vec<PlaybackInstance>, id: SourceId) -> (applied: bool)
    requires
        wf_active(old(active)@),
        flags_clear(old(active)@),
        instance_ids_unique(old(active)@),
    ensures
        wf_active(final(active)@),
        flags_clear(final(active)@),
        instance_ids_unique(final(active)@),
        pause_applies(old(active)@, final(active)@, id),
        applied == has_instance(old(active)@, id),
{
    let n = active.len();
    let mut i: usize = 0;
    while i < n
        invariant
            n == active@.len(),
            i <= n,
            active@ == old(active)@,
            wf_active(old(active)@),
            flags_clear(old(active)@),
            instance_ids_unique(old(active)@),
            forall|j: int| 0 <= j < i ==> (#[trigger] active@[j]).audio_id != id,
        decreases n - i,
    {
        if active[i].audio_id.0 == id.0 {
            let mut inst = active.remove(i);
            let was_playing = match inst.info.play_state {
                PlayState::Playing => true,
                _ => false,
            };
            if was_playing {
                inst.pause();
            }
            active.insert(i, inst);
            proof {
                let p = old(active)@[i as int];
                let q = if p.playing() {
                    PlaybackInstance {
                        info: PlaybackInfo { play_state: PlayState::Paused, ..p.info },
                        ..p
                    }
                } else {
                    p
                };
                assert(p.audio_id == id);
                assert(p.wf());
                assert(active@[i as int].info =~= q.info);
                assert(active@[i as int] =~= q);
                assert(active@ =~= old(active)@.update(i as int, q));
                assert(q.wf());
                lemma_update_preserves(old(active)@, active@, i as int, q);
                assert forall|j: int|
                    0 <= j < old(active)@.len() && (#[trigger] old(
                        active,
                    )@[j]).audio_id != id implies active@[j] == old(active)@[j] by {
                    assert(old(active)@[i as int].audio_id == id);
                }
                assert forall|j: int|
                    0 <= j < old(active)@.len() && (#[trigger] old(
                        active,
                    )@[j]).audio_id == id implies active@[j] == (if old(active)@[j].playing() {
                    PlaybackInstance {
                        info: PlaybackInfo {
                            play_state: PlayState::Paused,
                            ..old(active)@[j].info
                        },
                        ..old(active)@[j]
                    }
                } else {
                    old(active)@[j]
                }) by {
                    if j != i {
                        assert(old(active)@[j].audio_id != p.audio_id);
                    }
                }
            }
            return true;
        }
        i += 1;
    }
    false
}

/// Applies a `Stop` command: the source's instance becomes stopped,
/// keeping its position; the mixer drops it at its next block.
#[verifier::loop_isolation(false)]
#[verifier::rlimit(30)]
fn apply_stop(active: &mut Vec<PlaybackInstance>, id: SourceId) -> (applied: bool)
    requires
        wf_active(old(active)@),
        flags_clear(old(active)@),
        instance_ids_unique(old(active)@),
    ensures
        wf_active(final(active)@),
        flags_clear(final(active)@),
        instance_ids_unique(final(active)@),
        stop_applies(old(active)@, final(active)@, id),
        applied == has_instance(old(active)@, id),
{
    let n = active.len();
    let mut i: usize = 0;
    while i < n
        invariant
            n == active@.len(),
            i <= n,
            active@ == old(active)@,
            wf_active(old(active)@),
            flags_clear(old(active)@),
            instance_ids_unique(old(active)@),
            forall|j: int| 0 <= j < i ==> (#[trigger] active@[j]).audio_id != id,
        decreases n - i,
    {
        if active[i].audio_id.0 == id.0 {
            let mut inst = active.remove(i);
            inst.stop();
            active.insert(i, inst);
            proof {
                let p = old(active)@[i as int];
                let q = (PlaybackInstance {
                    info: PlaybackInfo { play_state: PlayState::Stopped, ..p.info },
                    ..p
                });
                assert(p.audio_id == id);
                assert(p.wf());
                assert(active@[i as int].info =~= q.info);
                assert(active@[i as int] =~= q);
                assert(active@ =~= old(active)@.update(i as int, q));
                assert(q.wf());
                lemma_update_preserves(old(active)@, active@, i as int, q);
                assert forall|j: int|
                    0 <= j < old(active)@.len() && (#[trigger] old(
                        active,
                    )@[j]).audio_id != id implies active@[j] == old(active)@[j] by {
                    assert(old(active)@[i as int].audio_id == id);
                }
                assert forall|j: int|
                    0 <= j < old(active)@.len() && (#[trigger] old(
                        active,
                    )@[j]).audio_id == id implies active@[j] == (PlaybackInstance {
                    info: PlaybackInfo {
                        play_state: PlayState::Stopped,
                        ..old(active)@[j].info
                    },
                    ..old(active)@[j]
                }) by {
                    if j != i {
                        assert(old(active)@[j].audio_id != p.audio_id);
                    }
                }
            }
            return true;
        }
        i += 1;
    }
    false
}

/// Applies a `StopAll` command: every instance becomes stopped,
/// keeping its position.
#[verifier::loop_isolation(false)]
#[verifier::rlimit(30)]
fn apply_stop_all(active: &mut Vec<PlaybackInstance>) -> (applied: bool)
    requires
        wf_active(old(active)@),
        flags_clear(old(active)@),
        instance_ids_unique(old(active)@),
    ensures
        wf_active(final(active)@),
        flags_clear(final(active)@),
        instance_ids_unique(final(active)@),
        stop_all_applies(old(active)@, final(active)@),
        applied,
{
    let n = active.len();
    let mut done: Vec<PlaybackInstance> = Vec::new();
    while active.len() > 0
        invariant
            done@.len() + active@.len() == n,
            n == old(active)@.len(),
            active@ == old(active)@.subrange(done@.len() as int, n as int),
            wf_active(old(active)@),
            flags_clear(old(active)@),
            instance_ids_unique(old(active)@),
            forall|j: int|
                0 <= j < done@.len() ==> (#[trigger] done@[j]) == (PlaybackInstance {
                    info: PlaybackInfo {
                        play_state: PlayState::Stopped,
                        ..old(active)@[j].info
                    },
                    ..old(active)@[j]
                }),
        decreases active@.len(),
    {
        let ghost k = done@.len() as int;
        let mut inst = active.remove(0);
        proof {
            assert(inst == old(active)@[k]);
        }
        inst.stop();
        proof {
            assert(inst =~= (PlaybackInstance {
                info: PlaybackInfo {
                    play_state: PlayState::Stopped,
                    ..old(active)@[k].info
                },
                ..old(active)@[k]
            }));
        }
        done.push(inst);
        proof {
            assert(active@ =~= old(active)@.subrange(done@.len() as int, n as int));
        }
    }
    *active = done;
    proof {
        assert forall|j: int| 0 <= j < active@.len() implies (#[trigger] active@[j]).wf()
            by {
            assert(old(active)@[j].wf());
        }
        assert forall|j: int|
            0 <= j < active@.len() implies !(#[trigger] active@[j]).reached_end_flag() by {
            assert(!old(active)@[j].reached_end_flag());
        }
        assert forall|a: int, b: int|
            0 <= a < b < active@.len() implies (#[trigger] active@[a]).audio_id != (
        #[trigger] active@[b]).audio_id by {
            assert(old(active)@[a].audio_id != old(active)@[b].audio_id);
        }
    }
    true
}

/// Applies an `UpdateConfig` command: the source's instance carries
/// the new configuration; a source with no instance is left alone.
#[verifier::loop_isolation(false)]
#[verifier::rlimit(30)]
fn apply_update_config(
    active: &mut Vec<PlaybackInstance>,
    id: SourceId,
    config: SourceConfig,
) -> (applied: bool)
    requires
        wf_active(old(active)@),
        flags_clear(old(active)@),
        instance_ids_unique(old(active)@),
    ensures
        wf_active(final(active)@),
        flags_clear(final(active)@),
        instance_ids_unique(final(active)@),
        update_config_applies(old(active)@, final(active)@, id, config),
        applied == has_instance(old(active)@, id),
{
    let n = active.len();
    let mut i: usize = 0;
    while i < n
        invariant
            n == active@.len(),
            i <= n,
            active@ == old(active)@,
            wf_active(old(active)@),
            flags_clear(old(active)@),
            instance_ids_unique(old(active)@),
            forall|j: int| 0 <= j < i ==> (#[trigger] active@[j]).audio_id != id,
        decreases n - i,
    {
        if active[i].audio_id.0 == id.0 {
            let mut inst = active.remove(i);
            inst.config = config;
            active.insert(i, inst);
            proof {
                let p = old(active)@[i as int];
                let q = (PlaybackInstance { config, ..p });
                assert(p.audio_id == id);
                assert(p.wf());
                assert(active@[i as int] =~= q);
                assert(active@ =~= old(active)@.update(i as int, q));
                assert(q.wf());
                lemma_update_preserves(old(active)@, active@, i as int, q);
                assert forall|j: int|
                    0 <= j < old(active)@.len() && (#[trigger] old(
                        active,
                    )@[j]).audio_id != id implies active@[j] == old(active)@[j] by {
                    assert(old(active)@[i as int].audio_id == id);
                }
                assert forall|j: int|
                    0 <= j < old(active)@.len() && (#[trigger] old(
                        active,
                    )@[j]).audio_id == id implies active@[j] == (PlaybackInstance {
                    config,
                    ..old(active)@[j]
                }) by {
                    if j != i {
                        assert(old(active)@[j].audio_id != p.audio_id);
                    }
                }
            }
            return true;
        }
        i += 1;
    }
    false
}

/// Applies one playback command to the active set.
///
/// `Play` creates or updates the source's instance and starts it:
/// resumed in place when it was paused, from the beginning otherwise.
/// A `Play` for a source the world does not know is dropped. `Pause`,
/// `Stop` and `StopAll` are the state transitions of those names,
/// keeping positions; `UpdateConfig` replaces the configuration of an
/// existing instance and is dropped otherwise.
pub fn apply_command(
    world: &PetalSonicWorld,
    active: &mut Vec<PlaybackInstance>,
    command: PlaybackCommand,
) -> (applied: bool)
    requires
        world.wf(),
        wf_active(old(active)@),
        flags_clear(old(active)@),
        instance_ids_unique(old(active)@),
    ensures
        wf_active(final(active)@),
        flags_clear(final(active)@),
        instance_ids_unique(final(active)@),
        command_applies(*world, old(active)@, final(active)@, command),
        applied == match command {
            PlaybackCommand::Play(id, _, _) => contains_id(world@.entries, id),
            PlaybackCommand::Pause(id) => has_instance(old(active)@, id),
            PlaybackCommand::Stop(id) => has_instance(old(active)@, id),
            PlaybackCommand::StopAll => true,
            PlaybackCommand::UpdateConfig(id, _) => has_instance(old(active)@, id),
        },
{
    match command {
        PlaybackCommand::Play(id, config, loop_mode) => apply_play(
            world,
            active,
            id,
            config,
            loop_mode,
        ),
        PlaybackCommand::Pause(id) => apply_pause(active, id),
        PlaybackCommand::Stop(id) => apply_stop(active, id),
        PlaybackCommand::StopAll => apply_stop_all(active),
        PlaybackCommand::UpdateConfig(id, config) => apply_update_config(active, id, config),
    }
}

/// Drains the world's command channel without blocking and applies
/// the pending commands to the active set, in arrival order, up to
/// `max_commands` of them per call.
///
/// This runs on the render side once before each mixer block, and in
/// the device callback so host actions take effect promptly. The bound
/// keeps one call from starving the caller when commands flood in;
/// what is left over is drained on the following blocks.
pub fn process_playback_commands(
    world: &PetalSonicWorld,
    active: &mut Vec<PlaybackInstance>,
    max_commands: usize,
)
    requires
        world.wf(),
        wf_active(old(active)@),
        flags_clear(old(active)@),
        instance_ids_unique(old(active)@),
    ensures
        wf_active(final(active)@),
        flags_clear(final(active)@),
        instance_ids_unique(final(active)@),
{
    let mut i: usize = 0;
    while i < max_commands
        invariant
            world.wf(),
            wf_active(active@),
            flags_clear(active@),
            instance_ids_unique(active@),
            i <= max_commands,
        decreases max_commands - i,
    {
        let command = match channel_try_recv(world.command_receiver()) {
            Some(c) => c,
            None => {
                return ;
            },
        };
        apply_command(world, active, command);
        i += 1;
    }
}

/// How many device-rate frames the render loop should generate this
/// iteration: none while the ring buffer holds at least four blocks
/// (backpressure), and otherwise up to two blocks, bounded by the free
/// space. In particular a full ring buffer (no vacancy) stops all
/// generation, so no mixer pass runs and no cursor advances.
pub fn samples_to_generate(occupied: usize, vacant: usize, block_size: usize) -> (r: usize)
    requires
        block_size <= usize::MAX / 4,
    ensures
        r == if occupied >= 4 * block_size {
            0int
        } else if vacant <= 2 * block_size {
            vacant as int
        } else {
            2 * block_size as int
        },
        vacant == 0 ==> r == 0,
        r <= vacant,
{
    if occupied >= 4 * block_size {
        return 0;
    }
    let cap = 2 * block_size;
    if vacant <= cap {
        vacant
    } else {
        cap
    }
}

/// Reads the ring buffer's occupancy and decides how many device-rate
/// frames the render loop should generate this iteration, following
/// [`samples_to_generate`]. The occupancy readings are racy against
/// the device callback, so only the bound on the result is promised.
pub fn render_budget(producer: &RingProducer, block_size: usize) -> (r: usize)
    requires
        block_size <= usize::MAX / 4,
    ensures
        r <= 2 * block_size,
{
    let occupied = ring_occupied_len(producer);
    let vacant = ring_vacant_len(producer);
    samples_to_generate(occupied, vacant, block_size)
}

/// Lifecycle of the audio engine, as a state machine: created stopped,
/// then started and stopped by the host. The device stream and the
/// render thread that realize it live outside the engine.
pub struct AudioEngine {
    desc: PetalSonicWorldDesc,
    running: bool,
}

impl AudioEngine {
    /// Whether the engine is currently running.
    pub closed spec fn is_running_spec(&self) -> bool {
        self.running
    }

    /// The configuration the engine was built with.
    pub closed spec fn desc_spec(&self) -> PetalSonicWorldDesc {
        self.desc
    }

    /// Creates a stopped engine for the given configuration.
    ///
    /// Returns a `Configuration` error exactly when the descriptor has
    /// a zero sample rate, block size, or channel count.
    pub fn new(config: PetalSonicWorldDesc) -> (r: Result<AudioEngine, PetalSonicError>)
        ensures
            (r is Ok) <==> config.valid(),
            r matches Ok(e) ==> !e.is_running_spec() && e.desc_spec() == config,
            r matches Err(e) ==> e is Configuration,
    {
        if config.sample_rate == 0 || config.block_size == 0 || config.channels == 0 {
            return Err(
                PetalSonicError::Configuration(
                    "Sample rate, block size and channel count must be greater than 0".to_owned(),
                ),
            );
        }
        Ok(AudioEngine { desc: config, running: false })
    }

    /// Whether the engine is currently running.
    pub fn is_running(&self) -> (r: bool)
        ensures
            r == self.is_running_spec(),
    {
        self.running
    }

    /// Marks the engine running. Starting a running engine changes
    /// nothing.
    pub fn start(&mut self) -> (r: Result<(), PetalSonicError>)
        ensures
            r is Ok,
            final(self).is_running_spec(),
            final(self).desc_spec() == old(self).desc_spec(),
    {
        self.running = true;
        Ok(())
    }

    /// Marks the engine stopped. Stopping a stopped engine changes
    /// nothing.
    pub fn stop(&mut self) -> (r: Result<(), PetalSonicError>)
        ensures
            r is Ok,
            !final(self).is_running_spec(),
            final(self).desc_spec() == old(self).desc_spec(),
    {
        self.running = false;
        Ok(())
    }
}

/// Law: a source with an empty audio buffer, told to play with loop
/// mode `Once`, completes on the first mixer block after the command
/// applies: it is reported among the completed sources (and, by
/// [`crate::mixer::lemma_completed_source_removed`], its instance does
/// not survive the block). It contributes no samples, its data being
/// empty.
pub proof fn lemma_empty_source_completes_first_block(
    world: PetalSonicWorld,
    s0: Seq<PlaybackInstance>,
    s1: Seq<PlaybackInstance>,
    id: SourceId,
    config: SourceConfig,
    block_frames: int,
    spatial_enabled: bool,
)
    requires
        world.wf(),
        contains_id(world@.entries, id),
        wf_active(s1),
        !has_instance(s0, id),
        play_applies(world, s0, s1, id, config, LoopMode::Once),
        data_of(world@.entries, id)@.samples.len() == 0,
        block_frames >= 0,
        spatial_enabled || !(config is Spatial),
    ensures
        completed_of(s1, block_frames, spatial_enabled).contains(id),
{
    let j = s1.len() - 1;
    assert(s1[j] == s1.last());
    assert(s1[j].wf());
    assert(s1[j].total() == 0);
    assert(ends_this_block(s1[j], block_frames, spatial_enabled));
    lemma_completed_contains(s1, block_frames, spatial_enabled, j);
}

/// Law: commands apply in issue order. If the host issues `Play`, then
/// `Pause`, then `Play` for one source the world knows, the final
/// observable state of that source is playing.
pub proof fn lemma_commands_apply_in_order(
    world: PetalSonicWorld,
    s0: Seq<PlaybackInstance>,
    s1: Seq<PlaybackInstance>,
    s2: Seq<PlaybackInstance>,
    s3: Seq<PlaybackInstance>,
    id: SourceId,
    config1: SourceConfig,
    mode1: LoopMode,
    config2: SourceConfig,
    mode2: LoopMode,
)
    requires
        contains_id(world@.entries, id),
        instance_ids_unique(s0),
        play_applies(world, s0, s1, id, config1, mode1),
        pause_applies(s1, s2, id),
        play_applies(world, s2, s3, id, config2, mode2),
    ensures
        has_instance(s3, id),
        forall|j: int|
            0 <= j < s3.len() && (#[trigger] s3[j]).audio_id == id ==> s3[j].playing(),
{
    if has_instance(s0, id) {
        let w = choose|w: int| 0 <= w < s0.len() && (#[trigger] s0[w]).audio_id == id;
        assert(s1[w].audio_id == id);
        assert(has_instance(s1, id));
    } else {
        assert(s1.last().audio_id == id);
        assert(has_instance(s1, id));
    }
    let v = choose|v: int| 0 <= v < s1.len() && (#[trigger] s1[v]).audio_id == id;
    assert(s2[v].audio_id == id);
    assert(has_instance(s2, id));
    assert forall|j: int|
        0 <= j < s3.len() && (#[trigger] s3[j]).audio_id == id implies s3[j].playing() by {
        if has_instance(s2, id) {
            if j < s2.len() {
                if s2[j].audio_id == id {
                    assert(s3[j] == played(s2[j], config2, mode2));
                }
            }
        }
    }
}

/// Law: pausing a playing source and then resuming it through `Play`
/// restores the cursor exactly. A paused instance keeps its position,
/// and a `Play` on a paused instance resumes it in place.
pub proof fn lemma_pause_then_play_resumes(
    world: PetalSonicWorld,
    s0: Seq<PlaybackInstance>,
    s1: Seq<PlaybackInstance>,
    s2: Seq<PlaybackInstance>,
    id: SourceId,
    config: SourceConfig,
    mode: LoopMode,
    j: int,
)
    requires
        contains_id(world@.entries, id),
        instance_ids_unique(s0),
        0 <= j < s0.len(),
        s0[j].audio_id == id,
        s0[j].playing(),
        pause_applies(s0, s1, id),
        play_applies(world, s1, s2, id, config, mode),
    ensures
        s2.len() == s0.len(),
        s2[j].playing(),
        s2[j].cursor() == s0[j].cursor(),
{
    assert(s1[j].audio_id == id);
    assert(has_instance(s1, id));
    assert(s2[j] == played(s1[j], config, mode));
}

} // verus!
