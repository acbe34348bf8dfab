use vstd::prelude::*;
use vstd::seq_lib::*;

use crate::config::SourceConfig;
use crate::math::Vec3Bits;
use crate::playback::{LoopMode, PlayState, PlaybackInfo, PlaybackInstance};
use crate::world::SourceId;

verus! {

/// Result of mixing one render block.
pub struct MixResult {
    /// The largest number of frames any source contributed to the block.
    pub frames_filled: usize,
    /// Sources that finished this block with loop mode `Once`.
    pub completed_sources: Vec<SourceId>,
    /// Sources that reached their end this block with loop mode
    /// `Infinite` and were restarted.
    pub looped_sources: Vec<SourceId>,
}

/// What one non-spatial source adds to a render block: its mono
/// samples, to be summed into every channel of the block.
pub struct NonSpatialContribution {
    /// The contributing source.
    pub source_id: SourceId,
    /// The mono sample bit patterns, one per frame contributed.
    pub samples: Vec<u32>,
}

/// Mathematical view of a non-spatial contribution.
pub ghost struct ContributionView {
    /// The contributing source.
    pub source_id: SourceId,
    /// The contributed mono sample bit patterns.
    pub samples: Seq<u32>,
}

impl View for NonSpatialContribution {
    type V = ContributionView;

    open spec fn view(&self) -> ContributionView {
        ContributionView { source_id: self.source_id, samples: self.samples@ }
    }
}

/// One spatial source's input to the HRTF pipeline for one block:
/// exactly one block of mono samples plus the spatial parameters.
pub struct SpatialInput {
    /// The contributing source.
    pub source_id: SourceId,
    /// Exactly one block of mono sample bit patterns, zero-filled past
    /// the end of the source's data.
    pub samples: Vec<u32>,
    /// World-space position of the source.
    pub position: Vec3Bits,
    /// Volume of the source, as an IEEE-754 bit pattern.
    pub volume: u32,
}

/// Mathematical view of a spatial input.
pub ghost struct SpatialInputView {
    /// The contributing source.
    pub source_id: SourceId,
    /// The block of mono sample bit patterns.
    pub samples: Seq<u32>,
    /// World-space position of the source.
    pub position: Vec3Bits,
    /// Volume of the source, as an IEEE-754 bit pattern.
    pub volume: u32,
}

impl View for SpatialInput {
    type V = SpatialInputView;

    open spec fn view(&self) -> SpatialInputView {
        SpatialInputView {
            source_id: self.source_id,
            samples: self.samples@,
            position: self.position,
            volume: self.volume,
        }
    }
}

/// Whether every instance of the sequence is well-formed.
pub open spec fn wf_active(s: Seq<PlaybackInstance>) -> bool {
    forall|i: int| 0 <= i < s.len() ==> #[trigger] s[i].wf()
}

/// Whether no instance of the sequence has its end flag set. This holds
/// whenever the active set is observed outside the mixer's
/// within-block window.
pub open spec fn flags_clear(s: Seq<PlaybackInstance>) -> bool {
    forall|i: int| 0 <= i < s.len() ==> !(#[trigger] s[i]).reached_end_flag()
}

/// Whether the mixer renders this instance during a block: it must be
/// playing, and a spatial instance is rendered only when a spatial
/// processor is available.
pub open spec fn rendered(p: PlaybackInstance, spatial_enabled: bool) -> bool {
    p.playing() && (spatial_enabled || !(p.config is Spatial))
}

/// Whether this instance reaches the end of its data during a block of
/// `block_frames` frames.
pub open spec fn ends_this_block(p: PlaybackInstance, block_frames: int, spatial_enabled: bool) -> bool {
    rendered(p, spatial_enabled) && p.cursor() + block_frames >= p.total()
}

/// The instance after the mixer's fill pass for one block: the cursor
/// advanced (clamped to the end of the data), the end flag set and the
/// state stopped when the end was reached; unchanged when the instance
/// was not rendered.
pub open spec fn after_fill(p: PlaybackInstance, block_frames: int, spatial_enabled: bool) -> PlaybackInstance {
    if rendered(p, spatial_enabled) {
        if p.cursor() + block_frames >= p.total() {
            PlaybackInstance {
                info: PlaybackInfo {
                    current_frame: p.info.total_frames,
                    play_state: PlayState::Stopped,
                    ..p.info
                },
                reached_end_this_iteration: true,
                ..p
            }
        } else {
            PlaybackInstance {
                info: PlaybackInfo {
                    current_frame: (p.cursor() + block_frames) as usize,
                    ..p.info
                },
                ..p
            }
        }
    } else {
        p
    }
}

/// The instance after the mixer's event pass: the end flag cleared,
/// and an `Infinite` instance that had reached its end restarted from
/// the beginning.
pub open spec fn after_events(p: PlaybackInstance) -> PlaybackInstance {
    if p.reached_end_flag() {
        if p.loop_mode is Infinite {
            PlaybackInstance {
                info: PlaybackInfo {
                    current_frame: 0,
                    play_state: PlayState::Playing,
                    ..p.info
                },
                reached_end_this_iteration: false,
                ..p
            }
        } else {
            PlaybackInstance { reached_end_this_iteration: false, ..p }
        }
    } else {
        p
    }
}

/// The instance after one whole mixer block.
pub open spec fn block_step(p: PlaybackInstance, block_frames: int, spatial_enabled: bool) -> PlaybackInstance {
    after_events(after_fill(p, block_frames, spatial_enabled))
}

/// Whether the instance survives the mixer's removal pass: stopped
/// instances are dropped, playing and paused ones are kept.
pub open spec fn kept(p: PlaybackInstance) -> bool {
    !(p.info.play_state is Stopped)
}

/// The non-spatial contribution of an instance to a block: its samples
/// from the cursor to the end of the block or of the data.
pub open spec fn contribution_of(p: PlaybackInstance, block_frames: int) -> ContributionView {
    ContributionView {
        source_id: p.audio_id,
        samples: p.audio_data@.samples.subrange(
            p.cursor(),
            if p.cursor() + block_frames <= p.total() {
                p.cursor() + block_frames
            } else {
                p.total()
            },
        ),
    }
}

/// The spatial input of an instance for a block: exactly one block of
/// samples, zero-filled past the end of the data.
pub open spec fn spatial_input_of(p: PlaybackInstance, block_frames: int) -> SpatialInputView {
    SpatialInputView {
        source_id: p.audio_id,
        samples: Seq::new(
            block_frames as nat,
            |i: int|
                if p.cursor() + i < p.total() {
                    p.audio_data@.samples[p.cursor() + i]
                } else {
                    0u32
                },
        ),
        position: match p.config {
            SourceConfig::Spatial { position, .. } => position,
            SourceConfig::NonSpatial => Vec3Bits { x: 0, y: 0, z: 0 },
        },
        volume: match p.config {
            SourceConfig::Spatial { volume, .. } => volume,
            SourceConfig::NonSpatial => 0u32,
        },
    }
}

/// How many frames an instance contributes to a block.
pub open spec fn contribution_frames(p: PlaybackInstance, block_frames: int, spatial_enabled: bool) -> int {
    if p.playing() {
        if p.config is Spatial {
            if spatial_enabled {
                block_frames
            } else {
                0
            }
        } else {
            if p.cursor() + block_frames <= p.total() {
                block_frames
            } else {
                p.total() - p.cursor()
            }
        }
    } else {
        0
    }
}

/// The largest number of frames any instance of the sequence
/// contributes to a block.
pub open spec fn frames_filled_of(s: Seq<PlaybackInstance>, block_frames: int, spatial_enabled: bool) -> int
    decreases s.len(),
{
    if s.len() == 0 {
        0
    } else {
        let rest = frames_filled_of(s.drop_last(), block_frames, spatial_enabled);
        let last = contribution_frames(s.last(), block_frames, spatial_enabled);
        if last >= rest {
            last
        } else {
            rest
        }
    }
}

/// Whether an instance is playing and non-spatial.
pub open spec fn playing_non_spatial(p: PlaybackInstance) -> bool {
    p.playing() && !(p.config is Spatial)
}

/// Whether an instance is playing and spatial.
pub open spec fn playing_spatial(p: PlaybackInstance) -> bool {
    p.playing() && (p.config is Spatial)
}

/// The non-spatial contributions of a sequence of instances, in order.
pub open spec fn contributions_of(s: Seq<PlaybackInstance>, block_frames: int) -> Seq<
    ContributionView,
> {
    s.filter(|p: PlaybackInstance| playing_non_spatial(p)).map_values(
        |p: PlaybackInstance| contribution_of(p, block_frames),
    )
}

/// The spatial inputs of a sequence of instances, in order.
pub open spec fn spatial_inputs_of(s: Seq<PlaybackInstance>, block_frames: int) -> Seq<
    SpatialInputView,
> {
    s.filter(|p: PlaybackInstance| playing_spatial(p)).map_values(
        |p: PlaybackInstance| spatial_input_of(p, block_frames),
    )
}

/// The sources of a sequence that complete during a block: they reach
/// their end and their loop mode is `Once`.
pub open spec fn completed_of(s: Seq<PlaybackInstance>, block_frames: int, spatial_enabled: bool) -> Seq<
    SourceId,
> {
    s.filter(
        |p: PlaybackInstance| ends_this_block(p, block_frames, spatial_enabled) && p.loop_mode is Once,
    ).map_values(|p: PlaybackInstance| p.audio_id)
}

/// The sources of a sequence that loop during a block: they reach
/// their end and their loop mode is `Infinite`.
pub open spec fn looped_of(s: Seq<PlaybackInstance>, block_frames: int, spatial_enabled: bool) -> Seq<
    SourceId,
> {
    s.filter(
        |p: PlaybackInstance| ends_this_block(p, block_frames, spatial_enabled) && p.loop_mode
            is Infinite,
    ).map_values(|p: PlaybackInstance| p.audio_id)
}

/// Every instance of the sequence after one whole mixer block.
pub open spec fn stepped(s: Seq<PlaybackInstance>, block_frames: int, spatial_enabled: bool) -> Seq<
    PlaybackInstance,
> {
    s.map_values(|p: PlaybackInstance| block_step(p, block_frames, spatial_enabled))
}

/// The instances of the sequence that survive the removal pass.
pub open spec fn retained(s: Seq<PlaybackInstance>) -> Seq<PlaybackInstance> {
    s.filter(|p: PlaybackInstance| kept(p))
}

/// Extending a sequence by one instance extends its non-spatial
/// contributions exactly when the instance is playing and non-spatial.
proof fn lemma_contributions_push(s: Seq<PlaybackInstance>, e: PlaybackInstance, block_frames: int)
    ensures
        contributions_of(s.push(e), block_frames) == if playing_non_spatial(e) {
            contributions_of(s, block_frames).push(contribution_of(e, block_frames))
        } else {
            contributions_of(s, block_frames)
        },
{
    reveal(Seq::filter);
    assert(s.push(e).drop_last() =~= s);
    if playing_non_spatial(e) {
        assert(contributions_of(s.push(e), block_frames) =~= contributions_of(
            s,
            block_frames,
        ).push(contribution_of(e, block_frames)));
    } else {
        assert(contributions_of(s.push(e), block_frames) =~= contributions_of(s, block_frames));
    }
}

/// Extending a sequence by one instance extends its spatial inputs
/// exactly when the instance is playing and spatial.
proof fn lemma_spatial_inputs_push(s: Seq<PlaybackInstance>, e: PlaybackInstance, block_frames: int)
    ensures
        spatial_inputs_of(s.push(e), block_frames) == if playing_spatial(e) {
            spatial_inputs_of(s, block_frames).push(spatial_input_of(e, block_frames))
        } else {
            spatial_inputs_of(s, block_frames)
        },
{
    reveal(Seq::filter);
    assert(s.push(e).drop_last() =~= s);
    if playing_spatial(e) {
        assert(spatial_inputs_of(s.push(e), block_frames) =~= spatial_inputs_of(
            s,
            block_frames,
        ).push(spatial_input_of(e, block_frames)));
    } else {
        assert(spatial_inputs_of(s.push(e), block_frames) =~= spatial_inputs_of(s, block_frames));
    }
}

/// Extending a sequence by one instance extends its completed sources
/// exactly when the instance ends this block with loop mode `Once`.
proof fn lemma_completed_push(
    s: Seq<PlaybackInstance>,
    e: PlaybackInstance,
    block_frames: int,
    spatial_enabled: bool,
)
    ensures
        completed_of(s.push(e), block_frames, spatial_enabled) == if ends_this_block(
            e,
            block_frames,
            spatial_enabled,
        ) && e.loop_mode is Once {
            completed_of(s, block_frames, spatial_enabled).push(e.audio_id)
        } else {
            completed_of(s, block_frames, spatial_enabled)
        },
{
    reveal(Seq::filter);
    assert(s.push(e).drop_last() =~= s);
    if ends_this_block(e, block_frames, spatial_enabled) && e.loop_mode is Once {
        assert(completed_of(s.push(e), block_frames, spatial_enabled) =~= completed_of(
            s,
            block_frames,
            spatial_enabled,
        ).push(e.audio_id));
    } else {
        assert(completed_of(s.push(e), block_frames, spatial_enabled) =~= completed_of(
            s,
            block_frames,
            spatial_enabled,
        ));
    }
}

/// Extending a sequence by one instance extends its looped sources
/// exactly when the instance ends this block with loop mode `Infinite`.
proof fn lemma_looped_push(
    s: Seq<PlaybackInstance>,
    e: PlaybackInstance,
    block_frames: int,
    spatial_enabled: bool,
)
    ensures
        looped_of(s.push(e), block_frames, spatial_enabled) == if ends_this_block(
            e,
            block_frames,
            spatial_enabled,
        ) && e.loop_mode is Infinite {
            looped_of(s, block_frames, spatial_enabled).push(e.audio_id)
        } else {
            looped_of(s, block_frames, spatial_enabled)
        },
{
    reveal(Seq::filter);
    assert(s.push(e).drop_last() =~= s);
    if ends_this_block(e, block_frames, spatial_enabled) && e.loop_mode is Infinite {
        assert(looped_of(s.push(e), block_frames, spatial_enabled) =~= looped_of(
            s,
            block_frames,
            spatial_enabled,
        ).push(e.audio_id));
    } else {
        assert(looped_of(s.push(e), block_frames, spatial_enabled) =~= looped_of(
            s,
            block_frames,
            spatial_enabled,
        ));
    }
}

/// Extending a sequence by one instance extends its retained instances
/// exactly when the instance is not stopped.
proof fn lemma_retained_push(s: Seq<PlaybackInstance>, e: PlaybackInstance)
    ensures
        retained(s.push(e)) == if kept(e) {
            retained(s).push(e)
        } else {
            retained(s)
        },
{
    reveal(Seq::filter);
    assert(s.push(e).drop_last() =~= s);
    if kept(e) {
        assert(retained(s.push(e)) =~= retained(s).push(e));
    } else {
        assert(retained(s.push(e)) =~= retained(s));
    }
}

/// Every retained instance occurs in the sequence it was retained from.
pub proof fn lemma_retained_elements(s: Seq<PlaybackInstance>, i: int)
    requires
        0 <= i < retained(s).len(),
    ensures
        exists|j: int| 0 <= j < s.len() && s[j] == retained(s)[i],
    decreases s.len(),
{
    reveal(Seq::filter);
    if s.len() > 0 {
        let prefix = s.drop_last();
        if kept(s.last()) && i == retained(s).len() - 1 {
            assert(s[s.len() - 1] == retained(s)[i]);
        } else {
            lemma_retained_elements(prefix, i);
            let w = choose|w: int| 0 <= w < prefix.len() && prefix[w] == retained(prefix)[i];
            assert(s[w] == retained(s)[i]);
        }
    }
}

/// One mixer block keeps an instance well-formed and leaves its end
/// flag clear.
proof fn lemma_block_step_wf(p: PlaybackInstance, block_frames: int, spatial_enabled: bool)
    requires
        p.wf(),
        !p.reached_end_flag(),
        block_frames >= 0,
    ensures
        block_step(p, block_frames, spatial_enabled).wf(),
        !block_step(p, block_frames, spatial_enabled).reached_end_flag(),
{
}


/// Mixes one render block.
///
/// Consumes the active instances' data for one block of `block_frames`
/// frames and reports what each source contributes: the mono samples
/// of every playing non-spatial instance (to be summed into every
/// channel of the block), and one whole block of samples plus spatial
/// parameters for every playing spatial instance when a spatial
/// processor is available (`spatial_enabled`). Spatial instances are
/// left untouched when none is available; they stay silent.
///
/// After filling, every instance whose end flag was set this block is
/// handled: with loop mode `Once` it is reported completed, with
/// `Infinite` it is restarted from the beginning and reported looped.
/// All end flags are clear afterwards. Stopped instances are then
/// dropped from the active set.
pub fn mix_playback_instances(
    active: &mut Vec<PlaybackInstance>,
    block_frames: usize,
    spatial_enabled: bool,
) -> (r: (MixResult, Vec<NonSpatialContribution>, Vec<SpatialInput>))
    requires
        wf_active(old(active)@),
        flags_clear(old(active)@),
        forall|i: int|
            0 <= i < old(active)@.len() ==> #[trigger] old(active)@[i].total() + block_frames
                <= usize::MAX,
    ensures
        final(active)@ == retained(stepped(old(active)@, block_frames as int, spatial_enabled)),
        wf_active(final(active)@),
        flags_clear(final(active)@),
        r.0.frames_filled == frames_filled_of(old(active)@, block_frames as int, spatial_enabled),
        r.0.completed_sources@ == completed_of(old(active)@, block_frames as int, spatial_enabled),
        r.0.looped_sources@ == looped_of(old(active)@, block_frames as int, spatial_enabled),
        r.1@.map_values(|c: NonSpatialContribution| c@) == contributions_of(
            old(active)@,
            block_frames as int,
        ),
        r.2@.map_values(|sp: SpatialInput| sp@) == if spatial_enabled {
            spatial_inputs_of(old(active)@, block_frames as int)
        } else {
            Seq::<SpatialInputView>::empty()
        },
{
    let ghost orig = old(active)@;
    let ghost bf = block_frames as int;

    // Fill pass: consume one block from every playing instance,
    // collecting the non-spatial contributions and the spatial inputs.
    let mut filled: Vec<PlaybackInstance> = Vec::new();
    let mut contribs: Vec<NonSpatialContribution> = Vec::new();
    let mut spatials: Vec<SpatialInput> = Vec::new();
    let mut frames_filled: usize = 0;
    proof {
        assert(orig.subrange(0, 0) =~= Seq::<PlaybackInstance>::empty());
        assert(contributions_of(orig.subrange(0, 0), bf) =~= Seq::<ContributionView>::empty()) by {
            reveal(Seq::filter);
        }
        assert(spatial_inputs_of(orig.subrange(0, 0), bf) =~= Seq::<SpatialInputView>::empty())
            by {
            reveal(Seq::filter);
        }
    }
    while active.len() > 0
        invariant
            wf_active(orig),
            flags_clear(orig),
            forall|i: int|
                0 <= i < orig.len() ==> #[trigger] orig[i].total() + block_frames <= usize::MAX,
            bf == block_frames as int,
            filled@.len() + active@.len() == orig.len(),
            active@ == orig.subrange(filled@.len() as int, orig.len() as int),
            forall|j: int|
                0 <= j < filled@.len() ==> #[trigger] filled@[j] == after_fill(
                    orig[j],
                    bf,
                    spatial_enabled,
                ),
            contribs@.map_values(|c: NonSpatialContribution| c@) == contributions_of(
                orig.subrange(0, filled@.len() as int),
                bf,
            ),
            spatials@.map_values(|sp: SpatialInput| sp@) == if spatial_enabled {
                spatial_inputs_of(orig.subrange(0, filled@.len() as int), bf)
            } else {
                Seq::<SpatialInputView>::empty()
            },
            frames_filled == frames_filled_of(
                orig.subrange(0, filled@.len() as int),
                bf,
                spatial_enabled,
            ),
        decreases active@.len(),
    {
        let ghost k = filled@.len() as int;
        let mut inst = active.remove(0);
        proof {
            assert(inst == orig[k]);
        }
        proof {
            assert(orig[k].total() + block_frames <= usize::MAX);
            assert(orig[k].wf());
        }
        let playing = match inst.info.play_state {
            PlayState::Playing => true,
            _ => false,
        };
        if playing {
            match inst.config {
                SourceConfig::Spatial { position, volume } => {
                    if spatial_enabled {
                        let samples = inst.spatial_input_block(block_frames);
                        proof {
                            assert(samples@ =~= spatial_input_of(orig[k], bf).samples);
                        }
                        spatials.push(
                            SpatialInput { source_id: inst.audio_id, samples, position, volume },
                        );
                        if block_frames > frames_filled {
                            frames_filled = block_frames;
                        }
                    }
                },
                SourceConfig::NonSpatial => {
                    let samples = inst.fill_buffer(block_frames);
                    proof {
                        assert(samples@ =~= contribution_of(orig[k], bf).samples);
                    }
                    if samples.len() > frames_filled {
                        frames_filled = samples.len();
                    }
                    contribs.push(NonSpatialContribution { source_id: inst.audio_id, samples });
                },
            }
        }
        proof {
            assert(inst =~= after_fill(orig[k], bf, spatial_enabled));
            let pre = orig.subrange(0, k);
            assert(orig.subrange(0, k + 1) =~= pre.push(orig[k]));
            lemma_contributions_push(pre, orig[k], bf);
            lemma_spatial_inputs_push(pre, orig[k], bf);
            assert(pre.push(orig[k]).drop_last() =~= pre);
            if playing_non_spatial(orig[k]) {
                assert(contribs@.map_values(|c: NonSpatialContribution| c@) =~= contributions_of(
                    orig.subrange(0, k + 1),
                    bf,
                ));
            } else {
                assert(contribs@.map_values(|c: NonSpatialContribution| c@) =~= contributions_of(
                    orig.subrange(0, k + 1),
                    bf,
                ));
            }
            if spatial_enabled && playing_spatial(orig[k]) {
                assert(spatials@.map_values(|sp: SpatialInput| sp@) =~= spatial_inputs_of(
                    orig.subrange(0, k + 1),
                    bf,
                ));
            } else if spatial_enabled {
                assert(spatials@.map_values(|sp: SpatialInput| sp@) =~= spatial_inputs_of(
                    orig.subrange(0, k + 1),
                    bf,
                ));
            }
            assert(frames_filled as int == frames_filled_of(
                orig.subrange(0, k + 1),
                bf,
                spatial_enabled,
            ));
        }
        filled.push(inst);
        proof {
            assert(active@ =~= orig.subrange(filled@.len() as int, orig.len() as int));
        }
    }

    // Event pass: read and clear every end flag set during the fill
    // pass; report completions and restart infinite loops.
    let mut evented: Vec<PlaybackInstance> = Vec::new();
    let mut completed: Vec<SourceId> = Vec::new();
    let mut looped: Vec<SourceId> = Vec::new();
    proof {
        assert(completed_of(orig.subrange(0, 0), bf, spatial_enabled) =~= Seq::<
            SourceId,
        >::empty()) by {
            reveal(Seq::filter);
        }
        assert(looped_of(orig.subrange(0, 0), bf, spatial_enabled) =~= Seq::<SourceId>::empty())
            by {
            reveal(Seq::filter);
        }
    }
    while filled.len() > 0
        invariant
            wf_active(orig),
            flags_clear(orig),
            bf == block_frames as int,
            evented@.len() + filled@.len() == orig.len(),
            forall|j: int|
                0 <= j < filled@.len() ==> #[trigger] filled@[j] == after_fill(
                    orig[j + evented@.len()],
                    bf,
                    spatial_enabled,
                ),
            forall|j: int|
                0 <= j < evented@.len() ==> #[trigger] evented@[j] == block_step(
                    orig[j],
                    bf,
                    spatial_enabled,
                ),
            completed@ == completed_of(orig.subrange(0, evented@.len() as int), bf, spatial_enabled),
            looped@ == looped_of(orig.subrange(0, evented@.len() as int), bf, spatial_enabled),
        decreases filled@.len(),
    {
        let ghost k = evented@.len() as int;
        let mut inst = filled.remove(0);
        proof {
            assert(inst == after_fill(orig[k], bf, spatial_enabled));
        }
        match inst.check_and_clear_end_flag() {
            Some(LoopMode::Once) => {
                completed.push(inst.audio_id);
            },
            Some(LoopMode::Infinite) => {
                inst.play_from_beginning();
                looped.push(inst.audio_id);
            },
            None => {},
        }
        proof {
            assert(inst =~= block_step(orig[k], bf, spatial_enabled));
            let pre = orig.subrange(0, k);
            assert(orig.subrange(0, k + 1) =~= pre.push(orig[k]));
            lemma_completed_push(pre, orig[k], bf, spatial_enabled);
            lemma_looped_push(pre, orig[k], bf, spatial_enabled);
            assert(completed@ =~= completed_of(orig.subrange(0, k + 1), bf, spatial_enabled));
            assert(looped@ =~= looped_of(orig.subrange(0, k + 1), bf, spatial_enabled));
        }
        evented.push(inst);
    }

    // Removal pass: drop every instance that is now stopped.
    let mut out: Vec<PlaybackInstance> = Vec::new();
    proof {
        assert(stepped(orig, bf, spatial_enabled).subrange(0, 0) =~= Seq::<
            PlaybackInstance,
        >::empty());
        assert(retained(Seq::<PlaybackInstance>::empty()) =~= Seq::<PlaybackInstance>::empty())
            by {
            reveal(Seq::filter);
        }
    }
    while evented.len() > 0
        invariant
            wf_active(orig),
            flags_clear(orig),
            bf == block_frames as int,
            forall|j: int|
                0 <= j < evented@.len() ==> #[trigger] evented@[j] == block_step(
                    orig[j + (orig.len() - evented@.len())],
                    bf,
                    spatial_enabled,
                ),
            evented@.len() <= orig.len(),
            out@ == retained(
                stepped(orig, bf, spatial_enabled).subrange(
                    0,
                    orig.len() - evented@.len(),
                ),
            ),
        decreases evented@.len(),
    {
        let ghost k = orig.len() - evented@.len();
        let inst = evented.remove(0);
        proof {
            assert(inst == block_step(orig[k as int], bf, spatial_enabled));
            assert(stepped(orig, bf, spatial_enabled)[k as int] == inst);
        }
        let keep = match inst.info.play_state {
            PlayState::Stopped => false,
            _ => true,
        };
        proof {
            let st = stepped(orig, bf, spatial_enabled);
            let pre = st.subrange(0, k as int);
            assert(st.subrange(0, k as int + 1) =~= pre.push(inst));
            lemma_retained_push(pre, inst);
            assert(keep == kept(inst));
        }
        if keep {
            out.push(inst);
        }
        proof {
            let st = stepped(orig, bf, spatial_enabled);
            assert(out@ =~= retained(st.subrange(0, k as int + 1)));
        }
    }
    proof {
        let st = stepped(orig, bf, spatial_enabled);
        assert(st.subrange(0, orig.len() as int) =~= st);
        assert(orig.subrange(0, orig.len() as int) =~= orig);
        assert(forall|j: int|
            0 <= j < st.len() ==> (#[trigger] st[j]).wf() && !st[j].reached_end_flag()) by {
            assert forall|j: int| 0 <= j < st.len() implies (#[trigger] st[j]).wf()
                && !st[j].reached_end_flag() by {
                lemma_block_step_wf(orig[j], bf, spatial_enabled);
            }
        }
        assert forall|j: int| 0 <= j < retained(st).len() implies (#[trigger] retained(st)[j]).wf()
            && !retained(st)[j].reached_end_flag() by {
            lemma_retained_elements(st, j);
        }
    }
    *active = out;
    (
        MixResult { frames_filled, completed_sources: completed, looped_sources: looped },
        contribs,
        spatials,
    )
}


/// Every retained instance is not stopped.
proof fn lemma_retained_pred(s: Seq<PlaybackInstance>, i: int)
    requires
        0 <= i < retained(s).len(),
    ensures
        kept(retained(s)[i]),
    decreases s.len(),
{
    reveal(Seq::filter);
    if s.len() > 0 {
        let prefix = s.drop_last();
        if kept(s.last()) && i == retained(s).len() - 1 {
        } else {
            lemma_retained_pred(prefix, i);
        }
    }
}

/// An instance that is not stopped occurs among the retained
/// instances.
proof fn lemma_retained_contains(s: Seq<PlaybackInstance>, i: int)
    requires
        0 <= i < s.len(),
        kept(s[i]),
    ensures
        retained(s).contains(s[i]),
    decreases s.len(),
{
    reveal(Seq::filter);
    if s.len() > 0 {
        let prefix = s.drop_last();
        if i == s.len() - 1 {
            assert(retained(s)[retained(s).len() - 1] == s[i]);
        } else {
            lemma_retained_contains(prefix, i);
            let w = choose|w: int|
                0 <= w < retained(prefix).len() && retained(prefix)[w] == prefix[i];
            if kept(s.last()) {
                assert(retained(s)[w] == s[i]);
            } else {
                assert(retained(s)[w] == s[i]);
            }
        }
    }
}

/// A source that ends this block with loop mode `Once` appears among
/// the completed sources.
pub proof fn lemma_completed_contains(
    s: Seq<PlaybackInstance>,
    block_frames: int,
    spatial_enabled: bool,
    i: int,
)
    requires
        0 <= i < s.len(),
        ends_this_block(s[i], block_frames, spatial_enabled),
        s[i].loop_mode is Once,
    ensures
        completed_of(s, block_frames, spatial_enabled).contains(s[i].audio_id),
    decreases s.len(),
{
    reveal(Seq::filter);
    if s.len() > 0 {
        let prefix = s.drop_last();
        let pred_filtered = s.filter(
            |p: PlaybackInstance| ends_this_block(p, block_frames, spatial_enabled) && p.loop_mode
                is Once,
        );
        if i == s.len() - 1 {
            assert(pred_filtered.last() == s[i]);
            assert(completed_of(s, block_frames, spatial_enabled).last() == s[i].audio_id);
        } else {
            lemma_completed_contains(prefix, block_frames, spatial_enabled, i);
            let w = choose|w: int|
                0 <= w < completed_of(prefix, block_frames, spatial_enabled).len() && completed_of(
                    prefix,
                    block_frames,
                    spatial_enabled,
                )[w] == prefix[i].audio_id;
            assert(completed_of(s, block_frames, spatial_enabled)[w] == s[i].audio_id);
        }
    }
}

/// A source that ends this block with loop mode `Infinite` appears
/// among the looped sources.
proof fn lemma_looped_contains(
    s: Seq<PlaybackInstance>,
    block_frames: int,
    spatial_enabled: bool,
    i: int,
)
    requires
        0 <= i < s.len(),
        ends_this_block(s[i], block_frames, spatial_enabled),
        s[i].loop_mode is Infinite,
    ensures
        looped_of(s, block_frames, spatial_enabled).contains(s[i].audio_id),
    decreases s.len(),
{
    reveal(Seq::filter);
    if s.len() > 0 {
        let prefix = s.drop_last();
        if i == s.len() - 1 {
            assert(looped_of(s, block_frames, spatial_enabled).last() == s[i].audio_id);
        } else {
            lemma_looped_contains(prefix, block_frames, spatial_enabled, i);
            let w = choose|w: int|
                0 <= w < looped_of(prefix, block_frames, spatial_enabled).len() && looped_of(
                    prefix,
                    block_frames,
                    spatial_enabled,
                )[w] == prefix[i].audio_id;
            assert(looped_of(s, block_frames, spatial_enabled)[w] == s[i].audio_id);
        }
    }
}

/// Law: a source reported completed was playing with loop mode `Once`
/// and reached the end of its data this block; its instance is stopped
/// and leaves the active set, so it appears among the completed
/// sources and under no instance that survives the block.
pub proof fn lemma_completed_source_removed(
    s: Seq<PlaybackInstance>,
    block_frames: int,
    spatial_enabled: bool,
    j: int,
)
    requires
        wf_active(s),
        flags_clear(s),
        forall|a: int, b: int|
            0 <= a < b < s.len() ==> (#[trigger] s[a]).audio_id != (#[trigger] s[b]).audio_id,
        0 <= j < s.len(),
        ends_this_block(s[j], block_frames, spatial_enabled),
        s[j].loop_mode is Once,
    ensures
        completed_of(s, block_frames, spatial_enabled).contains(s[j].audio_id),
        forall|k: int|
            0 <= k < retained(stepped(s, block_frames, spatial_enabled)).len() ==> (
            #[trigger] retained(stepped(s, block_frames, spatial_enabled))[k]).audio_id
                != s[j].audio_id,
{
    lemma_completed_contains(s, block_frames, spatial_enabled, j);
    let st = stepped(s, block_frames, spatial_enabled);
    assert forall|k: int|
        0 <= k < retained(st).len() implies (#[trigger] retained(st)[k]).audio_id
        != s[j].audio_id by {
        lemma_retained_pred(st, k);
        lemma_retained_elements(st, k);
        let m = choose|m: int| 0 <= m < st.len() && st[m] == retained(st)[k];
        assert(st[m] == block_step(s[m], block_frames, spatial_enabled));
        if retained(st)[k].audio_id == s[j].audio_id {
            assert(st[m].audio_id == s[m].audio_id);
            if m != j {
                assert(s[m].audio_id != s[j].audio_id);
            } else {
                assert(st[j] == block_step(s[j], block_frames, spatial_enabled));
                assert(st[j].info.play_state is Stopped);
                assert(!kept(st[m]));
            }
        }
    }
}

/// Law: a source reported looped was playing with loop mode `Infinite`
/// and reached the end of its data this block; its instance survives
/// the block, playing with its cursor at the start of a fresh pass, so
/// it appears among the looped sources and under a surviving instance
/// at cursor zero.
pub proof fn lemma_looped_source_restarted(
    s: Seq<PlaybackInstance>,
    block_frames: int,
    spatial_enabled: bool,
    j: int,
)
    requires
        wf_active(s),
        flags_clear(s),
        0 <= j < s.len(),
        ends_this_block(s[j], block_frames, spatial_enabled),
        s[j].loop_mode is Infinite,
    ensures
        looped_of(s, block_frames, spatial_enabled).contains(s[j].audio_id),
        exists|k: int|
            {
                &&& 0 <= k < retained(stepped(s, block_frames, spatial_enabled)).len()
                &&& (#[trigger] retained(stepped(s, block_frames, spatial_enabled))[k]).audio_id
                    == s[j].audio_id
                &&& retained(stepped(s, block_frames, spatial_enabled))[k].playing()
                &&& retained(stepped(s, block_frames, spatial_enabled))[k].cursor() == 0
            },
{
    lemma_looped_contains(s, block_frames, spatial_enabled, j);
    let st = stepped(s, block_frames, spatial_enabled);
    assert(st[j] == block_step(s[j], block_frames, spatial_enabled));
    assert(st[j].playing());
    assert(st[j].cursor() == 0);
    assert(kept(st[j]));
    lemma_retained_contains(st, j);
    let k = choose|k: int| 0 <= k < retained(st).len() && retained(st)[k] == st[j];
    assert(retained(st)[k].audio_id == s[j].audio_id);
}

} // verus!
