use vstd::prelude::*;

use crate::error::PipelineError;

verus! {

/// Alpha value of a fully opaque source.  Opacity is measured in units of
/// `1 / ALPHA_OPAQUE`, so `0` is fully transparent and `ALPHA_OPAQUE` fully
/// opaque; the embedder divides by `ALPHA_OPAQUE` when writing the
/// compositor pad property.
pub const ALPHA_OPAQUE: u32 = 30000;

/// Index of the last fade step.  A fade performs one write round per step
/// `0..=FADE_TOTAL_STEPS`, 31 rounds in all.
pub const FADE_TOTAL_STEPS: u32 = 30;

/// Alpha gained by the incoming scene per fade step:
/// `ALPHA_OPAQUE / FADE_TOTAL_STEPS`.
pub const FADE_ALPHA_STEP: u32 = 1000;

/// One video source arranged in a scene: a reference to the node producing
/// the video, the compositor pad it feeds, and its geometry and opacity on
/// that pad.
#[derive(Clone, Copy, Debug, PartialEq, Eq, Structural)]
pub struct SceneSource {
    /// The graph node providing the video.
    pub element: u64,
    /// The compositor sink pad index this source feeds.
    pub pad_index: u32,
    pub x: i32,
    pub y: i32,
    pub width: u32,
    pub height: u32,
    /// Opacity in units of `1 / ALPHA_OPAQUE`, at most `ALPHA_OPAQUE`.
    pub alpha: u32,
}

/// A single scene: a named, ordered set of sources arranged on the
/// compositor.
#[derive(Clone, Debug, PartialEq, Eq)]
pub struct Scene {
    pub name: String,
    pub sources: Vec<SceneSource>,
}

/// A property carried by one compositor pad write.
#[derive(Clone, Copy, Debug, PartialEq, Eq, Structural)]
pub enum PadProp {
    Xpos(i32),
    Ypos(i32),
    Width(u32),
    Height(u32),
    /// Opacity in units of `1 / ALPHA_OPAQUE`.
    Alpha(u32),
}

/// One write to a compositor sink pad, for the embedder to perform.
#[derive(Clone, Copy, Debug, PartialEq, Eq, Structural)]
pub struct PadWrite {
    /// The compositor sink pad index written to.
    pub pad: u32,
    pub prop: PadProp,
}

/// Progress of the scene transition: idle, or fading between two scenes.
#[derive(Clone, Copy, Debug, PartialEq, Eq, Structural)]
pub enum TransitionState {
    Idle,
    Active { from_index: usize, to_index: usize, step: u32, total_steps: u32 },
}

/// Arranges scenes on a single compositor and drives timed fades between
/// them.
///
/// The switcher never touches the media graph itself: each operation
/// returns the compositor pad writes it calls for, and the embedder issues
/// them.  During a fade the embedder calls [`SceneSwitcher::transition_tick`]
/// once per step, separated by [`SceneSwitcher::step_delay_ms`] milliseconds.
///
/// At most one fade is in flight at a time: starting a new fade replaces the
/// pending one, so the latest request always wins and two fades never race
/// on the same pads.
pub struct SceneSwitcher {
    pub scenes: Vec<Scene>,
    pub current_scene_index: usize,
    /// How long a full fade lasts, in milliseconds.
    pub transition_duration_ms: u64,
    pub transition: TransitionState,
}

/// Every source of the scene has an opacity of at most `ALPHA_OPAQUE`.
pub open spec fn scene_wf(s: Scene) -> bool {
    forall|i: int|
        0 <= i < s.sources@.len() ==> (#[trigger] s.sources@[i]).alpha <= ALPHA_OPAQUE
}

/// The five writes that place one source on its compositor pad.
pub open spec fn source_layout_writes(s: SceneSource) -> Seq<PadWrite> {
    seq![
        (PadWrite { pad: s.pad_index, prop: PadProp::Xpos(s.x) }),
        (PadWrite { pad: s.pad_index, prop: PadProp::Ypos(s.y) }),
        (PadWrite { pad: s.pad_index, prop: PadProp::Width(s.width) }),
        (PadWrite { pad: s.pad_index, prop: PadProp::Height(s.height) }),
        (PadWrite { pad: s.pad_index, prop: PadProp::Alpha(s.alpha) }),
    ]
}

/// The writes that lay out a whole scene, source by source in order.
pub open spec fn layout_writes(sources: Seq<SceneSource>) -> Seq<PadWrite>
    decreases sources.len(),
{
    if sources.len() == 0 {
        Seq::empty()
    } else {
        layout_writes(sources.drop_last()) + source_layout_writes(sources.last())
    }
}

/// The five writes that pre-position one incoming source at its final
/// geometry, fully transparent.
pub open spec fn source_prepare_writes(s: SceneSource) -> Seq<PadWrite> {
    seq![
        (PadWrite { pad: s.pad_index, prop: PadProp::Xpos(s.x) }),
        (PadWrite { pad: s.pad_index, prop: PadProp::Ypos(s.y) }),
        (PadWrite { pad: s.pad_index, prop: PadProp::Width(s.width) }),
        (PadWrite { pad: s.pad_index, prop: PadProp::Height(s.height) }),
        (PadWrite { pad: s.pad_index, prop: PadProp::Alpha(0u32) }),
    ]
}

/// The writes that pre-position a whole incoming scene before a fade.
pub open spec fn prepare_writes(sources: Seq<SceneSource>) -> Seq<PadWrite>
    decreases sources.len(),
{
    if sources.len() == 0 {
        Seq::empty()
    } else {
        prepare_writes(sources.drop_last()) + source_prepare_writes(sources.last())
    }
}

/// One alpha write per source, all with the same opacity.
pub open spec fn alpha_writes(sources: Seq<SceneSource>, alpha: u32) -> Seq<PadWrite>
    decreases sources.len(),
{
    if sources.len() == 0 {
        Seq::empty()
    } else {
        alpha_writes(sources.drop_last(), alpha) + seq![
            (PadWrite { pad: sources.last().pad_index, prop: PadProp::Alpha(alpha) }),
        ]
    }
}

/// Opacity of the incoming scene at the given fade step: a linear ramp from
/// `0` at step `0` to `ALPHA_OPAQUE` at step `FADE_TOTAL_STEPS`.
pub open spec fn fade_in_alpha(step: u32) -> u32
    recommends
        step <= FADE_TOTAL_STEPS,
{
    (step * FADE_ALPHA_STEP) as u32
}

/// Opacity of the outgoing scene at the given fade step: a linear ramp from
/// `ALPHA_OPAQUE` at step `0` to `0` at step `FADE_TOTAL_STEPS`.
pub open spec fn fade_out_alpha(step: u32) -> u32
    recommends
        step <= FADE_TOTAL_STEPS,
{
    (ALPHA_OPAQUE - step * FADE_ALPHA_STEP) as u32
}

/// The writes of one fade step: every outgoing source set to the fading-out
/// opacity, then every incoming source set to the fading-in opacity.
pub open spec fn fade_step_writes(
    from_sources: Seq<SceneSource>,
    to_sources: Seq<SceneSource>,
    step: u32,
) -> Seq<PadWrite> {
    alpha_writes(from_sources, fade_out_alpha(step)) + alpha_writes(
        to_sources,
        fade_in_alpha(step),
    )
}

/// How the pending transition advances after one write round: an active
/// fade moves to the next step, the final step returns to idle, and idle
/// stays idle.
pub open spec fn advance_transition(t: TransitionState) -> TransitionState {
    match t {
        TransitionState::Idle => TransitionState::Idle,
        TransitionState::Active { from_index, to_index, step, total_steps } => {
            if step < total_steps {
                TransitionState::Active {
                    from_index,
                    to_index,
                    step: (step + 1) as u32,
                    total_steps,
                }
            } else {
                TransitionState::Idle
            }
        },
    }
}

/// The transition after `n` write rounds.
pub open spec fn advance_transition_n(t: TransitionState, n: int) -> TransitionState
    decreases n,
{
    if n <= 0 {
        t
    } else {
        advance_transition_n(advance_transition(t), n - 1)
    }
}

/// Index of the first source feeding the given pad, or `-1` if none does.
pub open spec fn find_pad(sources: Seq<SceneSource>, pad: u32) -> int
    decreases sources.len(),
{
    if sources.len() == 0 {
        -1
    } else if sources[0].pad_index == pad {
        0
    } else {
        let rest = find_pad(sources.drop_first(), pad);
        if rest < 0 {
            -1
        } else {
            rest + 1
        }
    }
}

/// The four writes of a direct geometry update on one compositor pad.
pub open spec fn geometry_writes(pad: u32, x: i32, y: i32, width: u32, height: u32) -> Seq<
    PadWrite,
> {
    seq![
        (PadWrite { pad, prop: PadProp::Xpos(x) }),
        (PadWrite { pad, prop: PadProp::Ypos(y) }),
        (PadWrite { pad, prop: PadProp::Width(width) }),
        (PadWrite { pad, prop: PadProp::Height(height) }),
    ]
}

/// `find_pad` returns the first matching index: if no index below `i`
/// matches and `i` does, the result is `i`; if nothing matches at all, the
/// result is `-1`.
proof fn lemma_find_pad_first(sources: Seq<SceneSource>, pad: u32, i: int)
    requires
        0 <= i <= sources.len(),
        forall|j: int| 0 <= j < i ==> (#[trigger] sources[j]).pad_index != pad,
        i < sources.len() ==> sources[i].pad_index == pad,
    ensures
        i < sources.len() ==> find_pad(sources, pad) == i,
        i == sources.len() ==> find_pad(sources, pad) == -1,
    decreases sources.len(),
{
    if sources.len() == 0 {
    } else if sources[0].pad_index == pad {
        assert(i == 0);
    } else {
        let rest = sources.drop_first();
        assert(forall|j: int| 0 <= j < i - 1 ==> (#[trigger] rest[j]).pad_index != pad);
        assert(i - 1 < rest.len() ==> rest[i - 1] == sources[i]);
        lemma_find_pad_first(rest, pad, i - 1);
    }
}

impl SceneSwitcher {
    /// The scene list, current index and transition state are coherent:
    /// once any scene exists the current index points at one, and an active
    /// fade runs between two distinct valid scenes.
    pub open spec fn wf(self) -> bool {
        &&& (self.scenes@.len() > 0 ==> self.current_scene_index < self.scenes@.len())
        &&& (self.scenes@.len() == 0 ==> self.current_scene_index == 0)
        &&& (forall|i: int| 0 <= i < self.scenes@.len() ==> scene_wf(#[trigger] self.scenes@[i]))
        &&& match self.transition {
            TransitionState::Idle => true,
            TransitionState::Active { from_index, to_index, step, total_steps } => {
                &&& from_index < self.scenes@.len()
                &&& to_index < self.scenes@.len()
                &&& from_index != to_index
                &&& step <= total_steps
                &&& total_steps == FADE_TOTAL_STEPS
            },
        }
    }

    /// Creates a switcher over the given scenes.  The current scene defaults
    /// to index `0`; no transition is in flight.  The sources of each scene
    /// must already be part of the media graph.
    pub fn new(initial_scenes: Vec<Scene>, transition_duration_ms: u64) -> (sw: SceneSwitcher)
        requires
            forall|i: int|
                0 <= i < initial_scenes@.len() ==> scene_wf(#[trigger] initial_scenes@[i]),
        ensures
            sw.wf(),
            sw.scenes@ == initial_scenes@,
            sw.current_scene_index == 0,
            sw.transition_duration_ms == transition_duration_ms,
            sw.transition == TransitionState::Idle,
    {
        SceneSwitcher {
            scenes: initial_scenes,
            current_scene_index: 0,
            transition_duration_ms,
            transition: TransitionState::Idle,
        }
    }

    /// Appends a scene.  No transition is triggered.
    pub fn add_scene(&mut self, scene: Scene) -> (r: Result<(), PipelineError>)
        requires
            old(self).wf(),
            scene_wf(scene),
        ensures
            final(self).wf(),
            r is Ok,
            final(self).scenes@ == old(self).scenes@.push(scene),
            final(self).current_scene_index == old(self).current_scene_index,
            final(self).transition == old(self).transition,
            final(self).transition_duration_ms == old(self).transition_duration_ms,
    {
        self.scenes.push(scene);
        Ok(())
    }

    /// Jumps straight to the given scene: the current index moves there and
    /// the returned writes lay out every source of that scene at its
    /// declared geometry and opacity, with no animation.  Fails with
    /// `IndexOutOfRange` (leaving the switcher untouched) if the index is
    /// invalid.
    pub fn set_initial_scene(&mut self, index: usize) -> (r: Result<Vec<PadWrite>, PipelineError>)
        requires
            old(self).wf(),
        ensures
            final(self).wf(),
            r is Ok <==> index < old(self).scenes@.len(),
            r matches Err(e) ==> e == PipelineError::IndexOutOfRange && *final(self) == *old(self),
            r matches Ok(w) ==> w@ == layout_writes(old(self).scenes@[index as int].sources@)
                && final(self).current_scene_index == index,
            final(self).scenes@ == old(self).scenes@,
            final(self).transition == old(self).transition,
            final(self).transition_duration_ms == old(self).transition_duration_ms,
    {
        if index >= self.scenes.len() {
            return Err(PipelineError::IndexOutOfRange);
        }
        self.current_scene_index = index;
        let w = build_layout_writes(&self.scenes[index].sources);
        Ok(w)
    }

    /// Starts a fade to the given scene.
    ///
    /// An invalid index fails with `IndexOutOfRange` and changes nothing.
    /// Fading to the current scene is a no-op: no writes, no transition.
    /// Otherwise the current index moves to the new scene at once (the
    /// latest request wins, even mid-transition), any pending fade is
    /// replaced, and the returned writes pre-position the incoming scene at
    /// its final geometry, fully transparent.  The embedder then drives the
    /// fade with [`SceneSwitcher::transition_tick`].
    pub fn fade_to_scene(&mut self, new_index: usize) -> (r: Result<Vec<PadWrite>, PipelineError>)
        requires
            old(self).wf(),
        ensures
            final(self).wf(),
            r is Ok <==> new_index < old(self).scenes@.len(),
            r matches Err(e) ==> e == PipelineError::IndexOutOfRange && *final(self) == *old(self),
            new_index == old(self).current_scene_index ==> *final(self) == *old(self) && (r matches
                Ok(w) ==> w@ == Seq::<PadWrite>::empty()),
            new_index < old(self).scenes@.len() && new_index != old(self).current_scene_index
                ==> (r matches Ok(w) && w@ == prepare_writes(
                old(self).scenes@[new_index as int].sources@,
            ) && final(self).current_scene_index == new_index && final(self).transition == (
            TransitionState::Active {
                from_index: old(self).current_scene_index,
                to_index: new_index,
                step: 0,
                total_steps: FADE_TOTAL_STEPS,
            })),
            final(self).scenes@ == old(self).scenes@,
            final(self).transition_duration_ms == old(self).transition_duration_ms,
    {
        if new_index >= self.scenes.len() {
            return Err(PipelineError::IndexOutOfRange);
        }
        let old_index = self.current_scene_index;
        if old_index == new_index {
            return Ok(Vec::new());
        }
        self.current_scene_index = new_index;
        self.transition = TransitionState::Active {
            from_index: old_index,
            to_index: new_index,
            step: 0,
            total_steps: FADE_TOTAL_STEPS,
        };
        let w = build_prepare_writes(&self.scenes[new_index].sources);
        Ok(w)
    }

    /// Performs one write round of the pending fade and advances it.
    ///
    /// While a fade from scene `f` to scene `t` is at step `n`, the returned
    /// writes set every source of `f` to `fade_out_alpha(n)` and every
    /// source of `t` to `fade_in_alpha(n)`; the fade then advances to step
    /// `n + 1`, or back to idle after the final step.  After the final step
    /// the outgoing sources stay attached, fully transparent.  When no fade
    /// is pending nothing is written and nothing changes.
    pub fn transition_tick(&mut self) -> (w: Vec<PadWrite>)
        requires
            old(self).wf(),
        ensures
            final(self).wf(),
            final(self).transition == advance_transition(old(self).transition),
            old(self).transition is Idle ==> *final(self) == *old(self) && w@ == Seq::<
                PadWrite,
            >::empty(),
            old(self).transition matches TransitionState::Active {
                from_index: f,
                to_index: t,
                step: n,
                total_steps: total,
            } ==> (w@ == fade_step_writes(
                old(self).scenes@[f as int].sources@,
                old(self).scenes@[t as int].sources@,
                n,
            ) && (n < total ==> final(self).transition == (TransitionState::Active {
                from_index: f,
                to_index: t,
                step: (n + 1) as u32,
                total_steps: total,
            })) && (n == total ==> final(self).transition == TransitionState::Idle)),
            final(self).scenes@ == old(self).scenes@,
            final(self).current_scene_index == old(self).current_scene_index,
            final(self).transition_duration_ms == old(self).transition_duration_ms,
    {
        match self.transition {
            TransitionState::Idle => Vec::new(),
            TransitionState::Active { from_index, to_index, step, total_steps } => {
                let alpha_in: u32 = step * FADE_ALPHA_STEP;
                let alpha_out: u32 = ALPHA_OPAQUE - alpha_in;
                let mut w: Vec<PadWrite> = Vec::new();
                append_alpha_writes(&mut w, &self.scenes[from_index].sources, alpha_out);
                append_alpha_writes(&mut w, &self.scenes[to_index].sources, alpha_in);
                if step < total_steps {
                    self.transition = TransitionState::Active {
                        from_index,
                        to_index,
                        step: step + 1,
                        total_steps,
                    };
                } else {
                    self.transition = TransitionState::Idle;
                }
                w
            },
        }
    }

    /// Moves or resizes one source in real time: the returned writes update
    /// the compositor pad directly (bypassing any in-flight fade, which only
    /// animates opacity), and the stored scene geometry follows suit.  Fails
    /// with `IndexOutOfRange` if the scene index is invalid or no source of
    /// that scene feeds the given pad.
    pub fn update_source_geometry(
        &mut self,
        scene_index: usize,
        source_pad_index: u32,
        x: i32,
        y: i32,
        width: u32,
        height: u32,
    ) -> (r: Result<Vec<PadWrite>, PipelineError>)
        requires
            old(self).wf(),
        ensures
            final(self).wf(),
            r is Ok <==> scene_index < old(self).scenes@.len() && find_pad(
                old(self).scenes@[scene_index as int].sources@,
                source_pad_index,
            ) >= 0,
            r matches Err(e) ==> e == PipelineError::IndexOutOfRange && *final(self) == *old(self),
            r matches Ok(w) ==> {
                let sources = old(self).scenes@[scene_index as int].sources@;
                let k = find_pad(sources, source_pad_index);
                &&& w@ == geometry_writes(source_pad_index, x, y, width, height)
                &&& final(self).scenes@.len() == old(self).scenes@.len()
                &&& (forall|j: int|
                    0 <= j < old(self).scenes@.len() && j != scene_index ==> final(self).scenes@[j] == old(self).scenes@[j])
                &&& final(self).scenes@[scene_index as int].name == old(self).scenes@[scene_index as int].name
                &&& final(self).scenes@[scene_index as int].sources@ == sources.update(
                    k,
                    (SceneSource { x, y, width, height, ..sources[k] }),
                )
            },
            final(self).current_scene_index == old(self).current_scene_index,
            final(self).transition == old(self).transition,
            final(self).transition_duration_ms == old(self).transition_duration_ms,
    {
        if scene_index >= self.scenes.len() {
            return Err(PipelineError::IndexOutOfRange);
        }
        let ghost sources = self.scenes@[scene_index as int].sources@;
        let n = self.scenes[scene_index].sources.len();
        let mut k: usize = 0;
        while k < n && self.scenes[scene_index].sources[k].pad_index != source_pad_index
            invariant
                n == sources.len(),
                k <= n,
                sources == self.scenes@[scene_index as int].sources@,
                scene_index < self.scenes@.len(),
                forall|j: int| 0 <= j < k ==> (#[trigger] sources[j]).pad_index != source_pad_index,
            decreases n - k,
        {
            k = k + 1;
        }
        proof {
            lemma_find_pad_first(sources, source_pad_index, k as int);
        }
        if k == n {
            return Err(PipelineError::IndexOutOfRange);
        }
        let source = &mut self.scenes[scene_index].sources[k];
        source.x = x;
        source.y = y;
        source.width = width;
        source.height = height;
        let mut w: Vec<PadWrite> = Vec::new();
        w.push(PadWrite { pad: source_pad_index, prop: PadProp::Xpos(x) });
        w.push(PadWrite { pad: source_pad_index, prop: PadProp::Ypos(y) });
        w.push(PadWrite { pad: source_pad_index, prop: PadProp::Width(width) });
        w.push(PadWrite { pad: source_pad_index, prop: PadProp::Height(height) });
        proof {
            assert(w@ =~= geometry_writes(source_pad_index, x, y, width, height));
        }
        Ok(w)
    }

    /// How long the embedder should wait between fade write rounds, so that
    /// the 31 rounds span the configured transition duration.
    pub fn step_delay_ms(&self) -> (d: u64)
        ensures
            d == self.transition_duration_ms / (FADE_TOTAL_STEPS as u64),
    {
        self.transition_duration_ms / (FADE_TOTAL_STEPS as u64)
    }
}

/// Builds the layout writes of a whole scene, in source order.
fn build_layout_writes(sources: &Vec<SceneSource>) -> (w: Vec<PadWrite>)
    ensures
        w@ == layout_writes(sources@),
{
    let mut w: Vec<PadWrite> = Vec::new();
    let mut i: usize = 0;
    while i < sources.len()
        invariant
            i <= sources@.len(),
            w@ == layout_writes(sources@.take(i as int)),
        decreases sources@.len() - i,
    {
        let s = sources[i];
        w.push(PadWrite { pad: s.pad_index, prop: PadProp::Xpos(s.x) });
        w.push(PadWrite { pad: s.pad_index, prop: PadProp::Ypos(s.y) });
        w.push(PadWrite { pad: s.pad_index, prop: PadProp::Width(s.width) });
        w.push(PadWrite { pad: s.pad_index, prop: PadProp::Height(s.height) });
        w.push(PadWrite { pad: s.pad_index, prop: PadProp::Alpha(s.alpha) });
        proof {
            assert(sources@.take(i + 1).drop_last() =~= sources@.take(i as int));
            assert(sources@.take(i + 1).last() == sources@[i as int]);
            assert(w@ =~= layout_writes(sources@.take(i + 1)));
        }
        i = i + 1;
    }
    proof {
        assert(sources@.take(sources@.len() as int) =~= sources@);
    }
    w
}

/// Builds the pre-positioning writes of an incoming scene, in source order.
fn build_prepare_writes(sources: &Vec<SceneSource>) -> (w: Vec<PadWrite>)
    ensures
        w@ == prepare_writes(sources@),
{
    let mut w: Vec<PadWrite> = Vec::new();
    let mut i: usize = 0;
    while i < sources.len()
        invariant
            i <= sources@.len(),
            w@ == prepare_writes(sources@.take(i as int)),
        decreases sources@.len() - i,
    {
        let s = sources[i];
        w.push(PadWrite { pad: s.pad_index, prop: PadProp::Xpos(s.x) });
        w.push(PadWrite { pad: s.pad_index, prop: PadProp::Ypos(s.y) });
        w.push(PadWrite { pad: s.pad_index, prop: PadProp::Width(s.width) });
        w.push(PadWrite { pad: s.pad_index, prop: PadProp::Height(s.height) });
        w.push(PadWrite { pad: s.pad_index, prop: PadProp::Alpha(0) });
        proof {
            assert(sources@.take(i + 1).drop_last() =~= sources@.take(i as int));
            assert(sources@.take(i + 1).last() == sources@[i as int]);
            assert(w@ =~= prepare_writes(sources@.take(i + 1)));
        }
        i = i + 1;
    }
    proof {
        assert(sources@.take(sources@.len() as int) =~= sources@);
    }
    w
}

/// Appends one alpha write per source, all with the same opacity.
fn append_alpha_writes(w: &mut Vec<PadWrite>, sources: &Vec<SceneSource>, alpha: u32)
    ensures
        final(w)@ == old(w)@ + alpha_writes(sources@, alpha),
{
    let mut i: usize = 0;
    while i < sources.len()
        invariant
            i <= sources@.len(),
            w@ == old(w)@ + alpha_writes(sources@.take(i as int), alpha),
        decreases sources@.len() - i,
    {
        let s = sources[i];
        w.push(PadWrite { pad: s.pad_index, prop: PadProp::Alpha(alpha) });
        proof {
            assert(sources@.take(i + 1).drop_last() =~= sources@.take(i as int));
            assert(sources@.take(i + 1).last() == sources@[i as int]);
            assert(w@ =~= old(w)@ + alpha_writes(sources@.take(i + 1), alpha));
        }
        i = i + 1;
    }
    proof {
        assert(sources@.take(sources@.len() as int) =~= sources@);
    }
}

/// Law: a fade runs for exactly `FADE_TOTAL_STEPS + 1` write rounds.  From
/// the start of a fade, the first `FADE_TOTAL_STEPS + 1` rounds each find
/// the fade still pending (round `n` at step `n`), and after the last of
/// them the switcher is idle and every further round changes nothing.
pub proof fn lemma_fade_round_count(from_index: usize, to_index: usize, n: int)
    requires
        0 <= n,
    ensures
        ({
            let start = (TransitionState::Active {
                from_index,
                to_index,
                step: 0,
                total_steps: FADE_TOTAL_STEPS,
            });
            &&& n <= FADE_TOTAL_STEPS ==> advance_transition_n(start, n)
                == (TransitionState::Active {
                from_index,
                to_index,
                step: n as u32,
                total_steps: FADE_TOTAL_STEPS,
            })
            &&& n > FADE_TOTAL_STEPS ==> advance_transition_n(start, n) == TransitionState::Idle
        }),
    decreases n,
{
    if n > 0 {
        let start = (TransitionState::Active {
            from_index,
            to_index,
            step: 0,
            total_steps: FADE_TOTAL_STEPS,
        });
        lemma_fade_round_count(from_index, to_index, n - 1);
        lemma_advance_commutes(start, n - 1);
    }
}

/// Advancing `n` rounds and then one more is the same as advancing one
/// round and then `n`.
proof fn lemma_advance_commutes(t: TransitionState, n: int)
    requires
        0 <= n,
    ensures
        advance_transition(advance_transition_n(t, n)) == advance_transition_n(
            advance_transition(t),
            n,
        ),
    decreases n,
{
    if n > 0 {
        lemma_advance_commutes(advance_transition(t), n - 1);
    }
}

/// Law: fades are monotone and complete.  As the step index grows the
/// incoming opacity never decreases and the outgoing opacity never
/// increases; the fade starts with the incoming scene fully transparent and
/// the outgoing scene fully opaque, and ends the other way around.
pub proof fn lemma_fade_alpha_monotone(n1: u32, n2: u32)
    requires
        n1 <= n2 <= FADE_TOTAL_STEPS,
    ensures
        fade_in_alpha(n1) <= fade_in_alpha(n2),
        fade_out_alpha(n1) >= fade_out_alpha(n2),
        fade_in_alpha(0) == 0,
        fade_out_alpha(0) == ALPHA_OPAQUE,
        fade_in_alpha(FADE_TOTAL_STEPS) == ALPHA_OPAQUE,
        fade_out_alpha(FADE_TOTAL_STEPS) == 0,
{
}

} // verus!
