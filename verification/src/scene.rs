//! A scene owns a registry of drawable-object states and one timeline.
//!
//! Callers register objects (receiving identifiers), schedule animations
//! against them, and query the composed visual state at any absolute time
//! with [`Scene::draw_at`]. The registry assigns identifiers from its own
//! monotone counter, so identifier allocation is deterministic.

use vstd::prelude::*;
use crate::animation::Animation;
use crate::easing::ease_spec;
use crate::fixed::MAX_COORD;
use crate::fixed::MAX_TICKS;
use crate::fixed::SCALE;
use crate::fixed::Vec2Fx;
use crate::fixed::clamp01_spec;
use crate::fixed::lerp_vec2_spec;
use crate::mobject::MobjectId;
use crate::mobject::MobjectState;
use crate::mobject::Rgba;
use crate::timeline::AnimationEntry;
use crate::timeline::Timeline;
use crate::timeline::active_spec;
use crate::timeline::apply_entry_spec;
use crate::timeline::draw_progress_spec;
use crate::timeline::max_end_spec;
use crate::timeline::max_dur_spec;

verus! {

/// Camera controls the view transformation.
#[derive(Clone, Copy, Debug, PartialEq, Eq)]
pub struct Camera {
    /// Center of the view, in scene coordinates.
    pub position: Vec2Fx,
    /// Zoom factor in ticks (`SCALE` is 1.0).
    pub zoom: i64,
}

impl Default for Camera {
    /// Centered at the origin with unit zoom.
    fn default() -> (r: Camera)
        ensures
            r == (Camera { position: Vec2Fx { x: 0, y: 0 }, zoom: SCALE }),
    {
        Camera { position: Vec2Fx { x: 0, y: 0 }, zoom: SCALE }
    }
}

/// The index of the first registry element with identifier `id`, or `-1`
/// when no element has it. Identifiers in a well-formed scene are unique, so
/// the first match is the only one.
pub open spec fn id_index(s: Seq<(MobjectId, MobjectState)>, id: MobjectId) -> int
    decreases s.len(),
{
    if s.len() == 0 {
        -1
    } else if s.first().0 == id {
        0
    } else {
        let rest = id_index(s.drop_first(), id);
        if rest == -1 {
            -1
        } else {
            rest + 1
        }
    }
}

/// The registered state under `id`, if any.
pub open spec fn lookup_spec(s: Seq<(MobjectId, MobjectState)>, id: MobjectId) -> Option<
    MobjectState,
> {
    if id_index(s, id) == -1 {
        None
    } else {
        Some(s[id_index(s, id)].1)
    }
}

/// What `id_index` finds: either nothing matches, or it is the first
/// matching position.
pub proof fn lemma_id_index_spec(s: Seq<(MobjectId, MobjectState)>, id: MobjectId)
    ensures
        id_index(s, id) == -1 ==> forall|j: int| 0 <= j < s.len() ==> (#[trigger] s[j]).0 != id,
        id_index(s, id) != -1 ==> 0 <= id_index(s, id) < s.len() && s[id_index(s, id)].0 == id
            && forall|j: int| 0 <= j < id_index(s, id) ==> (#[trigger] s[j]).0 != id,
    decreases s.len(),
{
    if s.len() > 0 && s.first().0 != id {
        lemma_id_index_spec(s.drop_first(), id);
        assert(forall|j: int|
            1 <= j < s.len() ==> (#[trigger] s[j]) == s.drop_first()[j - 1]);
    }
}

/// A scan that finds `id` at position `k`, with no earlier match, pins
/// `id_index` to `k`.
proof fn lemma_id_index_found(s: Seq<(MobjectId, MobjectState)>, id: MobjectId, k: int)
    requires
        0 <= k < s.len(),
        s[k].0 == id,
        forall|j: int| 0 <= j < k ==> (#[trigger] s[j]).0 != id,
    ensures
        id_index(s, id) == k,
    decreases k,
{
    if k == 0 {
    } else {
        assert(s.first().0 != id);
        assert(forall|j: int|
            0 <= j < s.drop_first().len() ==> (#[trigger] s.drop_first()[j]) == s[j + 1]);
        lemma_id_index_found(s.drop_first(), id, k - 1);
    }
}

/// A scan that finds no match pins `id_index` to `-1`.
proof fn lemma_id_index_none(s: Seq<(MobjectId, MobjectState)>, id: MobjectId)
    requires
        forall|j: int| 0 <= j < s.len() ==> (#[trigger] s[j]).0 != id,
    ensures
        id_index(s, id) == -1,
    decreases s.len(),
{
    if s.len() > 0 {
        assert(forall|j: int|
            0 <= j < s.drop_first().len() ==> (#[trigger] s.drop_first()[j]) == s[j + 1]);
        lemma_id_index_none(s.drop_first(), id);
    }
}

/// The position a scheduled effect interpolates from: for effects that move
/// their target, the target's center at schedule time; nothing otherwise,
/// or when the target is not registered.
pub open spec fn capture_spec(s: Seq<(MobjectId, MobjectState)>, a: Animation) -> Option<Vec2Fx> {
    if a.captures_start_spec() {
        match lookup_spec(s, a.target_spec()) {
            Some(st) => Some(st.center),
            None => None,
        }
    } else {
        None
    }
}

/// One resolution step: the entry's effect applied to its target's state (if
/// registered), every other element unchanged.
pub open spec fn apply_step_spec(
    objs: Seq<(MobjectId, MobjectState)>,
    e: AnimationEntry,
    p: i64,
) -> Seq<(MobjectId, MobjectState)> {
    objs.map_values(
        |pr: (MobjectId, MobjectState)|
            if pr.0 == e.animation.target_spec() {
                (pr.0, apply_entry_spec(e, pr.1, p as int))
            } else {
                pr
            },
    )
}

/// The registry after applying every active entry in insertion order: later
/// entries overwrite earlier ones on shared targets (last write wins).
pub open spec fn run_active_spec(
    objs: Seq<(MobjectId, MobjectState)>,
    act: Seq<(AnimationEntry, i64)>,
) -> Seq<(MobjectId, MobjectState)>
    decreases act.len(),
{
    if act.len() == 0 {
        objs
    } else {
        apply_step_spec(run_active_spec(objs, act.drop_last()), act.last().0, act.last().1)
    }
}

/// Finds the position of `id` in the registry.
fn index_of(mobjects: &Vec<(MobjectId, MobjectState)>, id: MobjectId) -> (r: Option<usize>)
    ensures
        match r {
            Some(ix) => ix == id_index(mobjects@, id) && 0 <= ix < mobjects@.len()
                && mobjects@[ix as int].0 == id,
            None => id_index(mobjects@, id) == -1,
        },
{
    let n = mobjects.len();
    let mut k: usize = 0;
    while k < n
        invariant
            n == mobjects@.len(),
            0 <= k <= n,
            forall|j: int| 0 <= j < k ==> (#[trigger] mobjects@[j]).0 != id,
        decreases n - k,
    {
        if mobjects[k].0.0 == id.0 {
            proof {
                lemma_id_index_found(mobjects@, id, k as int);
            }
            return Some(k);
        }
        k = k + 1;
    }
    proof {
        lemma_id_index_none(mobjects@, id);
    }
    None
}

/// A scene contains mobjects and a timeline of animations.
#[derive(Debug)]
pub struct Scene {
    /// Registered object states, in registration order.
    pub mobjects: Vec<(MobjectId, MobjectState)>,
    /// The next identifier to assign.
    pub next_id: u64,
    pub timeline: Timeline,
    pub camera: Camera,
    pub background: Rgba,
}

impl Scene {
    /// Well-formedness: the timeline is well formed, every registered state
    /// is well formed, identifiers are unique, and all identifiers lie below
    /// the registry counter.
    pub open spec fn wf(self) -> bool {
        &&& self.timeline.wf()
        &&& forall|i: int| 0 <= i < self.mobjects@.len() ==> (#[trigger] self.mobjects@[i]).1.wf()
        &&& forall|i: int, j: int|
            0 <= i < j < self.mobjects@.len() ==> (#[trigger] self.mobjects@[i]).0 != (
            #[trigger] self.mobjects@[j]).0
        &&& forall|i: int|
            0 <= i < self.mobjects@.len() ==> (#[trigger] self.mobjects@[i]).0.0 < self.next_id
    }

    /// An empty scene: no objects, an empty timeline, a default camera and a
    /// black background.
    pub fn new() -> (r: Scene)
        ensures
            r.mobjects@ =~= Seq::<(MobjectId, MobjectState)>::empty(),
            r.next_id == 1,
            r.timeline.entries@ =~= Seq::<AnimationEntry>::empty(),
            r.timeline.current_time == 0,
            r.camera == (Camera { position: Vec2Fx { x: 0, y: 0 }, zoom: SCALE }),
            r.background == (Rgba { red: 0, green: 0, blue: 0, alpha: SCALE }),
            r.wf(),
    {
        Scene {
            mobjects: Vec::new(),
            next_id: 1,
            timeline: Timeline::new(),
            camera: Camera { position: Vec2Fx { x: 0, y: 0 }, zoom: SCALE },
            background: Rgba { red: 0, green: 0, blue: 0, alpha: SCALE },
        }
    }

    /// Builder: set the background color.
    pub fn background(self, color: Rgba) -> (r: Scene)
        ensures
            r == (Scene { background: color, ..self }),
    {
        Scene { background: color, ..self }
    }

    /// Registers an object state and returns its fresh identifier.
    pub fn add(&mut self, state: MobjectState) -> (r: MobjectId)
        requires
            old(self).wf(),
            state.wf(),
            old(self).next_id < u64::MAX,
        ensures
            r == MobjectId(old(self).next_id),
            final(self).mobjects@ =~= old(self).mobjects@.push((MobjectId(old(self).next_id), state)),
            final(self).next_id == old(self).next_id + 1,
            final(self).timeline == old(self).timeline,
            final(self).camera == old(self).camera,
            final(self).background == old(self).background,
            final(self).wf(),
    {
        let id = MobjectId(self.next_id);
        self.mobjects.push((id, state));
        self.next_id = self.next_id + 1;
        id
    }

    /// Builder: register an object state.
    pub fn with(self, state: MobjectState) -> (r: Scene)
        requires
            self.wf(),
            state.wf(),
            self.next_id < u64::MAX,
        ensures
            r.mobjects@ =~= self.mobjects@.push((MobjectId(self.next_id), state)),
            r.next_id == self.next_id + 1,
            r.timeline == self.timeline,
            r.camera == self.camera,
            r.background == self.background,
            r.wf(),
    {
        let mut s = self;
        s.add(state);
        s
    }

    /// Unregisters an object, returning its state if it was registered.
    pub fn remove(&mut self, id: MobjectId) -> (r: Option<MobjectState>)
        requires
            old(self).wf(),
        ensures
            r == lookup_spec(old(self).mobjects@, id),
            id_index(old(self).mobjects@, id) == -1 ==> final(self).mobjects@
                == old(self).mobjects@,
            id_index(old(self).mobjects@, id) != -1 ==> final(self).mobjects@
                =~= old(self).mobjects@.remove(id_index(old(self).mobjects@, id)),
            final(self).next_id == old(self).next_id,
            final(self).timeline == old(self).timeline,
            final(self).camera == old(self).camera,
            final(self).background == old(self).background,
            final(self).wf(),
    {
        match index_of(&self.mobjects, id) {
            Some(ix) => {
                let pr = self.mobjects.remove(ix);
                Some(pr.1)
            },
            None => None,
        }
    }

    /// The registered state under `id`, if any.
    pub fn get(&self, id: MobjectId) -> (r: Option<&MobjectState>)
        ensures
            match r {
                Some(st) => lookup_spec(self.mobjects@, id) == Some(*st),
                None => lookup_spec(self.mobjects@, id) is None,
            },
    {
        match index_of(&self.mobjects, id) {
            Some(ix) => Some(&self.mobjects[ix].1),
            None => None,
        }
    }

    /// Mutable access to the registered state under `id`, if any. Writing a
    /// well-formed state through the returned borrow keeps the scene well
    /// formed.
    pub fn get_mut(&mut self, id: MobjectId) -> (r: Option<&mut MobjectState>)
        requires
            old(self).wf(),
        ensures
            match r {
                Some(st) => {
                    &&& id_index(old(self).mobjects@, id) != -1
                    &&& *st == old(self).mobjects@[id_index(old(self).mobjects@, id)].1
                    &&& final(self).mobjects@ =~= old(self).mobjects@.update(
                        id_index(old(self).mobjects@, id),
                        (id, *final(st)),
                    )
                    &&& ((*final(st)).wf() ==> final(self).wf())
                },
                None => {
                    &&& id_index(old(self).mobjects@, id) == -1
                    &&& *final(self) == *old(self)
                    &&& final(self).wf()
                },
            },
            final(self).timeline == old(self).timeline,
            final(self).next_id == old(self).next_id,
            final(self).camera == old(self).camera,
            final(self).background == old(self).background,
    {
        match index_of(&self.mobjects, id) {
            Some(ix) => Some(&mut self.mobjects[ix].1),
            None => None,
        }
    }

    /// The position a newly scheduled animation would interpolate from.
    fn capture_for(&self, animation: &Animation) -> (r: Option<Vec2Fx>)
        requires
            self.wf(),
        ensures
            r == capture_spec(self.mobjects@, *animation),
            match r {
                Some(p) => p.in_range(MAX_COORD as int),
                None => true,
            },
    {
        if animation.captures_start() {
            match self.get(animation.target_id()) {
                Some(st) => {
                    proof {
                        lemma_id_index_spec(self.mobjects@, animation.target_spec());
                    }
                    Some(st.center())
                },
                None => None,
            }
        } else {
            None
        }
    }

    /// Schedules one animation sequentially, capturing the target's current
    /// position for effects that move it.
    pub fn play(&mut self, animation: Animation)
        requires
            old(self).wf(),
            animation.wf(),
            old(self).timeline.current_time + animation.duration_spec() <= MAX_TICKS,
        ensures
            final(self).timeline.entries@ =~= old(self).timeline.entries@.push(
                AnimationEntry {
                    animation,
                    start_time: old(self).timeline.current_time,
                    start_state: capture_spec(old(self).mobjects@, animation),
                },
            ),
            final(self).timeline.current_time == old(self).timeline.current_time
                + animation.duration_spec(),
            final(self).mobjects@ == old(self).mobjects@,
            final(self).next_id == old(self).next_id,
            final(self).camera == old(self).camera,
            final(self).background == old(self).background,
            final(self).wf(),
    {
        let capture = self.capture_for(&animation);
        self.timeline.play_captured(animation, capture);
    }

    /// Schedules several animations in parallel: all start at the cursor,
    /// which advances to the maximum end time among them. Each position
    /// effect captures its target's current position.
    pub fn play_together(&mut self, animations: Vec<Animation>)
        requires
            old(self).wf(),
            forall|i: int| 0 <= i < animations@.len() ==> (#[trigger] animations@[i]).wf(),
            forall|i: int|
                0 <= i < animations@.len() ==> old(self).timeline.current_time + (
                #[trigger] animations@[i]).duration_spec() <= MAX_TICKS,
        ensures
            final(self).timeline.entries@ =~= old(self).timeline.entries@ + animations@.map_values(
                |a: Animation|
                    AnimationEntry {
                        animation: a,
                        start_time: old(self).timeline.current_time,
                        start_state: capture_spec(old(self).mobjects@, a),
                    },
            ),
            final(self).timeline.current_time == old(self).timeline.current_time + max_dur_spec(
                animations@,
            ),
            final(self).mobjects@ == old(self).mobjects@,
            final(self).next_id == old(self).next_id,
            final(self).camera == old(self).camera,
            final(self).background == old(self).background,
            final(self).wf(),
    {
        let ghost objs = self.mobjects@;
        let n = animations.len();
        let mut paired: Vec<(Animation, Option<Vec2Fx>)> = Vec::new();
        let mut k: usize = 0;
        while k < n
            invariant
                n == animations@.len(),
                0 <= k <= n,
                self == old(self),
                old(self).wf(),
                objs == old(self).mobjects@,
                paired@ =~= animations@.subrange(0, k as int).map_values(
                    |a: Animation| (a, capture_spec(objs, a)),
                ),
                forall|i: int|
                    0 <= i < paired@.len() ==> match (#[trigger] paired@[i]).1 {
                        Some(p) => p.in_range(MAX_COORD as int),
                        None => true,
                    },
            decreases n - k,
        {
            let a = animations[k];
            let cap = self.capture_for(&a);
            paired.push((a, cap));
            proof {
                assert(animations@.subrange(0, k as int + 1).map_values(
                    |a: Animation| (a, capture_spec(objs, a)),
                ) =~= animations@.subrange(0, k as int).map_values(
                    |a: Animation| (a, capture_spec(objs, a)),
                ).push((animations@[k as int], capture_spec(objs, animations@[k as int]))));
            }
            k = k + 1;
        }
        proof {
            assert(animations@.subrange(0, n as int) =~= animations@);
            assert(forall|i: int|
                0 <= i < paired@.len() ==> (#[trigger] paired@[i]) == (animations@[i], capture_spec(
                    objs,
                    animations@[i],
                )));
        }
        self.timeline.play_together_captured(paired);
        proof {
            let pairs = animations@.map_values(|a: Animation| (a, capture_spec(objs, a)));
            assert(paired@ =~= pairs);
            assert(pairs.map_values(|a: (Animation, Option<Vec2Fx>)| a.0) =~= animations@);
            assert(pairs.map_values(
                |a: (Animation, Option<Vec2Fx>)|
                    AnimationEntry {
                        animation: a.0,
                        start_time: old(self).timeline.current_time,
                        start_state: a.1,
                    },
            ) =~= animations@.map_values(
                |a: Animation|
                    AnimationEntry {
                        animation: a,
                        start_time: old(self).timeline.current_time,
                        start_state: capture_spec(old(self).mobjects@, a),
                    },
            ));
        }
    }

    /// Advances the scheduling cursor without creating an entry.
    pub fn wait(&mut self, duration: i64)
        requires
            old(self).wf(),
            -MAX_TICKS <= old(self).timeline.current_time + duration <= MAX_TICKS,
        ensures
            final(self).timeline.entries@ == old(self).timeline.entries@,
            final(self).timeline.current_time == old(self).timeline.current_time + duration,
            final(self).mobjects@ == old(self).mobjects@,
            final(self).next_id == old(self).next_id,
            final(self).camera == old(self).camera,
            final(self).background == old(self).background,
            final(self).wf(),
    {
        self.timeline.wait(duration);
    }

    /// The scene's timeline.
    pub fn timeline(&self) -> (r: &Timeline)
        ensures
            *r == self.timeline,
    {
        &self.timeline
    }

    /// Mutable access to the scene's timeline.
    pub fn timeline_mut(&mut self) -> (r: &mut Timeline)
        ensures
            *r == old(self).timeline,
            final(self).timeline == *final(r),
            final(self).mobjects@ == old(self).mobjects@,
            final(self).next_id == old(self).next_id,
            final(self).camera == old(self).camera,
            final(self).background == old(self).background,
    {
        &mut self.timeline
    }

    /// The timeline's total duration: the maximum end time over all
    /// scheduled entries, `0` with none.
    pub fn duration(&self) -> (r: i64)
        requires
            self.wf(),
        ensures
            r == max_end_spec(self.timeline.entries@),
    {
        self.timeline.total_duration()
    }

    pub fn background_color(&self) -> (r: Rgba)
        ensures
            r == self.background,
    {
        self.background
    }

    pub fn camera(&self) -> (r: &Camera)
        ensures
            *r == self.camera,
    {
        &self.camera
    }

    /// Builder: place the camera.
    pub fn camera_position(self, pos: Vec2Fx) -> (r: Scene)
        ensures
            r == (Scene { camera: Camera { position: pos, ..self.camera }, ..self }),
    {
        let camera = Camera { position: pos, ..self.camera };
        Scene { camera, ..self }
    }

    /// Builder: set the camera zoom.
    pub fn camera_zoom(self, zoom: i64) -> (r: Scene)
        ensures
            r == (Scene { camera: Camera { zoom, ..self.camera }, ..self }),
    {
        let camera = Camera { zoom, ..self.camera };
        Scene { camera, ..self }
    }

    /// Resolves the scene at absolute time `time`, in two passes. First,
    /// every active animation is applied to its target's state, in insertion
    /// order — on shared targets the most recently scheduled entry's effect
    /// wins, since later applications overwrite earlier ones. Second, the
    /// draw progress of every registered object is resolved. The result
    /// pairs each object's identifier with its draw progress, in
    /// registration order; the mutated states are read back with
    /// [`Scene::get`]. Both passes are pure functions of the schedule, the
    /// registry and `time`, so drawing a time twice, or times out of order,
    /// resolves identically.
    pub fn draw_at(&mut self, time: i64) -> (r: Vec<(MobjectId, i64)>)
        requires
            old(self).wf(),
            -MAX_TICKS <= time <= MAX_TICKS,
        ensures
            final(self).mobjects@ =~= run_active_spec(
                old(self).mobjects@,
                active_spec(old(self).timeline.entries@, time as int),
            ),
            final(self).timeline == old(self).timeline,
            final(self).next_id == old(self).next_id,
            final(self).camera == old(self).camera,
            final(self).background == old(self).background,
            final(self).wf(),
            r@.len() == final(self).mobjects@.len(),
            forall|i: int|
                0 <= i < r@.len() ==> (#[trigger] r@[i]).0 == final(self).mobjects@[i].0 && r@[i].1
                    == draw_progress_spec(old(self).timeline.entries@, r@[i].0, time as int),
    {
        let ghost objs0 = self.mobjects@;
        let active = self.timeline.active_at(time);
        let ghost act = active@;
        proof {
            crate::timeline::lemma_active_props(old(self).timeline.entries@, time as int);
            assert(run_active_spec(objs0, act.subrange(0, 0)) =~= objs0);
        }
        let n = active.len();
        let mut k: usize = 0;
        while k < n
            invariant
                n == act.len(),
                0 <= k <= n,
                active@ == act,
                act == active_spec(old(self).timeline.entries@, time as int),
                forall|j: int| 0 <= j < act.len() ==> (#[trigger] act[j]).0.wf(),
                forall|j: int| 0 <= j < act.len() ==> 0 <= (#[trigger] act[j]).1 <= SCALE,
                self.timeline == old(self).timeline,
                self.next_id == old(self).next_id,
                self.camera == old(self).camera,
                self.background == old(self).background,
                old(self).wf(),
                objs0 == old(self).mobjects@,
                self.mobjects@.len() == objs0.len(),
                forall|i: int|
                    0 <= i < objs0.len() ==> (#[trigger] self.mobjects@[i]).0 == objs0[i].0,
                forall|i: int|
                    0 <= i < objs0.len() ==> (#[trigger] self.mobjects@[i]).1.wf(),
                self.mobjects@ =~= run_active_spec(objs0, act.subrange(0, k as int)),
            decreases n - k,
        {
            let (entry, p) = active[k];
            let tgt = entry.animation.target_id();
            let ghost pre = self.mobjects@;
            match index_of(&self.mobjects, tgt) {
                Some(ix) => {
                    let st = self.mobjects[ix].1;
                    let ns = entry.apply_to(st, p);
                    self.mobjects[ix] = (tgt, ns);
                    proof {
                        assert forall|j: int|
                            0 <= j < pre.len() implies #[trigger] self.mobjects@[j]
                            == apply_step_spec(pre, entry, p)[j] by {
                            if j != ix as int {
                                assert(pre[j].0 != tgt);
                            }
                        }
                        assert(self.mobjects@ =~= apply_step_spec(pre, entry, p));
                    }
                },
                None => {
                    proof {
                        lemma_id_index_spec(pre, tgt);
                        assert forall|j: int|
                            0 <= j < pre.len() implies #[trigger] apply_step_spec(pre, entry, p)[j]
                            == pre[j] by {
                            assert(pre[j].0 != tgt);
                        }
                        assert(self.mobjects@ =~= apply_step_spec(pre, entry, p));
                    }
                },
            }
            proof {
                let before = act.subrange(0, k as int);
                let after = act.subrange(0, k as int + 1);
                assert(after.drop_last() =~= before);
                assert(after.last() == act[k as int]);
                assert(run_active_spec(objs0, after) == apply_step_spec(
                    run_active_spec(objs0, before),
                    act[k as int].0,
                    act[k as int].1,
                ));
            }
            k = k + 1;
        }
        proof {
            assert(act.subrange(0, n as int) =~= act);
        }
        let m = self.mobjects.len();
        let mut out: Vec<(MobjectId, i64)> = Vec::new();
        let mut i: usize = 0;
        while i < m
            invariant
                m == self.mobjects@.len(),
                0 <= i <= m,
                self.wf(),
                self.timeline == old(self).timeline,
                -MAX_TICKS <= time <= MAX_TICKS,
                out@.len() == i,
                forall|j: int|
                    0 <= j < i ==> (#[trigger] out@[j]).0 == self.mobjects@[j].0 && out@[j].1
                        == draw_progress_spec(self.timeline.entries@, out@[j].0, time as int),
            decreases m - i,
        {
            let id = self.mobjects[i].0;
            let dp = self.timeline.draw_progress_for(id, time);
            out.push((id, dp));
            i = i + 1;
        }
        out
    }

    /// The identifiers of all registered objects, in registration order.
    pub fn mobject_ids(&self) -> (r: Vec<MobjectId>)
        ensures
            r@.len() == self.mobjects@.len(),
            forall|i: int| 0 <= i < r@.len() ==> (#[trigger] r@[i]) == self.mobjects@[i].0,
    {
        let n = self.mobjects.len();
        let mut out: Vec<MobjectId> = Vec::new();
        let mut k: usize = 0;
        while k < n
            invariant
                n == self.mobjects@.len(),
                0 <= k <= n,
                out@.len() == k,
                forall|i: int| 0 <= i < k ==> (#[trigger] out@[i]) == self.mobjects@[i].0,
            decreases n - k,
        {
            out.push(self.mobjects[k].0);
            k = k + 1;
        }
        out
    }
}

/// True when the entry's effect overwrites its target's opacity.
pub open spec fn writes_opacity(e: AnimationEntry) -> bool {
    match e.animation {
        Animation::FadeIn(_) => true,
        Animation::FadeOut(_) => true,
        _ => false,
    }
}

/// True when the entry's effect overwrites its target's center: it is a
/// position effect and it holds a captured start position.
pub open spec fn writes_center(e: AnimationEntry) -> bool {
    match e.animation {
        Animation::MoveTo(_) => e.start_state is Some,
        Animation::Shift(_) => e.start_state is Some,
        _ => false,
    }
}

/// The opacity an opacity-writing entry produces at local progress `p`,
/// independent of the target's prior state.
pub open spec fn written_opacity(e: AnimationEntry, p: i64) -> i64 {
    let eased = ease_spec(e.animation.easing_spec(), clamp01_spec(p as int));
    match e.animation {
        Animation::FadeIn(_) => eased as i64,
        Animation::FadeOut(_) => (SCALE as int - eased) as i64,
        _ => 0,
    }
}

/// The center a center-writing entry produces at local progress `p`,
/// independent of the target's prior state.
pub open spec fn written_center(e: AnimationEntry, p: i64) -> Vec2Fx {
    let eased = ease_spec(e.animation.easing_spec(), clamp01_spec(p as int));
    match e.animation {
        Animation::MoveTo(m) => match e.start_state {
            Some(sp) => lerp_vec2_spec(sp, m.destination, eased),
            None => Vec2Fx { x: 0, y: 0 },
        },
        Animation::Shift(sh) => match e.start_state {
            Some(sp) => lerp_vec2_spec(
                sp,
                Vec2Fx { x: (sp.x + sh.delta.x) as i64, y: (sp.y + sh.delta.y) as i64 },
                eased,
            ),
            None => Vec2Fx { x: 0, y: 0 },
        },
        _ => Vec2Fx { x: 0, y: 0 },
    }
}

/// How one application step treats the two written properties: a writer
/// produces its value regardless of the prior state, a non-writer leaves
/// the property untouched.
proof fn lemma_apply_properties(e: AnimationEntry, s: MobjectState, p: i64)
    ensures
        writes_opacity(e) ==> apply_entry_spec(e, s, p as int).opacity == written_opacity(e, p),
        !writes_opacity(e) ==> apply_entry_spec(e, s, p as int).opacity == s.opacity,
        writes_center(e) ==> apply_entry_spec(e, s, p as int).center == written_center(e, p),
        !writes_center(e) ==> apply_entry_spec(e, s, p as int).center == s.center,
{
}

/// Resolution never adds, removes or renames registry slots: it only
/// rewrites states in place.
pub proof fn lemma_run_preserves_ids(
    objs: Seq<(MobjectId, MobjectState)>,
    act: Seq<(AnimationEntry, i64)>,
)
    ensures
        run_active_spec(objs, act).len() == objs.len(),
        forall|i: int|
            0 <= i < objs.len() ==> (#[trigger] run_active_spec(objs, act)[i]).0 == objs[i].0,
    decreases act.len(),
{
    if act.len() > 0 {
        lemma_run_preserves_ids(objs, act.drop_last());
    }
}

/// `id_index` depends only on the identifiers.
proof fn lemma_id_index_same_ids(
    s1: Seq<(MobjectId, MobjectState)>,
    s2: Seq<(MobjectId, MobjectState)>,
    id: MobjectId,
)
    requires
        s1.len() == s2.len(),
        forall|i: int| 0 <= i < s1.len() ==> (#[trigger] s1[i]).0 == s2[i].0,
    ensures
        id_index(s1, id) == id_index(s2, id),
    decreases s1.len(),
{
    if s1.len() > 0 {
        assert(forall|i: int|
            0 <= i < s1.drop_first().len() ==> (#[trigger] s1.drop_first()[i]) == s1[i + 1]);
        assert(forall|i: int|
            0 <= i < s2.drop_first().len() ==> (#[trigger] s2.drop_first()[i]) == s2[i + 1]);
        lemma_id_index_same_ids(s1.drop_first(), s2.drop_first(), id);
    }
}

/// Last write wins for opacity: when several active entries fade the same
/// object, the object's resolved opacity equals what the most recently
/// scheduled fade would produce alone — later applications simply overwrite
/// earlier ones.
pub proof fn lemma_last_write_wins_opacity(
    objs: Seq<(MobjectId, MobjectState)>,
    act: Seq<(AnimationEntry, i64)>,
    o: MobjectId,
    j: int,
)
    requires
        0 <= j < act.len(),
        act[j].0.animation.target_spec() == o,
        writes_opacity(act[j].0),
        forall|k: int|
            j < k < act.len() ==> !((#[trigger] act[k]).0.animation.target_spec() == o
                && writes_opacity(act[k].0)),
        id_index(objs, o) != -1,
    ensures
        id_index(objs, o) < objs.len(),
        run_active_spec(objs, act)[id_index(objs, o)].1.opacity == written_opacity(
            act[j].0,
            act[j].1,
        ),
    decreases act.len(),
{
    lemma_id_index_spec(objs, o);
    let idx = id_index(objs, o);
    let e = act.last().0;
    let p = act.last().1;
    let run_dl = run_active_spec(objs, act.drop_last());
    lemma_run_preserves_ids(objs, act.drop_last());
    lemma_apply_properties(e, run_dl[idx].1, p);
    if j == act.len() - 1 {
        assert(run_active_spec(objs, act)[idx] == (
            run_dl[idx].0,
            apply_entry_spec(e, run_dl[idx].1, p as int),
        ));
    } else {
        lemma_last_write_wins_opacity(objs, act.drop_last(), o, j);
        if e.animation.target_spec() == o {
            assert(run_active_spec(objs, act)[idx] == (
                run_dl[idx].0,
                apply_entry_spec(e, run_dl[idx].1, p as int),
            ));
        } else {
            assert(run_active_spec(objs, act)[idx] == run_dl[idx]);
        }
    }
}

/// Last write wins for position: when several active entries move the same
/// object, the object's resolved center equals what the most recently
/// scheduled position effect would produce alone.
pub proof fn lemma_last_write_wins_center(
    objs: Seq<(MobjectId, MobjectState)>,
    act: Seq<(AnimationEntry, i64)>,
    o: MobjectId,
    j: int,
)
    requires
        0 <= j < act.len(),
        act[j].0.animation.target_spec() == o,
        writes_center(act[j].0),
        forall|k: int|
            j < k < act.len() ==> !((#[trigger] act[k]).0.animation.target_spec() == o
                && writes_center(act[k].0)),
        id_index(objs, o) != -1,
    ensures
        id_index(objs, o) < objs.len(),
        run_active_spec(objs, act)[id_index(objs, o)].1.center == written_center(
            act[j].0,
            act[j].1,
        ),
    decreases act.len(),
{
    lemma_id_index_spec(objs, o);
    let idx = id_index(objs, o);
    let e = act.last().0;
    let p = act.last().1;
    let run_dl = run_active_spec(objs, act.drop_last());
    lemma_run_preserves_ids(objs, act.drop_last());
    lemma_apply_properties(e, run_dl[idx].1, p);
    if j == act.len() - 1 {
        assert(run_active_spec(objs, act)[idx] == (
            run_dl[idx].0,
            apply_entry_spec(e, run_dl[idx].1, p as int),
        ));
    } else {
        lemma_last_write_wins_center(objs, act.drop_last(), o, j);
        if e.animation.target_spec() == o {
            assert(run_active_spec(objs, act)[idx] == (
                run_dl[idx].0,
                apply_entry_spec(e, run_dl[idx].1, p as int),
            ));
        } else {
            assert(run_active_spec(objs, act)[idx] == run_dl[idx]);
        }
    }
}

impl Default for Scene {
    /// Same as [`Scene::new`].
    fn default() -> (r: Scene)
        ensures
            r.mobjects@ =~= Seq::<(MobjectId, MobjectState)>::empty(),
            r.next_id == 1,
            r.timeline.entries@ =~= Seq::<AnimationEntry>::empty(),
            r.timeline.current_time == 0,
    {
        Scene::new()
    }
}

} // verus!
