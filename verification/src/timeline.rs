//! The timeline: an append-only schedule of animations with absolute start
//! times, built by sequential (`play`), parallel (`play_together`) and gap
//! (`wait`) composition, and resolved at query time by `active_at` and
//! `draw_progress_for`.
//!
//! The timeline holds no current time of its own: every query is a pure
//! function of the schedule and the queried time, so resampling any time, in
//! any order, any number of times, yields identical results.

use vstd::prelude::*;
use crate::animation::Animation;
use crate::easing::ease_spec;
use crate::fixed::MAX_COORD;
use crate::fixed::MAX_TICKS;
use crate::fixed::SCALE;
use crate::fixed::Vec2Fx;
use crate::fixed::clamp01_spec;
use crate::fixed::lerp_vec2;
use crate::fixed::lerp_vec2_spec;
use crate::mobject::MobjectId;
use crate::mobject::MobjectState;

verus! {

/// One scheduled animation: the effect, its absolute start time, and — for
/// effects that move their target — the target's position captured when the
/// entry was scheduled.
#[derive(Clone, Copy, Debug, PartialEq, Eq)]
pub struct AnimationEntry {
    pub animation: Animation,
    /// Absolute start time in ticks from the timeline origin.
    pub start_time: i64,
    /// For position effects, the target's center at schedule time.
    pub start_state: Option<Vec2Fx>,
}

impl AnimationEntry {
    /// Duration of the entry's animation, in ticks.
    pub open spec fn dur(self) -> int {
        self.animation.duration_spec()
    }

    /// Absolute end time: `start_time + duration`.
    pub open spec fn end_spec(self) -> int {
        self.start_time + self.dur()
    }

    /// Well-formedness: bounded start time, well-formed animation, and a
    /// captured position (if any) within the scene bound.
    pub open spec fn wf(self) -> bool {
        &&& -MAX_TICKS <= self.start_time <= MAX_TICKS
        &&& self.animation.wf()
        &&& match self.start_state {
            Some(p) => p.in_range(MAX_COORD as int),
            None => true,
        }
    }

    /// Wraps an animation with its absolute start time.
    pub fn new(animation: Animation, start_time: i64) -> (r: AnimationEntry)
        ensures
            r == (AnimationEntry { animation, start_time, start_state: None }),
    {
        AnimationEntry { animation, start_time, start_state: None }
    }

    /// Absolute end time of this entry.
    pub fn end_time(&self) -> (r: i64)
        requires
            self.wf(),
        ensures
            r == self.end_spec(),
    {
        self.start_time + self.animation.duration()
    }

    /// Applies this entry's effect to a target state at raw local progress
    /// `p` (easing is applied inside; out-of-range progress is clamped by
    /// the easing layer, not rejected). Pure: the result depends only on the
    /// entry, the input state and `p`, so repeated application at the same
    /// progress yields the same state.
    pub fn apply_to(&self, state: MobjectState, p: i64) -> (r: MobjectState)
        requires
            self.wf(),
            state.wf(),
        ensures
            r == apply_entry_spec(*self, state, p as int),
            r.wf(),
    {
        let eased = self.animation.easing().apply(p);
        match &self.animation {
            Animation::FadeIn(_) => {
                let mut s = state;
                s.opacity = eased;
                s
            },
            Animation::FadeOut(_) => {
                let mut s = state;
                s.opacity = SCALE - eased;
                s
            },
            Animation::MoveTo(m) => {
                match self.start_state {
                    Some(sp) => {
                        let mut s = state;
                        s.center = lerp_vec2(sp, m.destination, eased);
                        s
                    },
                    None => state,
                }
            },
            Animation::Shift(sh) => {
                match self.start_state {
                    Some(sp) => {
                        let dest = Vec2Fx { x: sp.x + sh.delta.x, y: sp.y + sh.delta.y };
                        let mut s = state;
                        s.center = lerp_vec2(sp, dest, eased);
                        s
                    },
                    None => state,
                }
            },
            Animation::Create(_) => state,
            Animation::Uncreate(_) => state,
            Animation::Scale(_) => state,
            Animation::Rotate(_) => state,
        }
    }
}

/// The state an entry's effect produces on its target at local progress `p`
/// (raw, not yet eased; easing is applied here, using the entry's own easing
/// curve). Fade effects overwrite the opacity; position effects interpolate
/// the center from the position captured at schedule time, saturated into
/// the scene bound; reveal effects (create, uncreate) and the scale and
/// rotation placeholders leave the state unchanged. A position effect whose
/// target was unregistered at schedule time has no captured position and
/// leaves the state unchanged.
pub open spec fn apply_entry_spec(e: AnimationEntry, s: MobjectState, p: int) -> MobjectState {
    let eased = ease_spec(e.animation.easing_spec(), clamp01_spec(p));
    match e.animation {
        Animation::FadeIn(_) => MobjectState { opacity: eased as i64, ..s },
        Animation::FadeOut(_) => MobjectState { opacity: (SCALE as int - eased) as i64, ..s },
        Animation::MoveTo(m) => match e.start_state {
            Some(sp) => MobjectState { center: lerp_vec2_spec(sp, m.destination, eased), ..s },
            None => s,
        },
        Animation::Shift(sh) => match e.start_state {
            Some(sp) => MobjectState {
                center: lerp_vec2_spec(
                    sp,
                    Vec2Fx { x: (sp.x + sh.delta.x) as i64, y: (sp.y + sh.delta.y) as i64 },
                    eased,
                ),
                ..s
            },
            None => s,
        },
        _ => s,
    }
}

/// Local progress of an entry at an absolute time: `0` before the start,
/// `SCALE` from the end onward (completed entries stay applied forever), and
/// the elapsed fraction of the duration in between.
pub open spec fn progress_of(e: AnimationEntry, time: int) -> int {
    if time < e.start_time {
        0
    } else if time >= e.end_spec() {
        SCALE as int
    } else {
        (time - e.start_time) * (SCALE as int) / e.dur()
    }
}

/// The entries of `s` that have started by `time`, in insertion order, each
/// paired with its local progress. Entries whose start lies in the future are
/// excluded; completed entries are included with progress `SCALE`.
pub open spec fn active_spec(s: Seq<AnimationEntry>, time: int) -> Seq<(AnimationEntry, i64)>
    decreases s.len(),
{
    if s.len() == 0 {
        Seq::empty()
    } else {
        let rest = active_spec(s.drop_last(), time);
        let e = s.last();
        if time >= e.start_time {
            rest.push((e, progress_of(e, time) as i64))
        } else {
            rest
        }
    }
}

/// The local progress of the most recently scheduled entry targeting `id`,
/// or `SCALE` (fully drawn) when no entry targets it.
pub open spec fn draw_progress_spec(s: Seq<AnimationEntry>, id: MobjectId, time: int) -> int
    decreases s.len(),
{
    if s.len() == 0 {
        SCALE as int
    } else if s.last().animation.target_spec() == id {
        progress_of(s.last(), time)
    } else {
        draw_progress_spec(s.drop_last(), id, time)
    }
}

/// The maximum end time over a schedule, `0` when it is empty. This is the
/// timeline's total duration.
pub open spec fn max_end_spec(s: Seq<AnimationEntry>) -> int
    decreases s.len(),
{
    if s.len() == 0 {
        0
    } else {
        let rest = max_end_spec(s.drop_last());
        if s.last().end_spec() > rest {
            s.last().end_spec()
        } else {
            rest
        }
    }
}

/// The maximum duration over a batch of animations, `0` when it is empty.
pub open spec fn max_dur_spec(s: Seq<Animation>) -> int
    decreases s.len(),
{
    if s.len() == 0 {
        0
    } else {
        let rest = max_dur_spec(s.drop_last());
        if s.last().duration_spec() > rest {
            s.last().duration_spec()
        } else {
            rest
        }
    }
}

/// Timeline manages the sequencing of animations: an append-only list of
/// scheduled entries plus a cursor (`current_time`) at which the next
/// sequential `play` will start.
#[derive(Clone, Debug)]
pub struct Timeline {
    pub entries: Vec<AnimationEntry>,
    /// The cursor: where the next sequential `play` starts. `wait` advances
    /// it without creating an entry, so it is not the total duration.
    pub current_time: i64,
}

impl Timeline {
    /// Well-formedness: the cursor is bounded and every entry is well formed.
    pub open spec fn wf(self) -> bool {
        &&& -MAX_TICKS <= self.current_time <= MAX_TICKS
        &&& forall|i: int| 0 <= i < self.entries@.len() ==> (#[trigger] self.entries@[i]).wf()
    }

    pub fn new() -> (r: Timeline)
        ensures
            r.entries@ =~= Seq::<AnimationEntry>::empty(),
            r.current_time == 0,
            r.wf(),
    {
        Timeline { entries: Vec::new(), current_time: 0 }
    }

    /// Schedules one animation sequentially: it starts at the cursor, and the
    /// cursor advances to its end. `start_state` is the captured position of
    /// the target for effects that need one (see [`crate::scene::Scene::play`]).
    pub fn play_captured(&mut self, animation: Animation, start_state: Option<Vec2Fx>)
        requires
            old(self).wf(),
            animation.wf(),
            old(self).current_time + animation.duration_spec() <= MAX_TICKS,
            match start_state {
                Some(p) => p.in_range(MAX_COORD as int),
                None => true,
            },
        ensures
            final(self).entries@ =~= old(self).entries@.push(
                AnimationEntry {
                    animation,
                    start_time: old(self).current_time,
                    start_state,
                },
            ),
            final(self).current_time == old(self).current_time + animation.duration_spec(),
            final(self).wf(),
    {
        let entry = AnimationEntry { animation, start_time: self.current_time, start_state };
        self.current_time = entry.end_time();
        self.entries.push(entry);
    }

    /// Add an animation to play sequentially (after all previous animations).
    pub fn play(&mut self, animation: Animation)
        requires
            old(self).wf(),
            animation.wf(),
            old(self).current_time + animation.duration_spec() <= MAX_TICKS,
        ensures
            final(self).entries@ =~= old(self).entries@.push(
                AnimationEntry {
                    animation,
                    start_time: old(self).current_time,
                    start_state: None,
                },
            ),
            final(self).current_time == old(self).current_time + animation.duration_spec(),
            final(self).wf(),
    {
        self.play_captured(animation, None);
    }

    /// Add multiple animations to play in parallel: all start at the cursor,
    /// and the cursor advances to the maximum end time among them. Each
    /// animation comes with its captured start position, if any.
    pub fn play_together_captured(&mut self, animations: Vec<(Animation, Option<Vec2Fx>)>)
        requires
            old(self).wf(),
            forall|i: int|
                0 <= i < animations@.len() ==> (#[trigger] animations@[i]).0.wf(),
            forall|i: int|
                0 <= i < animations@.len() ==> old(self).current_time + (
                #[trigger] animations@[i]).0.duration_spec() <= MAX_TICKS,
            forall|i: int|
                0 <= i < animations@.len() ==> match (#[trigger] animations@[i]).1 {
                    Some(p) => p.in_range(MAX_COORD as int),
                    None => true,
                },
        ensures
            final(self).entries@ =~= old(self).entries@ + animations@.map_values(
                |a: (Animation, Option<Vec2Fx>)|
                    AnimationEntry {
                        animation: a.0,
                        start_time: old(self).current_time,
                        start_state: a.1,
                    },
            ),
            final(self).current_time == old(self).current_time + max_dur_spec(
                animations@.map_values(|a: (Animation, Option<Vec2Fx>)| a.0),
            ),
            final(self).wf(),
    {
        let start_time = self.current_time;
        let mut max_end_time = self.current_time;
        let ghost anims = animations@.map_values(|a: (Animation, Option<Vec2Fx>)| a.0);
        let n = animations.len();
        let mut k: usize = 0;
        while k < n
            invariant
                n == animations@.len(),
                0 <= k <= n,
                forall|i: int| 0 <= i < n ==> (#[trigger] animations@[i]).0.wf(),
                forall|i: int|
                    0 <= i < n ==> start_time + (#[trigger] animations@[i]).0.duration_spec()
                        <= MAX_TICKS,
                forall|i: int|
                    0 <= i < n ==> match (#[trigger] animations@[i]).1 {
                        Some(p) => p.in_range(MAX_COORD as int),
                        None => true,
                    },
                anims == animations@.map_values(|a: (Animation, Option<Vec2Fx>)| a.0),
                -MAX_TICKS <= start_time <= MAX_TICKS,
                max_end_time == start_time + max_dur_spec(anims.subrange(0, k as int)),
                max_end_time <= MAX_TICKS,
                self.entries@ =~= old(self).entries@ + animations@.subrange(0, k as int)
                    .map_values(
                    |a: (Animation, Option<Vec2Fx>)|
                        AnimationEntry { animation: a.0, start_time, start_state: a.1 },
                ),
                self.current_time == old(self).current_time,
                self.wf(),
            decreases n - k,
        {
            let (animation, start_state) = animations[k];
            let entry = AnimationEntry { animation, start_time, start_state };
            let end = entry.end_time();
            if end > max_end_time {
                max_end_time = end;
            }
            self.entries.push(entry);
            proof {
                let pre = anims.subrange(0, k as int);
                let post = anims.subrange(0, k as int + 1);
                assert(post.drop_last() =~= pre);
                assert(post.last() == anims[k as int]);
                let prev = animations@.subrange(0, k as int).map_values(
                    |a: (Animation, Option<Vec2Fx>)|
                        AnimationEntry { animation: a.0, start_time, start_state: a.1 },
                );
                let next = animations@.subrange(0, k as int + 1).map_values(
                    |a: (Animation, Option<Vec2Fx>)|
                        AnimationEntry { animation: a.0, start_time, start_state: a.1 },
                );
                assert(next =~= prev.push(
                    AnimationEntry {
                        animation: animations@[k as int].0,
                        start_time,
                        start_state: animations@[k as int].1,
                    },
                ));
            }
            k = k + 1;
        }
        proof {
            assert(anims.subrange(0, n as int) =~= anims);
            assert(animations@.subrange(0, n as int) =~= animations@);
        }
        self.current_time = max_end_time;
    }

    /// Add multiple animations to play in parallel (all start at the cursor).
    pub fn play_together(&mut self, animations: Vec<Animation>)
        requires
            old(self).wf(),
            forall|i: int| 0 <= i < animations@.len() ==> (#[trigger] animations@[i]).wf(),
            forall|i: int|
                0 <= i < animations@.len() ==> old(self).current_time + (
                #[trigger] animations@[i]).duration_spec() <= MAX_TICKS,
        ensures
            final(self).entries@ =~= old(self).entries@ + animations@.map_values(
                |a: Animation|
                    AnimationEntry {
                        animation: a,
                        start_time: old(self).current_time,
                        start_state: None,
                    },
            ),
            final(self).current_time == old(self).current_time + max_dur_spec(animations@),
            final(self).wf(),
    {
        let n = animations.len();
        let mut paired: Vec<(Animation, Option<Vec2Fx>)> = Vec::new();
        let mut k: usize = 0;
        while k < n
            invariant
                n == animations@.len(),
                0 <= k <= n,
                paired@ =~= animations@.subrange(0, k as int).map_values(
                    |a: Animation| (a, None::<Vec2Fx>),
                ),
            decreases n - k,
        {
            paired.push((animations[k], None));
            proof {
                assert(animations@.subrange(0, k as int + 1).map_values(
                    |a: Animation| (a, None::<Vec2Fx>),
                ) =~= animations@.subrange(0, k as int).map_values(
                    |a: Animation| (a, None::<Vec2Fx>),
                ).push((animations@[k as int], None::<Vec2Fx>)));
            }
            k = k + 1;
        }
        proof {
            assert(animations@.subrange(0, n as int) =~= animations@);
        }
        self.play_together_captured(paired);
        proof {
            let pairs = animations@.map_values(|a: Animation| (a, None::<Vec2Fx>));
            assert(pairs.map_values(|a: (Animation, Option<Vec2Fx>)| a.0) =~= animations@);
            assert(pairs.map_values(
                |a: (Animation, Option<Vec2Fx>)|
                    AnimationEntry {
                        animation: a.0,
                        start_time: old(self).current_time,
                        start_state: a.1,
                    },
            ) =~= animations@.map_values(
                |a: Animation|
                    AnimationEntry {
                        animation: a,
                        start_time: old(self).current_time,
                        start_state: None,
                    },
            ));
        }
    }

    /// Advances the cursor by `duration` without creating an entry: a pure
    /// gap. The next sequential `play` starts later, but the total duration
    /// is unchanged.
    pub fn wait(&mut self, duration: i64)
        requires
            old(self).wf(),
            -MAX_TICKS <= old(self).current_time + duration <= MAX_TICKS,
        ensures
            final(self).entries@ == old(self).entries@,
            final(self).current_time == old(self).current_time + duration,
            final(self).wf(),
    {
        self.current_time = self.current_time + duration;
    }

    /// The maximum end time across all entries, `0` if there are none. A
    /// trailing `wait` does not change it.
    pub fn total_duration(&self) -> (r: i64)
        requires
            self.wf(),
        ensures
            r == max_end_spec(self.entries@),
    {
        let n = self.entries.len();
        let mut best: i64 = 0;
        let mut k: usize = 0;
        while k < n
            invariant
                n == self.entries@.len(),
                0 <= k <= n,
                self.wf(),
                best == max_end_spec(self.entries@.subrange(0, k as int)),
                -2 * MAX_TICKS <= best <= 2 * MAX_TICKS,
            decreases n - k,
        {
            let end = self.entries[k].end_time();
            if end > best {
                best = end;
            }
            proof {
                let pre = self.entries@.subrange(0, k as int);
                let post = self.entries@.subrange(0, k as int + 1);
                assert(post.drop_last() =~= pre);
                assert(post.last() == self.entries@[k as int]);
            }
            k = k + 1;
        }
        proof {
            assert(self.entries@.subrange(0, n as int) =~= self.entries@);
        }
        best
    }

    /// The scheduled entries, in insertion order.
    pub fn entries(&self) -> (r: &Vec<AnimationEntry>)
        ensures
            r@ == self.entries@,
    {
        &self.entries
    }

    /// All entries that have started by `time`, in insertion order, each with
    /// its local progress: `(time - start) / duration` while running, `SCALE`
    /// once completed. Entries starting after `time` are excluded. The result
    /// is a pure function of the schedule and `time`, so querying any time
    /// twice, or out of order, yields identical results.
    pub fn active_at(&self, time: i64) -> (r: Vec<(AnimationEntry, i64)>)
        requires
            self.wf(),
            -MAX_TICKS <= time <= MAX_TICKS,
        ensures
            r@ =~= active_spec(self.entries@, time as int),
    {
        let n = self.entries.len();
        let mut out: Vec<(AnimationEntry, i64)> = Vec::new();
        let mut k: usize = 0;
        while k < n
            invariant
                n == self.entries@.len(),
                0 <= k <= n,
                self.wf(),
                -MAX_TICKS <= time <= MAX_TICKS,
                out@ =~= active_spec(self.entries@.subrange(0, k as int), time as int),
            decreases n - k,
        {
            let entry = self.entries[k];
            if time >= entry.start_time {
                let p = self.animation_progress(&entry, time);
                out.push((entry, p));
            }
            proof {
                let pre = self.entries@.subrange(0, k as int);
                let post = self.entries@.subrange(0, k as int + 1);
                assert(post.drop_last() =~= pre);
                assert(post.last() == self.entries@[k as int]);
            }
            k = k + 1;
        }
        proof {
            assert(self.entries@.subrange(0, n as int) =~= self.entries@);
        }
        out
    }

    /// Local progress of one entry at `time`: `0` before its start, `SCALE`
    /// from its end onward, the elapsed fraction of its duration in between.
    pub fn animation_progress(&self, entry: &AnimationEntry, time: i64) -> (r: i64)
        requires
            entry.wf(),
            -MAX_TICKS <= time <= MAX_TICKS,
        ensures
            r == progress_of(*entry, time as int),
            0 <= r <= SCALE,
    {
        let end = entry.end_time();
        if time < entry.start_time {
            0
        } else if time >= end {
            SCALE
        } else {
            let dur = entry.animation.duration();
            let num = (time - entry.start_time) * SCALE;
            proof {
                assert((time - entry.start_time) * 2_200_000 < dur * 2_200_000)
                    by (nonlinear_arith)
                    requires
                        time - entry.start_time < dur,
                ;
                vstd::arithmetic::div_mod::lemma_div_pos_is_pos(num as int, dur as int);
                vstd::arithmetic::div_mod::lemma_multiply_divide_lt(
                    num as int,
                    dur as int,
                    SCALE as int,
                );
            }
            num / dur
        }
    }

    /// Get the draw progress for a mobject at a given time: the local
    /// progress of the most recently scheduled entry targeting it, or
    /// `SCALE` (fully drawn) when no entry targets it.
    pub fn draw_progress_for(&self, mobject_id: MobjectId, time: i64) -> (r: i64)
        requires
            self.wf(),
            -MAX_TICKS <= time <= MAX_TICKS,
        ensures
            r == draw_progress_spec(self.entries@, mobject_id, time as int),
            0 <= r <= SCALE,
    {
        let mut k: usize = self.entries.len();
        proof {
            assert(self.entries@.subrange(0, k as int) =~= self.entries@);
        }
        while k > 0
            invariant
                0 <= k <= self.entries@.len(),
                self.wf(),
                -MAX_TICKS <= time <= MAX_TICKS,
                draw_progress_spec(self.entries@, mobject_id, time as int) == draw_progress_spec(
                    self.entries@.subrange(0, k as int),
                    mobject_id,
                    time as int,
                ),
            decreases k,
        {
            k = k - 1;
            let entry = self.entries[k];
            proof {
                let post = self.entries@.subrange(0, k as int + 1);
                assert(post.drop_last() =~= self.entries@.subrange(0, k as int));
                assert(post.last() == self.entries@[k as int]);
            }
            if entry.animation.target_id().0 == mobject_id.0 {
                return self.animation_progress(&entry, time);
            }
        }
        SCALE
    }
}

/// Local progress always lies in `[0, SCALE]`.
pub proof fn lemma_progress_range(e: AnimationEntry, time: int)
    requires
        e.wf(),
    ensures
        0 <= progress_of(e, time) <= SCALE as int,
{
    if time < e.start_time {
    } else if time >= e.end_spec() {
    } else {
        let num = (time - e.start_time) * (SCALE as int);
        assert((time - e.start_time) * 2_200_000 < e.dur() * 2_200_000) by (nonlinear_arith)
            requires
                time - e.start_time < e.dur(),
        ;
        vstd::arithmetic::div_mod::lemma_div_pos_is_pos(num, e.dur());
        vstd::arithmetic::div_mod::lemma_multiply_divide_lt(num, e.dur(), SCALE as int);
    }
}

/// Every pair in the active set carries a well-formed entry and its local
/// progress at the queried time, which lies in `[0, SCALE]`.
pub proof fn lemma_active_props(s: Seq<AnimationEntry>, time: int)
    requires
        forall|i: int| 0 <= i < s.len() ==> (#[trigger] s[i]).wf(),
    ensures
        forall|j: int|
            0 <= j < active_spec(s, time).len() ==> (#[trigger] active_spec(s, time)[j]).0.wf(),
        forall|j: int|
            0 <= j < active_spec(s, time).len() ==> (#[trigger] active_spec(s, time)[j]).1
                == progress_of(active_spec(s, time)[j].0, time),
        forall|j: int|
            0 <= j < active_spec(s, time).len() ==> 0 <= (#[trigger] active_spec(s, time)[j]).1
                <= SCALE,
    decreases s.len(),
{
    if s.len() > 0 {
        lemma_active_props(s.drop_last(), time);
        let rest = active_spec(s.drop_last(), time);
        let a = active_spec(s, time);
        if time >= s.last().start_time {
            lemma_progress_range(s.last(), time);
            assert(a == rest.push((s.last(), progress_of(s.last(), time) as i64)));
            assert forall|j: int|
                0 <= j < a.len() implies (#[trigger] a[j]).0.wf() && a[j].1 == progress_of(
                a[j].0,
                time,
            ) && 0 <= a[j].1 <= SCALE by {
                if j < rest.len() {
                    assert(a[j] == rest[j]);
                } else {
                    assert(a[j] == (s.last(), progress_of(s.last(), time) as i64));
                }
            }
        } else {
            assert(a == rest);
        }
    }
}

/// A sequence that contains an element still contains it after a push.
proof fn lemma_push_keeps_contains<T>(s: Seq<T>, x: T, y: T)
    requires
        s.contains(x),
    ensures
        s.push(y).contains(x),
{
    let j = choose|j: int| 0 <= j < s.len() && s[j] == x;
    assert(s.push(y)[j] == x);
}

/// Post-completion clamp: once an entry's end time has passed, the active
/// set still contains that entry, with local progress exactly `SCALE` — a
/// completed animation stays applied at its final state forever.
pub proof fn lemma_post_completion_clamp(s: Seq<AnimationEntry>, i: int, time: int)
    requires
        0 <= i < s.len(),
        s[i].dur() >= 0,
        time >= s[i].end_spec(),
    ensures
        active_spec(s, time).contains((s[i], SCALE as i64)),
    decreases s.len(),
{
    let e = s.last();
    let rest = active_spec(s.drop_last(), time);
    if i == s.len() - 1 {
        assert(progress_of(s[i], time) == SCALE as int);
        assert(active_spec(s, time) == rest.push((s[i], SCALE as i64)));
        assert(active_spec(s, time).last() == (s[i], SCALE as i64));
        assert(active_spec(s, time).contains((s[i], SCALE as i64)));
    } else {
        assert(s.drop_last()[i] == s[i]);
        lemma_post_completion_clamp(s.drop_last(), i, time);
        if time >= e.start_time {
            lemma_push_keeps_contains(rest, (s[i], SCALE as i64), (e, progress_of(e, time) as i64));
        }
    }
}

/// Every pair in the active set belongs to an entry that has started: its
/// start time is at or before the queried time.
pub proof fn lemma_active_only_started(s: Seq<AnimationEntry>, time: int)
    ensures
        forall|j: int|
            0 <= j < active_spec(s, time).len() ==> (#[trigger] active_spec(s, time)[j]).0.start_time
                <= time,
    decreases s.len(),
{
    if s.len() > 0 {
        lemma_active_only_started(s.drop_last(), time);
    }
}

/// Pre-start exclusion: an entry whose start time lies after the queried
/// time does not appear in the active set at all.
pub proof fn lemma_pre_start_exclusion(s: Seq<AnimationEntry>, i: int, time: int)
    requires
        0 <= i < s.len(),
        time < s[i].start_time,
    ensures
        forall|j: int|
            0 <= j < active_spec(s, time).len() ==> (#[trigger] active_spec(s, time)[j]).0 != s[i],
{
    lemma_active_only_started(s, time);
}

/// With no entry targeting an object, its draw progress defaults to `SCALE`
/// (fully drawn).
pub proof fn lemma_draw_progress_default(s: Seq<AnimationEntry>, id: MobjectId, time: int)
    requires
        forall|i: int| 0 <= i < s.len() ==> (#[trigger] s[i]).animation.target_spec() != id,
    ensures
        draw_progress_spec(s, id, time) == SCALE as int,
    decreases s.len(),
{
    if s.len() > 0 {
        lemma_draw_progress_default(s.drop_last(), id, time);
    }
}

/// Sequential composition: two entries scheduled back to back from the
/// origin — as two consecutive `play` calls create them — span exactly the
/// sum of their durations.
pub proof fn lemma_sequential_composition(a: AnimationEntry, b: AnimationEntry)
    requires
        a.start_time == 0,
        a.dur() >= 0,
        b.dur() >= 0,
        b.start_time == a.end_spec(),
    ensures
        max_end_spec(seq![a, b]) == a.dur() + b.dur(),
{
    let s2 = seq![a, b];
    let s1 = seq![a];
    assert(s2.drop_last() =~= s1);
    assert(s1.drop_last() =~= Seq::<AnimationEntry>::empty());
    assert(s2.last() == b);
    assert(s1.last() == a);
    assert(max_end_spec(Seq::<AnimationEntry>::empty()) == 0);
    assert(max_end_spec(s1) == if a.end_spec() > 0 {
        a.end_spec()
    } else {
        0
    });
}

/// Gap insertion: a `wait` between two `play` calls moves the second entry's
/// start past the first entry's end, and the total duration grows by the
/// gap.
pub proof fn lemma_gap_composition(a: AnimationEntry, b: AnimationEntry, gap: int)
    requires
        a.start_time == 0,
        a.dur() >= 0,
        b.dur() >= 0,
        gap >= 0,
        b.start_time == a.end_spec() + gap,
    ensures
        max_end_spec(seq![a, b]) == a.dur() + gap + b.dur(),
{
    let s2 = seq![a, b];
    let s1 = seq![a];
    assert(s2.drop_last() =~= s1);
    assert(s1.drop_last() =~= Seq::<AnimationEntry>::empty());
    assert(s2.last() == b);
    assert(s1.last() == a);
    assert(max_end_spec(Seq::<AnimationEntry>::empty()) == 0);
    assert(max_end_spec(s1) == if a.end_spec() > 0 {
        a.end_spec()
    } else {
        0
    });
}

/// Parallel composition: two entries sharing one start time — as one
/// `play_together` call creates them — span the maximum of their durations,
/// which is also where the next sequential `play` starts.
pub proof fn lemma_parallel_composition(a: AnimationEntry, b: AnimationEntry)
    requires
        a.start_time == 0,
        b.start_time == 0,
        a.dur() >= 0,
        b.dur() >= 0,
    ensures
        max_end_spec(seq![a, b]) == if a.dur() >= b.dur() {
            a.dur()
        } else {
            b.dur()
        },
{
    let s2 = seq![a, b];
    let s1 = seq![a];
    assert(s2.drop_last() =~= s1);
    assert(s1.drop_last() =~= Seq::<AnimationEntry>::empty());
    assert(s2.last() == b);
    assert(s1.last() == a);
    assert(max_end_spec(Seq::<AnimationEntry>::empty()) == 0);
    assert(max_end_spec(s1) == if a.end_spec() > 0 {
        a.end_spec()
    } else {
        0
    });
}


impl Default for Timeline {
    /// An empty timeline with the cursor at the origin.
    fn default() -> (r: Timeline)
        ensures
            r.entries@ =~= Seq::<AnimationEntry>::empty(),
            r.current_time == 0,
    {
        Timeline::new()
    }
}

} // verus!
