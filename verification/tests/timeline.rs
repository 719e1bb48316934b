use maquette::Animation;
use maquette::Easing;
use maquette::FadeIn;
use maquette::FadeOut;
use maquette::MobjectId;
use maquette::SCALE;
use maquette::Timeline;

/// One thousandth of a unit, the tolerance used by the duration tests.
const TOL: i64 = SCALE / 1000;

#[test]
fn test_sequential_animations() {
    let mut timeline = Timeline::new();
    let id = MobjectId::new(1);

    timeline.play(Animation::FadeIn(FadeIn::new(id).duration(SCALE)));
    timeline.play(Animation::FadeIn(FadeIn::new(id).duration(SCALE / 2)));

    assert!((timeline.total_duration() - 3 * SCALE / 2).abs() < TOL);
}

#[test]
fn test_wait() {
    let mut timeline = Timeline::new();
    let id = MobjectId::new(1);

    timeline.play(Animation::FadeIn(FadeIn::new(id).duration(SCALE)));
    timeline.wait(SCALE / 2);
    timeline.play(Animation::FadeIn(FadeIn::new(id).duration(SCALE)));

    assert!((timeline.total_duration() - 5 * SCALE / 2).abs() < TOL);
}

#[test]
fn empty_timeline_has_zero_duration() {
    let timeline = Timeline::new();
    assert_eq!(timeline.total_duration(), 0);
    assert!(timeline.active_at(0).is_empty());
    assert!(timeline.active_at(5 * SCALE).is_empty());
}

#[test]
fn trailing_wait_does_not_extend_the_duration() {
    let mut timeline = Timeline::new();
    let id = MobjectId::new(1);
    timeline.play(Animation::FadeIn(FadeIn::new(id).duration(SCALE)));
    timeline.wait(3 * SCALE);
    assert_eq!(timeline.total_duration(), SCALE);
    assert_eq!(timeline.current_time, 4 * SCALE);
}

#[test]
fn play_together_advances_to_the_longest_end() {
    let mut timeline = Timeline::new();
    let a = MobjectId::new(1);
    let b = MobjectId::new(2);
    timeline.play_together(vec![
        Animation::FadeIn(FadeIn::new(a).duration(SCALE)),
        Animation::FadeOut(FadeOut::new(b).duration(2 * SCALE)),
    ]);
    // The next sequential play starts at 2.0.
    assert_eq!(timeline.current_time, 2 * SCALE);
    assert_eq!(timeline.total_duration(), 2 * SCALE);
    // Both entries share the start time.
    let entries = timeline.entries();
    assert_eq!(entries.len(), 2);
    assert_eq!(entries[0].start_time, 0);
    assert_eq!(entries[1].start_time, 0);

    timeline.play(Animation::FadeIn(FadeIn::new(a).duration(SCALE / 2)));
    assert_eq!(timeline.entries()[2].start_time, 2 * SCALE);
    assert_eq!(timeline.total_duration(), 5 * SCALE / 2);
}

#[test]
fn active_entries_and_their_progress() {
    let mut timeline = Timeline::new();
    let id = MobjectId::new(1);
    timeline.play(Animation::FadeIn(
        FadeIn::new(id).duration(SCALE).easing(Easing::Linear),
    ));

    // Before the start the entry is excluded.
    assert!(timeline.active_at(-1).is_empty());
    // At the start it is active with zero progress.
    let at_start = timeline.active_at(0);
    assert_eq!(at_start.len(), 1);
    assert_eq!(at_start[0].1, 0);
    // Halfway through, progress is one half.
    assert_eq!(timeline.active_at(SCALE / 2)[0].1, SCALE / 2);
    // At and after the end it stays active at full progress.
    assert_eq!(timeline.active_at(SCALE)[0].1, SCALE);
    assert_eq!(timeline.active_at(10 * SCALE)[0].1, SCALE);
}

#[test]
fn resampling_is_idempotent() {
    let mut timeline = Timeline::new();
    let a = MobjectId::new(1);
    let b = MobjectId::new(2);
    timeline.play(Animation::FadeIn(FadeIn::new(a).duration(SCALE)));
    timeline.play(Animation::FadeOut(FadeOut::new(b).duration(SCALE / 2)));

    for time in [-SCALE, 0, SCALE / 3, SCALE, 2 * SCALE] {
        let first = timeline.active_at(time);
        let second = timeline.active_at(time);
        assert_eq!(first, second);
    }
    // Querying out of order changes nothing either.
    let late = timeline.active_at(2 * SCALE);
    let _early = timeline.active_at(0);
    assert_eq!(late, timeline.active_at(2 * SCALE));
}

#[test]
fn active_entries_keep_insertion_order() {
    let mut timeline = Timeline::new();
    let a = MobjectId::new(1);
    let b = MobjectId::new(2);
    timeline.play(Animation::FadeIn(FadeIn::new(a).duration(SCALE)));
    timeline.play(Animation::FadeIn(FadeIn::new(b).duration(SCALE)));
    let active = timeline.active_at(3 * SCALE);
    assert_eq!(active.len(), 2);
    assert_eq!(active[0].0.animation.target_id(), a);
    assert_eq!(active[1].0.animation.target_id(), b);
}

#[test]
fn animation_progress_clamps_outside_the_window() {
    let mut timeline = Timeline::new();
    let id = MobjectId::new(1);
    timeline.wait(SCALE);
    timeline.play(Animation::FadeIn(
        FadeIn::new(id).duration(SCALE).easing(Easing::Linear),
    ));
    let entry = timeline.entries()[0];
    assert_eq!(timeline.animation_progress(&entry, 0), 0);
    assert_eq!(timeline.animation_progress(&entry, SCALE), 0);
    assert_eq!(timeline.animation_progress(&entry, 3 * SCALE / 2), SCALE / 2);
    assert_eq!(timeline.animation_progress(&entry, 5 * SCALE), SCALE);
}

#[test]
fn zero_and_negative_durations_are_instantaneous() {
    let mut timeline = Timeline::new();
    let id = MobjectId::new(1);
    // A negative duration is clamped to zero.
    let anim = FadeIn::new(id).duration(-3 * SCALE);
    assert_eq!(Animation::FadeIn(anim).duration(), 0);
    timeline.play(Animation::FadeIn(anim));
    assert_eq!(timeline.total_duration(), 0);
    // The instantaneous entry is already complete at its start time.
    let active = timeline.active_at(0);
    assert_eq!(active.len(), 1);
    assert_eq!(active[0].1, SCALE);
}

#[test]
fn draw_progress_defaults_to_fully_drawn() {
    let mut timeline = Timeline::new();
    let animated = MobjectId::new(1);
    let untouched = MobjectId::new(2);
    timeline.play(Animation::FadeIn(FadeIn::new(animated).duration(SCALE)));
    assert_eq!(timeline.draw_progress_for(untouched, SCALE / 2), SCALE);
    // An empty timeline reports every object as fully drawn.
    let empty = Timeline::new();
    assert_eq!(empty.draw_progress_for(untouched, 0), SCALE);
}

#[test]
fn draw_progress_uses_the_most_recent_entry() {
    let mut timeline = Timeline::new();
    let id = MobjectId::new(1);
    timeline.play(Animation::FadeIn(
        FadeIn::new(id).duration(SCALE).easing(Easing::Linear),
    ));
    timeline.play(Animation::FadeOut(
        FadeOut::new(id).duration(SCALE).easing(Easing::Linear),
    ));
    // At 1.5 the first entry is complete, the second is halfway; the
    // most recently scheduled entry decides.
    assert_eq!(timeline.draw_progress_for(id, 3 * SCALE / 2), SCALE / 2);
    // Before the second entry starts, it still decides: progress 0.
    assert_eq!(timeline.draw_progress_for(id, 0), 0);
}
