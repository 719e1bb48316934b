use maquette::Animation;
use maquette::Easing;
use maquette::FadeIn;
use maquette::MobjectId;
use maquette::MobjectState;
use maquette::MoveTo;
use maquette::Rgba;
use maquette::SCALE;
use maquette::Scene;
use maquette::Shift;
use maquette::Vec2Fx;

#[test]
fn registry_assigns_fresh_identifiers() {
    let mut scene = Scene::new();
    let a = scene.add(MobjectState::new());
    let b = scene.add(MobjectState::new());
    assert_ne!(a, b);
    assert!(scene.get(a).is_some());
    assert!(scene.get(b).is_some());
    assert_eq!(scene.mobject_ids(), vec![a, b]);
    assert!(scene.get(MobjectId::new(999)).is_none());
}

#[test]
fn remove_returns_the_state_and_unregisters() {
    let mut scene = Scene::new();
    let a = scene.add(MobjectState::new().with_opacity(123));
    let removed = scene.remove(a);
    assert_eq!(removed.map(|s| s.opacity), Some(123));
    assert!(scene.get(a).is_none());
    assert!(scene.remove(a).is_none());
}

#[test]
fn get_mut_writes_through() {
    let mut scene = Scene::new();
    let a = scene.add(MobjectState::new());
    if let Some(st) = scene.get_mut(a) {
        st.set_opacity(0);
        st.set_center(Vec2Fx::new(10, -20));
    } else {
        panic!("object not registered");
    }
    let st = scene.get(a).unwrap();
    assert_eq!(st.opacity, 0);
    assert_eq!(st.center, Vec2Fx::new(10, -20));
}

#[test]
fn scene_duration_composes_like_the_timeline() {
    let mut scene = Scene::new();
    let a = scene.add(MobjectState::new());
    scene.play(Animation::FadeIn(FadeIn::new(a).duration(SCALE)));
    scene.wait(SCALE / 2);
    scene.play(Animation::FadeIn(FadeIn::new(a).duration(SCALE)));
    assert_eq!(scene.duration(), 5 * SCALE / 2);
}

#[test]
fn fade_in_end_to_end() {
    let mut scene = Scene::new();
    let o = scene.add(MobjectState::new());
    scene.play(Animation::FadeIn(FadeIn::new(o).duration(SCALE)));

    // At time 0 the fade has smooth progress 0: opacity 0.
    scene.draw_at(0);
    assert_eq!(scene.get(o).unwrap().opacity, 0);
    assert_eq!(Easing::Smooth.apply(0), 0);

    // At the end the fade is complete: opacity 1.
    scene.draw_at(SCALE);
    assert_eq!(scene.get(o).unwrap().opacity, SCALE);

    // Past the end the animation stays applied at its final state.
    scene.draw_at(2 * SCALE);
    assert_eq!(scene.get(o).unwrap().opacity, SCALE);
}

#[test]
fn draw_at_reports_draw_progress_per_object() {
    let mut scene = Scene::new();
    let animated = scene.add(MobjectState::new());
    let untouched = scene.add(MobjectState::new());
    scene.play(Animation::FadeIn(
        FadeIn::new(animated).duration(SCALE).easing(Easing::Linear),
    ));
    let frame = scene.draw_at(SCALE / 2);
    assert_eq!(frame.len(), 2);
    assert_eq!(frame[0], (animated, SCALE / 2));
    // An object no entry targets is fully drawn by default.
    assert_eq!(frame[1], (untouched, SCALE));
}

#[test]
fn move_to_interpolates_from_the_scheduled_position() {
    let mut scene = Scene::new();
    let o = scene.add(MobjectState::new().at(Vec2Fx::new(-1_000_000, 0)));
    scene.play(Animation::MoveTo(
        MoveTo::new(o, Vec2Fx::new(1_000_000, 500_000))
            .duration(SCALE)
            .easing(Easing::Linear),
    ));
    scene.draw_at(SCALE / 2);
    assert_eq!(scene.get(o).unwrap().center, Vec2Fx::new(0, 250_000));
    scene.draw_at(3 * SCALE);
    assert_eq!(scene.get(o).unwrap().center, Vec2Fx::new(1_000_000, 500_000));
}

#[test]
fn shift_offsets_from_the_scheduled_position() {
    let mut scene = Scene::new();
    let o = scene.add(MobjectState::new().at(Vec2Fx::new(100, 200)));
    scene.play(Animation::Shift(
        Shift::new(o, Vec2Fx::new(400, -100))
            .duration(SCALE)
            .easing(Easing::Linear),
    ));
    scene.draw_at(SCALE / 2);
    assert_eq!(scene.get(o).unwrap().center, Vec2Fx::new(300, 150));
    scene.draw_at(SCALE);
    assert_eq!(scene.get(o).unwrap().center, Vec2Fx::new(500, 100));
}

#[test]
fn later_entry_wins_on_a_shared_target() {
    let mut scene = Scene::new();
    let o = scene.add(MobjectState::new());
    scene.play_together(vec![
        Animation::FadeIn(FadeIn::new(o).duration(2 * SCALE).easing(Easing::Linear)),
        Animation::FadeIn(FadeIn::new(o).duration(SCALE).easing(Easing::Linear)),
    ]);
    // At 0.5 s the first fade alone would set opacity 0.25, the second
    // 0.5; the later-scheduled entry's write survives.
    scene.draw_at(SCALE / 2);
    assert_eq!(scene.get(o).unwrap().opacity, SCALE / 2);
}

#[test]
fn animating_an_unregistered_target_is_a_no_op() {
    let mut scene = Scene::new();
    let o = scene.add(MobjectState::new().with_opacity(777));
    let ghost_target = MobjectId::new(4242);
    scene.play(Animation::FadeIn(FadeIn::new(ghost_target).duration(SCALE)));
    let frame = scene.draw_at(SCALE / 2);
    // The registered object is untouched and the missing one is skipped.
    assert_eq!(frame.len(), 1);
    assert_eq!(scene.get(o).unwrap().opacity, 777);
}

#[test]
fn resolving_a_frame_twice_gives_the_same_states() {
    let mut scene = Scene::new();
    let o = scene.add(MobjectState::new().at(Vec2Fx::new(100, 100)));
    scene.play(Animation::MoveTo(
        MoveTo::new(o, Vec2Fx::new(900, 500)).duration(SCALE),
    ));
    scene.play(Animation::FadeIn(FadeIn::new(o).duration(SCALE)));

    let first = scene.draw_at(SCALE / 3);
    let state_first = *scene.get(o).unwrap();
    let second = scene.draw_at(SCALE / 3);
    let state_second = *scene.get(o).unwrap();
    assert_eq!(first, second);
    assert_eq!(state_first, state_second);

    // Resolving out of order does not disturb a later re-query either.
    let late = scene.draw_at(2 * SCALE);
    let state_late = *scene.get(o).unwrap();
    scene.draw_at(0);
    let again = scene.draw_at(2 * SCALE);
    assert_eq!(late, again);
    assert_eq!(state_late, *scene.get(o).unwrap());
}

#[test]
fn position_effects_capture_at_schedule_time() {
    let mut scene = Scene::new();
    let o = scene.add(MobjectState::new().at(Vec2Fx::new(1000, 0)));
    // Both moves are scheduled before any frame is resolved, so both
    // interpolate from the position the object had when `play` was called.
    scene.play(Animation::MoveTo(
        MoveTo::new(o, Vec2Fx::new(2000, 0))
            .duration(SCALE)
            .easing(Easing::Linear),
    ));
    scene.play(Animation::MoveTo(
        MoveTo::new(o, Vec2Fx::new(0, 0))
            .duration(SCALE)
            .easing(Easing::Linear),
    ));
    // Halfway through the second move: from the captured (1000, 0) toward
    // (0, 0).
    scene.draw_at(3 * SCALE / 2);
    assert_eq!(scene.get(o).unwrap().center, Vec2Fx::new(500, 0));
}

#[test]
fn builders_configure_the_scene() {
    let bg = Rgba { red: SCALE, green: 0, blue: 0, alpha: SCALE };
    let scene = Scene::new()
        .background(bg)
        .camera_position(Vec2Fx::new(5, 6))
        .camera_zoom(2 * SCALE)
        .with(MobjectState::new());
    assert_eq!(scene.background_color(), bg);
    assert_eq!(scene.camera().position, Vec2Fx::new(5, 6));
    assert_eq!(scene.camera().zoom, 2 * SCALE);
    assert_eq!(scene.mobject_ids().len(), 1);
}

#[test]
fn timeline_accessors_share_the_schedule() {
    let mut scene = Scene::new();
    let o = scene.add(MobjectState::new());
    scene
        .timeline_mut()
        .play(Animation::FadeIn(FadeIn::new(o).duration(SCALE)));
    assert_eq!(scene.timeline().entries().len(), 1);
    assert_eq!(scene.duration(), SCALE);
}
