use egui::Id;
use egui_gizmo::{Gizmo, GizmoMode, GizmoState, Pointer, Scalar, Viewport};

fn s(x: f64) -> Scalar {
    Scalar::from_bits(x.to_bits())
}

fn clip() -> Viewport {
    Viewport { min_x: s(0.0), min_y: s(0.0), max_x: s(800.0), max_y: s(600.0) }
}

fn prepared(mode: GizmoMode) -> Gizmo {
    let mut gizmo = Gizmo::new("frames").mode(mode);
    gizmo.prepare(clip());
    gizmo
}

fn hits(values: &[Option<f64>]) -> Vec<Option<Scalar>> {
    values.iter().map(|v| v.map(s)).collect()
}

fn hovering(values: &[Option<f64>], pressed: bool, held: bool) -> Pointer {
    Pointer::Hovering { hits: hits(values), pressed, held }
}

fn focused(gizmo: &Gizmo) -> Vec<usize> {
    gizmo.subgizmos().iter().enumerate().filter(|(_, h)| h.focused).map(|(i, _)| i).collect()
}

fn active(gizmo: &Gizmo) -> Vec<usize> {
    gizmo.subgizmos().iter().enumerate().filter(|(_, h)| h.active).map(|(i, _)| i).collect()
}

const ON_TX: [Option<f64>; 7] = [None, Some(2.0), None, None, None, None, Some(3.0)];
const ON_TY: [Option<f64>; 7] = [None, None, Some(1.0), None, None, None, None];
const ON_NOTHING: [Option<f64>; 7] = [None; 7];

#[test]
fn default_state_is_idle() {
    assert_eq!(GizmoState::default().active_subgizmo_id, None);
}

#[test]
fn press_on_a_handle_starts_a_drag_and_release_ends_it() {
    let mut state = GizmoState::default();
    let mut gizmo = prepared(GizmoMode::Translate);
    let tx = gizmo.subgizmos()[1].id;
    assert_eq!(gizmo.interact(&mut state, &hovering(&ON_TX, true, true)), Some(1));
    assert_eq!(state.active_subgizmo_id, Some(tx));
    assert_eq!(focused(&gizmo), vec![1]);
    assert_eq!(active(&gizmo), vec![1]);

    let mut gizmo = prepared(GizmoMode::Translate);
    assert_eq!(gizmo.interact(&mut state, &hovering(&ON_TX, false, false)), None);
    assert_eq!(state.active_subgizmo_id, None);
    assert_eq!(focused(&gizmo), Vec::<usize>::new());
    assert_eq!(active(&gizmo), Vec::<usize>::new());
}

#[test]
fn no_hover_changes_nothing() {
    let mut gizmo = prepared(GizmoMode::Translate);
    let mut state = GizmoState::default();
    assert_eq!(gizmo.interact(&mut state, &Pointer::Away), None);
    assert_eq!(state, GizmoState::default());
    assert_eq!(focused(&gizmo), Vec::<usize>::new());
    assert_eq!(active(&gizmo), Vec::<usize>::new());

    let tz = gizmo.subgizmos()[3].id;
    let mut state = GizmoState { active_subgizmo_id: Some(tz) };
    assert_eq!(gizmo.interact(&mut state, &Pointer::Away), None);
    assert_eq!(state.active_subgizmo_id, Some(tz));
    assert_eq!(focused(&gizmo), Vec::<usize>::new());
    assert_eq!(active(&gizmo), Vec::<usize>::new());
}

#[test]
fn hover_without_press_focuses_and_stays_idle() {
    let mut gizmo = prepared(GizmoMode::Translate);
    let mut state = GizmoState::default();
    assert_eq!(gizmo.interact(&mut state, &hovering(&ON_TX, false, false)), None);
    assert_eq!(state.active_subgizmo_id, None);
    assert_eq!(focused(&gizmo), vec![1]);
    assert_eq!(active(&gizmo), Vec::<usize>::new());
    assert_eq!(gizmo.interact(&mut state, &hovering(&ON_TX, false, true)), None);
    assert_eq!(state.active_subgizmo_id, None);
    assert_eq!(focused(&gizmo), vec![1]);
}

#[test]
fn press_on_nothing_stays_idle() {
    let mut gizmo = prepared(GizmoMode::Translate);
    let mut state = GizmoState::default();
    assert_eq!(gizmo.interact(&mut state, &hovering(&ON_NOTHING, true, true)), None);
    assert_eq!(state.active_subgizmo_id, None);
    assert_eq!(focused(&gizmo), Vec::<usize>::new());
}

#[test]
fn press_and_release_in_one_frame_stays_idle() {
    let mut gizmo = prepared(GizmoMode::Translate);
    let mut state = GizmoState::default();
    assert_eq!(gizmo.interact(&mut state, &hovering(&ON_TX, true, false)), None);
    assert_eq!(state.active_subgizmo_id, None);
    assert_eq!(focused(&gizmo), vec![1]);
    assert_eq!(active(&gizmo), Vec::<usize>::new());
}

#[test]
fn drag_goes_on_and_is_not_taken_over() {
    let mut gizmo = prepared(GizmoMode::Translate);
    let tx = gizmo.subgizmos()[1].id;
    let mut state = GizmoState { active_subgizmo_id: Some(tx) };
    assert_eq!(gizmo.interact(&mut state, &hovering(&ON_TY, true, true)), Some(1));
    assert_eq!(state.active_subgizmo_id, Some(tx));
    assert_eq!(focused(&gizmo), vec![1]);
    assert_eq!(active(&gizmo), vec![1]);
    assert_eq!(gizmo.interact(&mut state, &hovering(&ON_NOTHING, false, true)), Some(1));
    assert_eq!(state.active_subgizmo_id, Some(tx));
    assert_eq!(active(&gizmo), vec![1]);
}

#[test]
fn release_ends_the_drag_wherever_the_pointer_is() {
    for on in [ON_TX, ON_TY, ON_NOTHING] {
        let mut gizmo = prepared(GizmoMode::Translate);
        let tx = gizmo.subgizmos()[1].id;
        let mut state = GizmoState { active_subgizmo_id: Some(tx) };
        assert_eq!(gizmo.interact(&mut state, &hovering(&on, false, false)), None);
        assert_eq!(state.active_subgizmo_id, None);
        assert_eq!(focused(&gizmo), Vec::<usize>::new());
        assert_eq!(active(&gizmo), Vec::<usize>::new());
    }
}

#[test]
fn a_state_that_names_no_handle_is_kept_while_held_and_dropped_on_release() {
    let mut gizmo = prepared(GizmoMode::Rotate);
    let foreign = Id::new("elsewhere").with("tx");
    let mut state = GizmoState { active_subgizmo_id: Some(foreign) };
    assert_eq!(gizmo.interact(&mut state, &hovering(&[Some(1.0); 5], true, true)), None);
    assert_eq!(state.active_subgizmo_id, Some(foreign));
    assert_eq!(focused(&gizmo), Vec::<usize>::new());
    assert_eq!(active(&gizmo), Vec::<usize>::new());
    assert_eq!(gizmo.draw_subgizmos(&state), Vec::<usize>::new());
    assert_eq!(gizmo.interact(&mut state, &Pointer::Away), None);
    assert_eq!(state.active_subgizmo_id, Some(foreign));
    assert_eq!(gizmo.interact(&mut state, &hovering(&[Some(1.0); 5], false, false)), None);
    assert_eq!(state.active_subgizmo_id, None);
    assert_eq!(focused(&gizmo), Vec::<usize>::new());
    assert_eq!(gizmo.draw_subgizmos(&state), vec![0, 1, 2, 3, 4]);
}

#[test]
fn nearest_handle_is_the_one_that_is_dragged() {
    let mut gizmo = prepared(GizmoMode::Rotate);
    let mut state = GizmoState::default();
    let pointer = hovering(&[Some(4.0), Some(1.5), Some(1.5), None, Some(9.0)], true, true);
    assert_eq!(gizmo.interact(&mut state, &pointer), Some(1));
    assert_eq!(state.active_subgizmo_id, Some(gizmo.subgizmos()[1].id));
    assert_eq!(gizmo.subgizmos()[1].name, "ry");
}

#[test]
fn missing_hits_count_as_no_hit_and_extra_hits_are_ignored() {
    let mut gizmo = prepared(GizmoMode::Rotate);
    let mut state = GizmoState::default();
    assert_eq!(gizmo.interact(&mut state, &hovering(&[None, Some(2.0)], true, true)), Some(1));
    let mut gizmo = prepared(GizmoMode::Rotate);
    let mut state = GizmoState::default();
    let long = [None, None, None, None, None, Some(1.0), Some(0.5)];
    assert_eq!(gizmo.interact(&mut state, &hovering(&long, true, true)), None);
    assert_eq!(state.active_subgizmo_id, None);
    assert_eq!(gizmo.pick_subgizmo(&hits(&long)), None);
    assert!(!gizmo.awaits_press(&state, &hits(&long)));
}

#[test]
fn pick_subgizmo_picks_the_nearest_handle() {
    let gizmo = prepared(GizmoMode::Translate);
    assert_eq!(gizmo.pick_subgizmo(&hits(&ON_TX)), Some((1, s(2.0))));
    assert_eq!(gizmo.pick_subgizmo(&hits(&ON_NOTHING)), None);
    assert_eq!(gizmo.pick_subgizmo(&hits(&[Some(1.0), Some(1.0)])), Some((0, s(1.0))));
    assert_eq!(gizmo.pick_subgizmo(&hits(&ON_TX)), gizmo.pick_subgizmo(&hits(&ON_TX)));
}

#[test]
fn awaits_press_only_when_idle_and_on_a_handle() {
    let gizmo = prepared(GizmoMode::Translate);
    let idle = GizmoState::default();
    let dragging = GizmoState { active_subgizmo_id: Some(gizmo.subgizmos()[2].id) };
    assert!(gizmo.awaits_press(&idle, &hits(&ON_TX)));
    assert!(!gizmo.awaits_press(&idle, &hits(&ON_NOTHING)));
    assert!(!gizmo.awaits_press(&dragging, &hits(&ON_TX)));
    assert!(!gizmo.awaits_press(&dragging, &hits(&ON_NOTHING)));
}

#[test]
fn find_subgizmo_finds_by_identity() {
    let gizmo = prepared(GizmoMode::Scale);
    for (i, handle) in gizmo.subgizmos().iter().enumerate() {
        assert_eq!(gizmo.find_subgizmo(handle.id), Some(i));
    }
    assert_eq!(gizmo.find_subgizmo(gizmo.id()), None);
    assert_eq!(gizmo.find_subgizmo(Id::new("frames").with("sq")), None);
    assert_eq!(gizmo.find_subgizmo(Id::new("frames").with("sz")), Some(3));
}

#[test]
fn find_subgizmo_returns_the_first_of_equal_identities() {
    let mut gizmo = Gizmo::new("twice");
    let first = gizmo.new_arcball();
    let second = gizmo.new_arcball();
    let rotation = gizmo.new_rotation();
    gizmo.add_subgizmos(rotation);
    gizmo.add_subgizmos(first);
    gizmo.add_subgizmos(second);
    assert_eq!(gizmo.find_subgizmo(Id::new("twice").with("arc")), Some(4));
    let mut state = GizmoState::default();
    let on_last = [None, None, None, None, None, Some(1.0)];
    assert_eq!(gizmo.interact(&mut state, &hovering(&on_last, true, true)), Some(4));
    assert_eq!(focused(&gizmo), vec![4, 5]);
    assert_eq!(active(&gizmo), vec![4]);
}

#[test]
fn idle_gizmo_draws_every_handle() {
    let mut gizmo = prepared(GizmoMode::Translate);
    let mut state = GizmoState::default();
    assert_eq!(gizmo.draw_subgizmos(&state), vec![0, 1, 2, 3, 4, 5, 6]);
    gizmo.interact(&mut state, &hovering(&ON_TX, false, false));
    assert_eq!(gizmo.draw_subgizmos(&state), vec![0, 1, 2, 3, 4, 5, 6]);
    assert_eq!(Gizmo::new("none").draw_subgizmos(&state), Vec::<usize>::new());
}

#[test]
fn dragged_gizmo_draws_the_active_handle_only() {
    let mut gizmo = prepared(GizmoMode::Translate);
    let mut state = GizmoState::default();
    gizmo.interact(&mut state, &hovering(&ON_TX, true, true));
    assert_eq!(gizmo.draw_subgizmos(&state), vec![1]);
    gizmo.interact(&mut state, &Pointer::Away);
    assert_eq!(gizmo.draw_subgizmos(&state), Vec::<usize>::new());
    gizmo.interact(&mut state, &hovering(&ON_NOTHING, false, false));
    assert_eq!(gizmo.draw_subgizmos(&state), vec![0, 1, 2, 3, 4, 5, 6]);
}

#[test]
fn interact_keeps_identity_configuration_and_handles() {
    let mut gizmo = prepared(GizmoMode::Scale);
    let id = gizmo.id();
    let config = *gizmo.config();
    let before: Vec<_> = gizmo.subgizmos().iter().map(|h| (h.id, h.name, h.kind)).collect();
    let mut state = GizmoState::default();
    gizmo.interact(&mut state, &hovering(&[Some(1.0); 7], true, true));
    let after: Vec<_> = gizmo.subgizmos().iter().map(|h| (h.id, h.name, h.kind)).collect();
    assert_eq!(gizmo.id(), id);
    assert_eq!(*gizmo.config(), config);
    assert_eq!(before, after);
}

#[test]
fn marks_of_one_frame_do_not_leak_into_the_next() {
    let mut gizmo = prepared(GizmoMode::Translate);
    let mut state = GizmoState::default();
    gizmo.interact(&mut state, &hovering(&ON_TX, true, true));
    assert_eq!(active(&gizmo), vec![1]);
    gizmo.interact(&mut state, &hovering(&ON_TY, false, false));
    assert_eq!(active(&gizmo), Vec::<usize>::new());
    assert_eq!(focused(&gizmo), Vec::<usize>::new());
    gizmo.interact(&mut state, &hovering(&ON_TY, false, false));
    assert_eq!(focused(&gizmo), vec![2]);
}

#[test]
fn is_idle_tells_idle_from_dragging() {
    assert!(GizmoState::default().is_idle());
    assert!(GizmoState { active_subgizmo_id: None }.is_idle());
    assert!(!GizmoState { active_subgizmo_id: Some(Id::new("x")) }.is_idle());
}

#[test]
fn press_then_release_over_two_frames_of_a_rebuilt_gizmo() {
    let mut state = GizmoState::default();
    for mode in [GizmoMode::Rotate, GizmoMode::Translate, GizmoMode::Scale] {
        let mut gizmo = prepared(mode);
        let n = gizmo.subgizmos().len();
        let mut on_last = vec![None; n];
        on_last[n - 1] = Some(0.5);
        assert_eq!(gizmo.interact(&mut state, &hovering(&on_last, true, true)), Some(n - 1));
        assert_eq!(state.active_subgizmo_id, Some(gizmo.subgizmos()[n - 1].id));

        let mut gizmo = prepared(mode);
        assert_eq!(gizmo.interact(&mut state, &hovering(&on_last, false, true)), Some(n - 1));
        assert_eq!(state.active_subgizmo_id, Some(gizmo.subgizmos()[n - 1].id));

        let mut gizmo = prepared(mode);
        assert_eq!(gizmo.interact(&mut state, &hovering(&on_last, false, false)), None);
        assert_eq!(state.active_subgizmo_id, None);
    }
}

#[test]
fn prepared_gizmos_have_distinct_identities() {
    for mode in [GizmoMode::Rotate, GizmoMode::Translate, GizmoMode::Scale] {
        assert!(prepared(mode).has_distinct_identities());
    }
    assert!(Gizmo::new("none").has_distinct_identities());
}

#[test]
fn a_handle_added_twice_is_noticed() {
    let mut gizmo = Gizmo::new("twice");
    let rotation = gizmo.new_rotation();
    let first = gizmo.new_arcball();
    gizmo.add_subgizmos(rotation);
    gizmo.add_subgizmos(first);
    assert!(gizmo.has_distinct_identities());
    let second = gizmo.new_arcball();
    gizmo.add_subgizmos(second);
    assert!(!gizmo.has_distinct_identities());
}

#[test]
fn handles_keep_their_identities_from_frame_to_frame() {
    for mode in [GizmoMode::Rotate, GizmoMode::Translate, GizmoMode::Scale] {
        let first = prepared(mode);
        let second = prepared(mode);
        for (i, handle) in first.subgizmos().iter().enumerate() {
            assert_eq!(second.subgizmos()[i].id, handle.id);
            assert_eq!(second.find_subgizmo(handle.id), Some(i));
        }
    }
}
