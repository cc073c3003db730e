use egui::Id;
use egui_gizmo::{
    Axes, Gizmo, GizmoDirection, GizmoMode, Scalar, SubGizmo, SubGizmoKind, TransformKind,
    Viewport,
};

fn s(x: f64) -> Scalar {
    Scalar::from_bits(x.to_bits())
}

fn clip() -> Viewport {
    Viewport { min_x: s(0.0), min_y: s(0.0), max_x: s(800.0), max_y: s(600.0) }
}

fn prepared(mode: GizmoMode) -> Gizmo {
    let mut gizmo = Gizmo::new("handles").mode(mode);
    gizmo.prepare(clip());
    gizmo
}

fn check(handles: &[SubGizmo], parent: Id, expected: &[(&str, SubGizmoKind)]) {
    assert_eq!(handles.len(), expected.len());
    for (handle, (name, kind)) in handles.iter().zip(expected) {
        assert_eq!(handle.name, *name);
        assert_eq!(handle.kind, *kind);
        assert_eq!(handle.id, parent.with(*name));
        assert_eq!(handle.id(), parent.with(*name));
        assert_ne!(handle.id, parent);
        assert!(!handle.focused);
        assert!(!handle.active);
        assert!(!handle.is_focused());
        assert!(!handle.is_active());
    }
}

fn translation(direction: GizmoDirection, transform_kind: TransformKind) -> SubGizmoKind {
    SubGizmoKind::Translation { direction, transform_kind }
}

fn scale(direction: GizmoDirection, transform_kind: TransformKind) -> SubGizmoKind {
    SubGizmoKind::Scale { direction, transform_kind }
}

fn rotation(direction: GizmoDirection) -> SubGizmoKind {
    SubGizmoKind::Rotation { direction }
}

#[test]
fn gizmo_identity_is_the_hash_of_its_source() {
    assert_eq!(Gizmo::new("My gizmo").id(), Id::new("My gizmo"));
    assert_eq!(Gizmo::new(17u32).id(), Id::new(17u32));
    assert_ne!(Gizmo::new("a").id(), Gizmo::new("b").id());
}

#[test]
fn new_gizmo_has_no_handles() {
    assert!(Gizmo::new("empty").subgizmos().is_empty());
}

#[test]
fn handle_identity_is_made_of_parent_and_name() {
    let parent = Id::new("parent");
    let handle = SubGizmo::new(parent, "tx", translation(GizmoDirection::X, TransformKind::Axis));
    assert_eq!(handle.id, parent.with("tx"));
    assert_ne!(handle.id, parent);
    assert_ne!(handle.id, parent.with("ty"));
    assert_ne!(handle.id, Id::new("other").with("tx"));
    assert_eq!(handle.name, "tx");
}

#[test]
fn rotation_handles() {
    let gizmo = Gizmo::new("r");
    check(
        &gizmo.new_rotation(),
        gizmo.id(),
        &[
            ("rx", rotation(GizmoDirection::X)),
            ("ry", rotation(GizmoDirection::Y)),
            ("rz", rotation(GizmoDirection::Z)),
            ("rs", rotation(GizmoDirection::View)),
        ],
    );
}

#[test]
fn arcball_handle() {
    let gizmo = Gizmo::new("a");
    check(&gizmo.new_arcball(), gizmo.id(), &[("arc", SubGizmoKind::Arcball)]);
}

#[test]
fn translation_handles() {
    let gizmo = Gizmo::new("t");
    check(
        &gizmo.new_translation(),
        gizmo.id(),
        &[
            ("txs", translation(GizmoDirection::View, TransformKind::Plane)),
            ("tx", translation(GizmoDirection::X, TransformKind::Axis)),
            ("ty", translation(GizmoDirection::Y, TransformKind::Axis)),
            ("tz", translation(GizmoDirection::Z, TransformKind::Axis)),
            ("tyz", translation(GizmoDirection::X, TransformKind::Plane)),
            ("txz", translation(GizmoDirection::Y, TransformKind::Plane)),
            ("txy", translation(GizmoDirection::Z, TransformKind::Plane)),
        ],
    );
}

#[test]
fn scale_handles() {
    let gizmo = Gizmo::new("s");
    check(
        &gizmo.new_scale(),
        gizmo.id(),
        &[
            ("txs", scale(GizmoDirection::View, TransformKind::Plane)),
            ("sx", scale(GizmoDirection::X, TransformKind::Axis)),
            ("sy", scale(GizmoDirection::Y, TransformKind::Axis)),
            ("sz", scale(GizmoDirection::Z, TransformKind::Axis)),
            ("syz", scale(GizmoDirection::X, TransformKind::Plane)),
            ("sxz", scale(GizmoDirection::Y, TransformKind::Plane)),
            ("sxy", scale(GizmoDirection::Z, TransformKind::Plane)),
        ],
    );
}

#[test]
fn prepare_lays_out_the_handles_of_the_mode() {
    let rotate = prepared(GizmoMode::Rotate);
    let names: Vec<&str> = rotate.subgizmos().iter().map(|h| h.name).collect();
    assert_eq!(names, vec!["rx", "ry", "rz", "rs", "arc"]);
    let translate = prepared(GizmoMode::Translate);
    let names: Vec<&str> = translate.subgizmos().iter().map(|h| h.name).collect();
    assert_eq!(names, vec!["txs", "tx", "ty", "tz", "tyz", "txz", "txy"]);
    let scale = prepared(GizmoMode::Scale);
    let names: Vec<&str> = scale.subgizmos().iter().map(|h| h.name).collect();
    assert_eq!(names, vec!["txs", "sx", "sy", "sz", "syz", "sxz", "sxy"]);
}

#[test]
fn prepared_handles_serve_the_mode_and_have_distinct_identities() {
    for mode in [GizmoMode::Rotate, GizmoMode::Translate, GizmoMode::Scale] {
        let gizmo = prepared(mode);
        let handles = gizmo.subgizmos();
        for (i, a) in handles.iter().enumerate() {
            assert_eq!(a.kind.mode(), mode);
            assert_eq!(a.id, gizmo.id().with(a.name));
            for b in &handles[i + 1..] {
                assert_ne!(a.id, b.id);
                assert_ne!(a.name, b.name);
                assert_ne!(a.kind, b.kind);
            }
        }
    }
}

#[test]
fn prepare_again_lays_out_afresh() {
    let mut gizmo = prepared(GizmoMode::Translate);
    gizmo.prepare(clip());
    assert_eq!(gizmo.subgizmos().len(), 7);
    let mut gizmo = gizmo.mode(GizmoMode::Rotate);
    gizmo.prepare(clip());
    assert_eq!(gizmo.subgizmos().len(), 5);
    assert!(gizmo.subgizmos().iter().all(|h| !h.focused && !h.active));
}

#[test]
fn prepare_prepares_the_configuration() {
    let gizmo = prepared(GizmoMode::Scale);
    assert_eq!(gizmo.config().viewport, clip());
    assert!(gizmo.config().left_handed);
    assert_eq!(gizmo.config().mode, GizmoMode::Scale);
}

#[test]
fn add_subgizmos_appends_in_order() {
    let mut gizmo = Gizmo::new("add");
    let arcball = gizmo.new_arcball();
    let rotation = gizmo.new_rotation();
    gizmo.add_subgizmos(arcball);
    gizmo.add_subgizmos(rotation);
    let names: Vec<&str> = gizmo.subgizmos().iter().map(|h| h.name).collect();
    assert_eq!(names, vec!["arc", "rx", "ry", "rz", "rs"]);
}

#[test]
fn handle_marks_can_be_set_and_cleared() {
    let mut handle = SubGizmo::new(Id::new("m"), "arc", SubGizmoKind::Arcball);
    handle.set_focused(true);
    assert!(handle.is_focused());
    assert!(!handle.is_active());
    handle.set_active(true);
    assert!(handle.is_focused());
    assert!(handle.is_active());
    handle.set_focused(false);
    handle.set_active(false);
    assert!(!handle.is_focused());
    assert!(!handle.is_active());
    assert_eq!(handle.name, "arc");
    assert_eq!(handle.kind, SubGizmoKind::Arcball);
}

#[test]
fn kinds_serve_their_modes() {
    assert_eq!(rotation(GizmoDirection::View).mode(), GizmoMode::Rotate);
    assert_eq!(SubGizmoKind::Arcball.mode(), GizmoMode::Rotate);
    assert_eq!(
        translation(GizmoDirection::Y, TransformKind::Plane).mode(),
        GizmoMode::Translate
    );
    assert_eq!(scale(GizmoDirection::Z, TransformKind::Axis).mode(), GizmoMode::Scale);
}

#[test]
fn kinds_snap_to_the_increment_of_their_mode() {
    let mut gizmo = Gizmo::new("snap")
        .snapping(true)
        .snap_angle(s(0.25))
        .snap_distance(s(0.5))
        .snap_scale(s(2.0));
    gizmo.prepare(clip());
    let config = gizmo.config();
    assert_eq!(rotation(GizmoDirection::X).snap_increment(config), Some(s(0.25)));
    assert_eq!(SubGizmoKind::Arcball.snap_increment(config), None);
    assert_eq!(
        translation(GizmoDirection::X, TransformKind::Axis).snap_increment(config),
        Some(s(0.5))
    );
    assert_eq!(scale(GizmoDirection::X, TransformKind::Axis).snap_increment(config), Some(s(2.0)));
    let off = Gizmo::new("snap").snapping(false);
    assert_eq!(rotation(GizmoDirection::X).snap_increment(off.config()), None);
}

#[test]
fn builders_set_one_field_each() {
    let m = egui_gizmo::Matrix4::identity();
    let mut other = m;
    other.w_axis.x = s(3.0);
    let view = Viewport { min_x: s(1.0), min_y: s(2.0), max_x: s(3.0), max_y: s(4.0) };
    let mut visuals = egui_gizmo::GizmoVisuals::default();
    visuals.stroke_width = s(9.0);
    let gizmo = Gizmo::new("b")
        .model_matrix(other)
        .viewport(view)
        .mode(GizmoMode::Translate)
        .orientation(egui_gizmo::GizmoOrientation::Local)
        .snapping(true)
        .snap_angle(s(0.5))
        .snap_distance(s(0.25))
        .snap_scale(s(0.125))
        .visuals(visuals);
    let mut expected = egui_gizmo::GizmoConfig::default();
    expected.model_matrix = other;
    expected.viewport = view;
    expected.mode = GizmoMode::Translate;
    expected.orientation = egui_gizmo::GizmoOrientation::Local;
    expected.snapping = true;
    expected.snap_angle = s(0.5);
    expected.snap_distance = s(0.25);
    expected.snap_scale = s(0.125);
    expected.visuals = visuals;
    assert_eq!(*gizmo.config(), expected);
    assert_eq!(gizmo.id(), Id::new("b"));
    let gizmo = gizmo.view_matrix(other).projection_matrix(other);
    expected.view_matrix = other;
    expected.projection_matrix = other;
    assert_eq!(*gizmo.config(), expected);
}

#[test]
fn axes_of_axis_and_plane_handles() {
    let axis = TransformKind::Axis;
    let plane = TransformKind::Plane;
    assert_eq!(axis.axes(GizmoDirection::X), Axes { x: true, y: false, z: false });
    assert_eq!(axis.axes(GizmoDirection::Y), Axes { x: false, y: true, z: false });
    assert_eq!(axis.axes(GizmoDirection::Z), Axes { x: false, y: false, z: true });
    assert_eq!(axis.axes(GizmoDirection::View), Axes { x: false, y: false, z: false });
    assert_eq!(plane.axes(GizmoDirection::X), Axes { x: false, y: true, z: true });
    assert_eq!(plane.axes(GizmoDirection::Y), Axes { x: true, y: false, z: true });
    assert_eq!(plane.axes(GizmoDirection::Z), Axes { x: true, y: true, z: false });
    assert_eq!(plane.axes(GizmoDirection::View), Axes { x: true, y: true, z: true });
}
