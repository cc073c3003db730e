//! The handles that a gizmo offers in each mode.

use crate::ident::child_identity;
use crate::mode::{GizmoDirection, GizmoMode, TransformKind};
use crate::subgizmo::{sound_scale, SubGizmo, SubGizmoKind};
use crate::vector::{Transform, Vec3};
use egui::Id;
use vstd::prelude::*;

verus! {

/// The kinds and names of the handles that turn the model about an axis.
pub open spec fn rotation_set() -> Seq<(Seq<char>, SubGizmoKind)> {
    seq![
        ("rx"@, SubGizmoKind::Rotation { direction: GizmoDirection::X }),
        ("ry"@, SubGizmoKind::Rotation { direction: GizmoDirection::Y }),
        ("rz"@, SubGizmoKind::Rotation { direction: GizmoDirection::Z }),
        ("rs"@, SubGizmoKind::Rotation { direction: GizmoDirection::View }),
    ]
}

/// The kind and name of the arcball.
pub open spec fn arcball_set() -> Seq<(Seq<char>, SubGizmoKind)> {
    seq![("arc"@, SubGizmoKind::Arcball)]
}

/// The kinds and names of the handles that move the model.
pub open spec fn translation_set() -> Seq<(Seq<char>, SubGizmoKind)> {
    seq![
        (
            "txs"@,
            SubGizmoKind::Translation {
                direction: GizmoDirection::View,
                transform_kind: TransformKind::Plane,
            },
        ),
        (
            "tx"@,
            SubGizmoKind::Translation {
                direction: GizmoDirection::X,
                transform_kind: TransformKind::Axis,
            },
        ),
        (
            "ty"@,
            SubGizmoKind::Translation {
                direction: GizmoDirection::Y,
                transform_kind: TransformKind::Axis,
            },
        ),
        (
            "tz"@,
            SubGizmoKind::Translation {
                direction: GizmoDirection::Z,
                transform_kind: TransformKind::Axis,
            },
        ),
        (
            "tyz"@,
            SubGizmoKind::Translation {
                direction: GizmoDirection::X,
                transform_kind: TransformKind::Plane,
            },
        ),
        (
            "txz"@,
            SubGizmoKind::Translation {
                direction: GizmoDirection::Y,
                transform_kind: TransformKind::Plane,
            },
        ),
        (
            "txy"@,
            SubGizmoKind::Translation {
                direction: GizmoDirection::Z,
                transform_kind: TransformKind::Plane,
            },
        ),
    ]
}

/// The kinds and names of the handles that scale the model.
pub open spec fn scale_set() -> Seq<(Seq<char>, SubGizmoKind)> {
    seq![
        (
            "txs"@,
            SubGizmoKind::Scale {
                direction: GizmoDirection::View,
                transform_kind: TransformKind::Plane,
            },
        ),
        (
            "sx"@,
            SubGizmoKind::Scale { direction: GizmoDirection::X, transform_kind: TransformKind::Axis },
        ),
        (
            "sy"@,
            SubGizmoKind::Scale { direction: GizmoDirection::Y, transform_kind: TransformKind::Axis },
        ),
        (
            "sz"@,
            SubGizmoKind::Scale { direction: GizmoDirection::Z, transform_kind: TransformKind::Axis },
        ),
        (
            "syz"@,
            SubGizmoKind::Scale {
                direction: GizmoDirection::X,
                transform_kind: TransformKind::Plane,
            },
        ),
        (
            "sxz"@,
            SubGizmoKind::Scale {
                direction: GizmoDirection::Y,
                transform_kind: TransformKind::Plane,
            },
        ),
        (
            "sxy"@,
            SubGizmoKind::Scale {
                direction: GizmoDirection::Z,
                transform_kind: TransformKind::Plane,
            },
        ),
    ]
}

/// The kinds and names of the handles that a gizmo offers in a mode, in the
/// order in which they are defined.
pub open spec fn offered(mode: GizmoMode) -> Seq<(Seq<char>, SubGizmoKind)> {
    match mode {
        GizmoMode::Rotate => rotation_set() + arcball_set(),
        GizmoMode::Translate => translation_set(),
        GizmoMode::Scale => scale_set(),
    }
}

/// Whether `handles` are the handles of `set` on the gizmo `parent`, one for
/// one and in order: each has the name and the kind that the set gives it,
/// and the identity that its name has on the gizmo.
pub open spec fn arranged(
    handles: Seq<SubGizmo>,
    parent: Id,
    set: Seq<(Seq<char>, SubGizmoKind)>,
) -> bool {
    &&& handles.len() == set.len()
    &&& forall|i: int|
        0 <= i < handles.len() ==> {
            &&& (#[trigger] handles[i]).name@ == set[i].0
            &&& handles[i].kind == set[i].1
            &&& handles[i].id == child_identity(parent, set[i].0)
        }
}

/// Whether `handles` are the handles of `set` on the gizmo `parent`, none of
/// them focused or active.
pub open spec fn fresh(
    handles: Seq<SubGizmo>,
    parent: Id,
    set: Seq<(Seq<char>, SubGizmoKind)>,
) -> bool {
    &&& arranged(handles, parent, set)
    &&& forall|i: int|
        0 <= i < handles.len() ==> !(#[trigger] handles[i]).focused && !handles[i].active
}

/// A gizmo offers five handles for rotation, the arcball last, and seven
/// each for translation and for scale, and every handle that it offers in a
/// mode serves that mode.
pub proof fn lemma_offered_serve_mode(mode: GizmoMode)
    ensures
        offered(mode).len() == if mode == GizmoMode::Rotate {
            5int
        } else {
            7int
        },
        forall|i: int| 0 <= i < offered(mode).len() ==> (#[trigger] offered(mode)[i]).1.spec_mode()
            == mode,
{
}

/// No two handles that a gizmo offers in one mode have the same name, nor are
/// two of them of the same kind.
pub proof fn lemma_offered_differ(mode: GizmoMode)
    ensures
        forall|i: int, j: int|
            0 <= i < j < offered(mode).len() ==> offered(mode)[i].0 != offered(mode)[j].0
                && offered(mode)[i].1 != offered(mode)[j].1,
{
    reveal_strlit("rx");
    reveal_strlit("ry");
    reveal_strlit("rz");
    reveal_strlit("rs");
    reveal_strlit("arc");
    reveal_strlit("txs");
    reveal_strlit("tx");
    reveal_strlit("ty");
    reveal_strlit("tz");
    reveal_strlit("tyz");
    reveal_strlit("txz");
    reveal_strlit("txy");
    reveal_strlit("sx");
    reveal_strlit("sy");
    reveal_strlit("sz");
    reveal_strlit("syz");
    reveal_strlit("sxz");
    reveal_strlit("sxy");
    let set = offered(mode);
    assert forall|i: int, j: int| 0 <= i < j < set.len() implies set[i].0 != set[j].0 && set[i].1
        != set[j].1 by {
        let a = set[i].0;
        let b = set[j].0;
        if a.len() == b.len() {
            assert(a[1] != b[1] || a[a.len() - 1] != b[b.len() - 1]);
        }
    }
}

/// Whichever handle of a gizmo is dragged, the result has the mode of the
/// gizmo and differs from the transform before the drag only in what that
/// mode governs. Its scale is finite and above zero on every axis where the
/// scale before the drag was.
pub proof fn lemma_result_has_the_mode_of_the_gizmo(
    parent: Id,
    mode: GizmoMode,
    handles: Seq<SubGizmo>,
    dragged: int,
    base: Transform,
    moved: Transform,
    value: Option<Vec3>,
)
    requires
        arranged(handles, parent, offered(mode)),
        0 <= dragged < handles.len(),
    ensures
        ({
            let result = handles[dragged].updated(base, moved, value);
            &&& result.mode == mode
            &&& mode != GizmoMode::Translate ==> result.translation == base.translation
            &&& mode != GizmoMode::Rotate ==> result.rotation == base.rotation
            &&& mode != GizmoMode::Scale ==> result.scale == base.scale
            &&& sound_scale(base.scale) ==> sound_scale(result.scale)
        }),
{
    lemma_offered_serve_mode(mode);
    assert(handles[dragged].kind == offered(mode)[dragged].1);
}

} // verus!
