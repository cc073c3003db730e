//! The handles of a gizmo.

use crate::config::GizmoConfig;
use crate::ident::{child_id, child_identity};
use crate::mode::{GizmoDirection, GizmoMode, TransformKind};
use crate::scalar::Scalar;
use crate::vector::{Quat, Transform, Vec3};
use egui::Id;
use vstd::prelude::*;

verus! {

/// What a handle does when it is dragged.
#[derive(Debug, Copy, Clone, PartialEq, Eq, Structural)]
pub enum SubGizmoKind {
    /// Turns the model about a direction.
    Rotation { direction: GizmoDirection },
    /// Turns the model freely, as a ball under the pointer.
    Arcball,
    /// Moves the model along a direction or in the plane across it.
    Translation { direction: GizmoDirection, transform_kind: TransformKind },
    /// Scales the model along a direction or in the plane across it.
    Scale { direction: GizmoDirection, transform_kind: TransformKind },
}

impl SubGizmoKind {
    /// The mode that the handle serves.
    pub open spec fn spec_mode(&self) -> GizmoMode {
        match self {
            SubGizmoKind::Rotation { .. } => GizmoMode::Rotate,
            SubGizmoKind::Arcball => GizmoMode::Rotate,
            SubGizmoKind::Translation { .. } => GizmoMode::Translate,
            SubGizmoKind::Scale { .. } => GizmoMode::Scale,
        }
    }

    /// The mode that the handle serves.
    #[verifier::when_used_as_spec(spec_mode)]
    pub fn mode(&self) -> (mode: GizmoMode)
        ensures
            mode == self.spec_mode(),
    {
        match self {
            SubGizmoKind::Rotation { .. } => GizmoMode::Rotate,
            SubGizmoKind::Arcball => GizmoMode::Rotate,
            SubGizmoKind::Translation { .. } => GizmoMode::Translate,
            SubGizmoKind::Scale { .. } => GizmoMode::Scale,
        }
    }

    /// The increment that the handle snaps its changes to, if it snaps them.
    /// The arcball never snaps.
    pub open spec fn spec_snap_increment(self, config: GizmoConfig) -> Option<Scalar> {
        match self {
            SubGizmoKind::Arcball => None,
            _ => config.spec_snap_increment(self.spec_mode()),
        }
    }

    /// The increment that the handle snaps its changes to, if it snaps them.
    pub fn snap_increment(&self, config: &GizmoConfig) -> (increment: Option<Scalar>)
        ensures
            increment == self.spec_snap_increment(*config),
    {
        match self {
            SubGizmoKind::Arcball => None,
            _ => config.snap_increment(self.mode()),
        }
    }
}

/// Whether a number can be the scale of a model along an axis: it is finite
/// and above zero.
pub open spec fn sound_factor(factor: Scalar) -> bool {
    factor.finite() && factor.positive()
}

/// Whether every component of a scale is finite and above zero.
pub open spec fn sound_scale(scale: Vec3) -> bool {
    sound_factor(scale.x) && sound_factor(scale.y) && sound_factor(scale.z)
}

/// The scale along one axis after a drag: what the drag asks for where that
/// is finite and above zero, and else what it was before.
pub open spec fn guarded_factor(base: Scalar, moved: Scalar) -> Scalar {
    if sound_factor(moved) {
        moved
    } else {
        base
    }
}

/// The scale after a drag, axis by axis.
pub open spec fn guarded_scale(base: Vec3, moved: Vec3) -> Vec3 {
    Vec3 {
        x: guarded_factor(base.x, moved.x),
        y: guarded_factor(base.y, moved.y),
        z: guarded_factor(base.z, moved.z),
    }
}

fn guard_factor(base: Scalar, moved: Scalar) -> (factor: Scalar)
    ensures
        factor == guarded_factor(base, moved),
{
    if moved.is_finite() && moved.is_positive() {
        moved
    } else {
        base
    }
}

/// One handle of a gizmo.
#[derive(Debug, Copy, Clone, PartialEq, Eq)]
pub struct SubGizmo {
    /// The identity of the handle, made from that of its gizmo and its name.
    pub id: Id,
    /// The name of the handle, which tells it from the others of its gizmo.
    pub name: &'static str,
    /// What the handle does.
    pub kind: SubGizmoKind,
    /// Whether the pointer is on the handle in this frame.
    pub focused: bool,
    /// Whether the handle is being dragged in this frame.
    pub active: bool,
}

/// Result of an active transformation
#[derive(Debug, Copy, Clone, PartialEq, Eq, Structural)]
pub struct GizmoResult {
    /// Updated scale
    pub scale: Vec3,
    /// Updated rotation
    pub rotation: Quat,
    /// Updated translation
    pub translation: Vec3,
    /// Mode of the active subgizmo
    pub mode: GizmoMode,
    /// Total scale, rotation or translation of the current gizmo activation, depending on mode
    pub value: Option<Vec3>,
}

impl SubGizmo {
    /// The handle called `name` on the gizmo `parent`, neither focused nor
    /// active.
    pub fn new(parent: Id, name: &'static str, kind: SubGizmoKind) -> (handle: SubGizmo)
        ensures
            handle.id == child_identity(parent, name@),
            handle.name@ == name@,
            handle.kind == kind,
            !handle.focused,
            !handle.active,
    {
        SubGizmo { id: child_id(parent, name), name, kind, focused: false, active: false }
    }

    pub fn id(&self) -> (id: Id)
        ensures
            id == self.id,
    {
        self.id
    }

    pub fn set_focused(&mut self, focused: bool)
        ensures
            *final(self) == (SubGizmo { focused, ..*old(self) }),
    {
        self.focused = focused;
    }

    pub fn set_active(&mut self, active: bool)
        ensures
            *final(self) == (SubGizmo { active, ..*old(self) }),
    {
        self.active = active;
    }

    pub fn is_focused(&self) -> (focused: bool)
        ensures
            focused == self.focused,
    {
        self.focused
    }

    pub fn is_active(&self) -> (active: bool)
        ensures
            active == self.active,
    {
        self.active
    }

    /// The result of a frame in which the handle was dragged. `base` is the
    /// transform of the model before the drag, `moved` the transform that the
    /// pointer's motion asks for, `value` the total change since the drag
    /// began. Of `moved`, only the part that the handle's mode governs is
    /// taken; the others stay as `base` has them. Of a scale, only the
    /// components that are finite and above zero are taken. The arcball
    /// reports no value.
    pub open spec fn updated(self, base: Transform, moved: Transform, value: Option<Vec3>)
        -> GizmoResult {
        GizmoResult {
            scale: if self.kind.spec_mode() == GizmoMode::Scale {
                guarded_scale(base.scale, moved.scale)
            } else {
                base.scale
            },
            rotation: if self.kind.spec_mode() == GizmoMode::Rotate {
                moved.rotation
            } else {
                base.rotation
            },
            translation: if self.kind.spec_mode() == GizmoMode::Translate {
                moved.translation
            } else {
                base.translation
            },
            mode: self.kind.spec_mode(),
            value: if self.kind == SubGizmoKind::Arcball {
                None
            } else {
                value
            },
        }
    }

    /// The result of a frame in which the handle was dragged.
    pub fn update(&self, base: &Transform, moved: &Transform, value: Option<Vec3>) -> (result:
        GizmoResult)
        ensures
            result == self.updated(*base, *moved, value),
    {
        let mode = self.kind.mode();
        match self.kind {
            SubGizmoKind::Rotation { .. } => GizmoResult {
                scale: base.scale,
                rotation: moved.rotation,
                translation: base.translation,
                mode,
                value,
            },
            SubGizmoKind::Arcball => GizmoResult {
                scale: base.scale,
                rotation: moved.rotation,
                translation: base.translation,
                mode,
                value: None,
            },
            SubGizmoKind::Translation { .. } => GizmoResult {
                scale: base.scale,
                rotation: base.rotation,
                translation: moved.translation,
                mode,
                value,
            },
            SubGizmoKind::Scale { .. } => GizmoResult {
                scale: Vec3 {
                    x: guard_factor(base.scale.x, moved.scale.x),
                    y: guard_factor(base.scale.y, moved.scale.y),
                    z: guard_factor(base.scale.z, moved.scale.z),
                },
                rotation: base.rotation,
                translation: base.translation,
                mode,
                value,
            },
        }
    }
}

/// A handle changes only what its mode governs: a translation handle leaves
/// rotation and scale as they were before the drag, a rotation handle or the
/// arcball leaves translation and scale, and a scale handle leaves
/// translation and rotation.
pub proof fn lemma_update_changes_one_part(
    handle: SubGizmo,
    base: Transform,
    moved: Transform,
    value: Option<Vec3>,
)
    ensures
        ({
            let result = handle.updated(base, moved, value);
            &&& result.mode == handle.kind.spec_mode()
            &&& result.mode == GizmoMode::Translate ==> result.translation == moved.translation
                && result.rotation == base.rotation && result.scale == base.scale
            &&& result.mode == GizmoMode::Rotate ==> result.rotation == moved.rotation
                && result.translation == base.translation && result.scale == base.scale
            &&& result.mode == GizmoMode::Scale ==> result.scale == guarded_scale(
                base.scale,
                moved.scale,
            ) && result.translation == base.translation && result.rotation == base.rotation
        }),
{
}

/// No drag makes a scale unsound: where every component of the scale was
/// finite and above zero before the drag, so is every component of the
/// result, whatever the handle and whatever the drag asks for. A scale handle
/// takes the scale that is asked for where that is sound.
pub proof fn lemma_scale_stays_sound(
    handle: SubGizmo,
    base: Transform,
    moved: Transform,
    value: Option<Vec3>,
)
    requires
        sound_scale(base.scale),
    ensures
        sound_scale(handle.updated(base, moved, value).scale),
        handle.kind.spec_mode() == GizmoMode::Scale && sound_scale(moved.scale) ==> handle.updated(
            base,
            moved,
            value,
        ).scale == moved.scale,
{
}

} // verus!
