//! What a gizmo manipulates, and along which directions.

use vstd::prelude::*;

verus! {

/// The transformation that a gizmo edits.
#[derive(Debug, Copy, Clone, PartialEq, Eq, Structural)]
pub enum GizmoMode {
    /// Only rotation
    Rotate,
    /// Only translation
    Translate,
    /// Only scale
    Scale,
}

/// The frame that the axes of a gizmo are aligned to.
#[derive(Debug, Copy, Clone, PartialEq, Eq, Structural)]
pub enum GizmoOrientation {
    /// Transformation axes are aligned to world space. Rotation of the
    /// gizmo does not change.
    Global,
    /// Transformation axes are aligned to local space. Rotation of the
    /// gizmo matches the rotation represented by the model matrix.
    Local,
}

/// The direction that a handle governs.
#[derive(Debug, Copy, Clone, PartialEq, Eq, Structural)]
pub enum GizmoDirection {
    /// Gizmo points in the X-direction
    X,
    /// Gizmo points in the Y-direction
    Y,
    /// Gizmo points in the Z-direction
    Z,
    /// Gizmo points in the view direction
    View,
}

/// Whether a handle moves along its direction or in the plane across it.
#[derive(Debug, Copy, Clone, PartialEq, Eq, Structural)]
pub enum TransformKind {
    /// Along the direction.
    Axis,
    /// In the plane that the direction is normal to.
    Plane,
}

/// A choice among the three axes of the model.
#[derive(Debug, Copy, Clone, PartialEq, Eq, Structural)]
pub struct Axes {
    pub x: bool,
    pub y: bool,
    pub z: bool,
}

impl TransformKind {
    /// The axes along which a handle of this kind lets the model move or
    /// grow: for an axis handle the axis of its direction, for a plane handle
    /// the two axes across its direction. The plane that faces the view
    /// spans all three, and the view direction itself is none of them.
    pub open spec fn spec_axes(&self, direction: GizmoDirection) -> Axes {
        match (*self, direction) {
            (TransformKind::Axis, GizmoDirection::X) => Axes { x: true, y: false, z: false },
            (TransformKind::Axis, GizmoDirection::Y) => Axes { x: false, y: true, z: false },
            (TransformKind::Axis, GizmoDirection::Z) => Axes { x: false, y: false, z: true },
            (TransformKind::Axis, GizmoDirection::View) => Axes { x: false, y: false, z: false },
            (TransformKind::Plane, GizmoDirection::X) => Axes { x: false, y: true, z: true },
            (TransformKind::Plane, GizmoDirection::Y) => Axes { x: true, y: false, z: true },
            (TransformKind::Plane, GizmoDirection::Z) => Axes { x: true, y: true, z: false },
            (TransformKind::Plane, GizmoDirection::View) => Axes { x: true, y: true, z: true },
        }
    }

    /// The axes along which a handle of this kind lets the model move or
    /// grow.
    #[verifier::when_used_as_spec(spec_axes)]
    pub fn axes(&self, direction: GizmoDirection) -> (axes: Axes)
        ensures
            axes == self.spec_axes(direction),
    {
        let plane = match self {
            TransformKind::Axis => false,
            TransformKind::Plane => true,
        };
        match direction {
            GizmoDirection::X => Axes { x: !plane, y: plane, z: plane },
            GizmoDirection::Y => Axes { x: plane, y: !plane, z: plane },
            GizmoDirection::Z => Axes { x: plane, y: plane, z: !plane },
            GizmoDirection::View => Axes { x: plane, y: plane, z: plane },
        }
    }
}

/// An axis handle and the plane handle of the same direction share no axis,
/// and between them they span all three.
pub proof fn lemma_axis_and_plane_are_complements(direction: GizmoDirection)
    requires
        direction != GizmoDirection::View,
    ensures
        ({
            let axis = TransformKind::Axis.spec_axes(direction);
            let plane = TransformKind::Plane.spec_axes(direction);
            &&& axis.x != plane.x
            &&& axis.y != plane.y
            &&& axis.z != plane.z
        }),
{
}

} // verus!
