//! The configuration of a gizmo for one frame.

use crate::mode::{GizmoMode, GizmoOrientation};
use crate::scalar::Scalar;
use crate::vector::{Matrix4, Vec3, Viewport};
use crate::visuals::GizmoVisuals;
use vstd::prelude::*;

verus! {

/// The default snapping distance for rotation in radians: the pattern of
/// pi / 32 to single precision.
pub const DEFAULT_SNAP_ANGLE: u64 = 0x3fb9_21fb_6000_0000;

/// The default snapping distance for translation: the pattern of `0.1` to
/// single precision.
pub const DEFAULT_SNAP_DISTANCE: u64 = 0x3fb9_9999_a000_0000;

/// The default snapping distance for scale: the pattern of `0.1` to single
/// precision.
pub const DEFAULT_SNAP_SCALE: u64 = 0x3fb9_9999_a000_0000;

/// What a gizmo is given for a frame, and the two facts that the library
/// derives from it: the viewport in force and the handedness of the
/// projection.
#[derive(Clone, Copy, Debug, PartialEq, Eq)]
pub struct GizmoConfig {
    pub view_matrix: Matrix4,
    pub projection_matrix: Matrix4,
    pub model_matrix: Matrix4,
    pub viewport: Viewport,
    pub mode: GizmoMode,
    pub orientation: GizmoOrientation,
    pub snapping: bool,
    pub snap_angle: Scalar,
    pub snap_distance: Scalar,
    pub snap_scale: Scalar,
    pub visuals: GizmoVisuals,
    /// Whether the projection is left-handed. Set by [`GizmoConfig::prepare`].
    pub left_handed: bool,
}

impl GizmoConfig {
    /// The configuration of a gizmo that was given nothing.
    pub open spec fn spec_default() -> GizmoConfig {
        GizmoConfig {
            view_matrix: Matrix4::spec_identity(),
            projection_matrix: Matrix4::spec_identity(),
            model_matrix: Matrix4::spec_identity(),
            viewport: Viewport::spec_nothing(),
            mode: GizmoMode::Rotate,
            orientation: GizmoOrientation::Global,
            snapping: false,
            snap_angle: Scalar { bits: DEFAULT_SNAP_ANGLE },
            snap_distance: Scalar { bits: DEFAULT_SNAP_DISTANCE },
            snap_scale: Scalar { bits: DEFAULT_SNAP_SCALE },
            visuals: GizmoVisuals::spec_default(),
            left_handed: false,
        }
    }

    /// Whether a projection is left-handed, read off the third column of its
    /// matrix: the sign of the `w` entry where that is not zero, as in a
    /// perspective projection, and else the sign of the `z` entry.
    pub open spec fn handedness(projection: Matrix4) -> bool {
        if projection.z_axis.w.zero() {
            projection.z_axis.z.positive()
        } else {
            projection.z_axis.w.positive()
        }
    }

    /// The configuration made ready for a frame. A viewport whose width or
    /// height is below zero or zero gives way to the clip rectangle; any other
    /// viewport stays.
    pub open spec fn prepared(self, clip_rect: Viewport) -> GizmoConfig {
        GizmoConfig {
            viewport: if self.viewport.empty() {
                clip_rect
            } else {
                self.viewport
            },
            left_handed: Self::handedness(self.projection_matrix),
            ..self
        }
    }

    /// Makes the configuration ready for a frame.
    pub fn prepare(&mut self, clip_rect: Viewport)
        ensures
            *final(self) == old(self).prepared(clip_rect),
    {
        if self.viewport.is_empty() {
            self.viewport = clip_rect;
        }
        self.left_handed = if self.projection_matrix.z_axis.w.is_zero() {
            self.projection_matrix.z_axis.z.is_positive()
        } else {
            self.projection_matrix.z_axis.w.is_positive()
        };
    }

    /// The given row of the view matrix, without its last entry.
    pub open spec fn view_row(&self, row: int) -> Vec3 {
        let m = self.view_matrix;
        if row == 0 {
            Vec3 { x: m.x_axis.x, y: m.y_axis.x, z: m.z_axis.x }
        } else if row == 1 {
            Vec3 { x: m.x_axis.y, y: m.y_axis.y, z: m.z_axis.y }
        } else {
            Vec3 { x: m.x_axis.z, y: m.y_axis.z, z: m.z_axis.z }
        }
    }

    /// Forward vector of the view camera
    pub fn view_forward(&self) -> (forward: Vec3)
        ensures
            forward == self.view_row(2),
    {
        let m = &self.view_matrix;
        Vec3 { x: m.x_axis.z, y: m.y_axis.z, z: m.z_axis.z }
    }

    /// Up vector of the view camera
    pub fn view_up(&self) -> (up: Vec3)
        ensures
            up == self.view_row(1),
    {
        let m = &self.view_matrix;
        Vec3 { x: m.x_axis.y, y: m.y_axis.y, z: m.z_axis.y }
    }

    /// Right vector of the view camera
    pub fn view_right(&self) -> (right: Vec3)
        ensures
            right == self.view_row(0),
    {
        let m = &self.view_matrix;
        Vec3 { x: m.x_axis.x, y: m.y_axis.x, z: m.z_axis.x }
    }

    /// Whether local orientation is used. Scale mode only works in local
    /// space.
    pub open spec fn spec_local_space(&self) -> bool {
        self.orientation == GizmoOrientation::Local || self.mode == GizmoMode::Scale
    }

    /// Whether local orientation is used
    #[verifier::when_used_as_spec(spec_local_space)]
    pub fn local_space(&self) -> (local: bool)
        ensures
            local == self.spec_local_space(),
    {
        self.orientation == GizmoOrientation::Local || self.mode == GizmoMode::Scale
    }

    /// The increment of the given mode.
    pub open spec fn increment(self, mode: GizmoMode) -> Scalar {
        match mode {
            GizmoMode::Rotate => self.snap_angle,
            GizmoMode::Translate => self.snap_distance,
            GizmoMode::Scale => self.snap_scale,
        }
    }

    /// Whether a number can be an increment: it is finite and above zero.
    pub open spec fn usable(increment: Scalar) -> bool {
        increment.positive() && increment.finite()
    }

    /// The increment to snap changes of the given mode to, if they are to be
    /// snapped at all: snapping is on and the increment is finite and above
    /// zero.
    pub open spec fn spec_snap_increment(&self, mode: GizmoMode) -> Option<Scalar> {
        if self.snapping && Self::usable(self.increment(mode)) {
            Some(self.increment(mode))
        } else {
            None
        }
    }

    /// The increment to snap changes of the given mode to, if they are to be
    /// snapped at all.
    #[verifier::when_used_as_spec(spec_snap_increment)]
    pub fn snap_increment(&self, mode: GizmoMode) -> (increment: Option<Scalar>)
        ensures
            increment == self.spec_snap_increment(mode),
    {
        let increment = match mode {
            GizmoMode::Rotate => self.snap_angle,
            GizmoMode::Translate => self.snap_distance,
            GizmoMode::Scale => self.snap_scale,
        };
        if self.snapping && increment.is_positive() && increment.is_finite() {
            Some(increment)
        } else {
            None
        }
    }
}

impl Default for GizmoConfig {
    fn default() -> (config: Self)
        ensures
            config == GizmoConfig::spec_default(),
    {
        Self {
            view_matrix: Matrix4::identity(),
            projection_matrix: Matrix4::identity(),
            model_matrix: Matrix4::identity(),
            viewport: Viewport::nothing(),
            mode: GizmoMode::Rotate,
            orientation: GizmoOrientation::Global,
            snapping: false,
            snap_angle: Scalar::from_bits(DEFAULT_SNAP_ANGLE),
            snap_distance: Scalar::from_bits(DEFAULT_SNAP_DISTANCE),
            snap_scale: Scalar::from_bits(DEFAULT_SNAP_SCALE),
            visuals: GizmoVisuals::default(),
            left_handed: false,
        }
    }
}

/// Preparing is a function of the configuration and the clip rectangle, and
/// preparing again changes nothing.
pub proof fn lemma_prepare_is_idempotent(config: GizmoConfig, clip_rect: Viewport)
    ensures
        config.prepared(clip_rect).prepared(clip_rect) == config.prepared(clip_rect),
{
}

/// With snapping off nothing is snapped, and with it on exactly the
/// increments that are finite and above zero are snapped to: never a zero, a
/// number below zero, an infinity or a NaN.
pub proof fn lemma_snapping_off_snaps_nothing(config: GizmoConfig, mode: GizmoMode)
    ensures
        !config.snapping ==> config.spec_snap_increment(mode) is None,
        config.spec_snap_increment(mode) is Some <==> config.snapping && GizmoConfig::usable(
            config.increment(mode),
        ),
        config.spec_snap_increment(mode) matches Some(s) ==> s == config.increment(mode)
            && s.positive() && s.finite() && !s.nan() && !s.zero(),
{
}

/// After preparing, the viewport is the clip rectangle or a rectangle of
/// width and height above zero.
pub proof fn lemma_prepared_viewport(config: GizmoConfig, clip_rect: Viewport)
    ensures
        ({
            let viewport = config.prepared(clip_rect).viewport;
            viewport == clip_rect || (viewport == config.viewport && !viewport.empty())
        }),
        !clip_rect.empty() ==> !config.prepared(clip_rect).viewport.empty(),
{
}

} // verus!
