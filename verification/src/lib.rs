//! The discrete core of a 3d transformation gizmo: which handles a gizmo
//! offers in each mode, which of them the pointer picks, how a drag begins
//! and ends, and how the motion of the dragged handle becomes the result of
//! the frame.
//!
//! Real numbers enter the library as binary64 bit patterns ([`Scalar`]). The
//! library orders, classifies and carries them; it never does arithmetic on
//! them. Geometry, drawing and input polling belong to the host.
//!
//! A host runs a frame like this:
//!
//! 1. [`Gizmo::prepare`] resolves the viewport and lays out the handles.
//! 2. The host casts the pointer ray against each handle and gathers the
//!    distances of the hits.
//! 3. [`Gizmo::interact`] picks the nearest handle, steps the
//!    [`GizmoState`], and names the handle that is being dragged.
//! 4. The host works out what the pointer's motion asks of the model, and
//!    [`SubGizmo::update`] takes from it the part that the handle governs.
//! 5. [`Gizmo::draw_subgizmos`] names the handles to draw.

pub mod config;
pub mod frame;
pub mod gizmo;
pub mod handles;
pub mod ident;
pub mod mode;
pub mod pick;
pub mod scalar;
pub mod subgizmo;
pub mod vector;
pub mod visuals;

pub use config::{GizmoConfig, DEFAULT_SNAP_ANGLE, DEFAULT_SNAP_DISTANCE, DEFAULT_SNAP_SCALE};
pub use frame::{GizmoState, Pointer};
pub use gizmo::Gizmo;
pub use mode::{Axes, GizmoDirection, GizmoMode, GizmoOrientation, TransformKind};
pub use scalar::Scalar;
pub use subgizmo::{GizmoResult, SubGizmo, SubGizmoKind};
pub use vector::{Matrix4, Quat, Transform, Vec3, Vec4, Viewport};
pub use visuals::{Color, GizmoVisuals};
