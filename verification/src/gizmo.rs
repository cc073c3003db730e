//! The gizmo: its configuration, its handles, and what a frame does to them.
//!
//! A frame runs in this order. The host prepares the gizmo, which resolves
//! the viewport and lays out the handles of the mode. It casts the pointer
//! ray against each handle and gathers the hits. It asks whether a press
//! would start a drag and, only where one would, asks its toolkit whether a
//! drag began. Then [`Gizmo::interact`] decides: which handle is picked,
//! whether a drag starts, goes on or ends, and which handle, if any, is to be
//! updated with the pointer's motion.

use crate::config::GizmoConfig;
use crate::frame::{
    distinct, drawn, find, index, lemma_find_is_first, lemma_find_prefix, marked, next_state,
    picked, target, GizmoState, Pointer,
};
use crate::handles::{
    arcball_set, fresh, offered, rotation_set, scale_set, translation_set,
};
use crate::ident::{root_id, same_id};
use crate::mode::{GizmoDirection, GizmoMode, GizmoOrientation, TransformKind};
use crate::pick::{first_hits, nearest, pick_among};
use crate::scalar::Scalar;
use crate::subgizmo::{SubGizmo, SubGizmoKind};
use crate::vector::{Matrix4, Viewport};
use crate::visuals::GizmoVisuals;
use egui::Id;
use std::hash::Hash;
use vstd::prelude::*;

verus! {

/// What a gizmo is, to its contracts.
pub struct GizmoView {
    pub id: Id,
    pub config: GizmoConfig,
    pub handles: Seq<SubGizmo>,
}

/// A gizmo for one frame.
pub struct Gizmo {
    id: Id,
    config: GizmoConfig,
    subgizmos: Vec<SubGizmo>,
}

impl View for Gizmo {
    type V = GizmoView;

    closed spec fn view(&self) -> GizmoView {
        GizmoView { id: self.id, config: self.config, handles: self.subgizmos@ }
    }
}

impl Gizmo {
    /// A gizmo with the default configuration and no handles yet.
    pub fn new(id_source: impl Hash) -> (gizmo: Self)
        ensures
            gizmo@.config == GizmoConfig::spec_default(),
            gizmo@.handles == Seq::<SubGizmo>::empty(),
    {
        Self { id: root_id(id_source), config: GizmoConfig::default(), subgizmos: Vec::new() }
    }

    /// The identity of the gizmo.
    pub fn id(&self) -> (id: Id)
        ensures
            id == self@.id,
    {
        self.id
    }

    /// The configuration of the gizmo.
    pub fn config(&self) -> (config: &GizmoConfig)
        ensures
            *config == self@.config,
    {
        &self.config
    }

    /// The handles of the gizmo, in the order in which they were defined.
    pub fn subgizmos(&self) -> (handles: &Vec<SubGizmo>)
        ensures
            handles@ == self@.handles,
    {
        &self.subgizmos
    }

    /// Matrix that specifies translation and rotation of the gizmo in world space
    pub fn model_matrix(self, model_matrix: Matrix4) -> (gizmo: Self)
        ensures
            gizmo@ == (GizmoView {
                config: GizmoConfig { model_matrix, ..self@.config },
                ..self@
            }),
    {
        let mut gizmo = self;
        gizmo.config.model_matrix = model_matrix;
        gizmo
    }

    /// Matrix that specifies translation and rotation of the viewport camera
    pub fn view_matrix(self, view_matrix: Matrix4) -> (gizmo: Self)
        ensures
            gizmo@ == (GizmoView {
                config: GizmoConfig { view_matrix, ..self@.config },
                ..self@
            }),
    {
        let mut gizmo = self;
        gizmo.config.view_matrix = view_matrix;
        gizmo
    }

    /// Matrix that specifies projection of the viewport
    pub fn projection_matrix(self, projection_matrix: Matrix4) -> (gizmo: Self)
        ensures
            gizmo@ == (GizmoView {
                config: GizmoConfig { projection_matrix, ..self@.config },
                ..self@
            }),
    {
        let mut gizmo = self;
        gizmo.config.projection_matrix = projection_matrix;
        gizmo
    }

    /// Bounds of the viewport in pixels
    pub fn viewport(self, viewport: Viewport) -> (gizmo: Self)
        ensures
            gizmo@ == (GizmoView { config: GizmoConfig { viewport, ..self@.config }, ..self@ }),
    {
        let mut gizmo = self;
        gizmo.config.viewport = viewport;
        gizmo
    }

    /// Gizmo mode to use
    pub fn mode(self, mode: GizmoMode) -> (gizmo: Self)
        ensures
            gizmo@ == (GizmoView { config: GizmoConfig { mode, ..self@.config }, ..self@ }),
    {
        let mut gizmo = self;
        gizmo.config.mode = mode;
        gizmo
    }

    /// Gizmo orientation to use
    pub fn orientation(self, orientation: GizmoOrientation) -> (gizmo: Self)
        ensures
            gizmo@ == (GizmoView { config: GizmoConfig { orientation, ..self@.config }, ..self@ }),
    {
        let mut gizmo = self;
        gizmo.config.orientation = orientation;
        gizmo
    }

    /// Whether snapping is enabled
    pub fn snapping(self, snapping: bool) -> (gizmo: Self)
        ensures
            gizmo@ == (GizmoView { config: GizmoConfig { snapping, ..self@.config }, ..self@ }),
    {
        let mut gizmo = self;
        gizmo.config.snapping = snapping;
        gizmo
    }

    /// Snap angle to use for rotation when snapping is enabled
    pub fn snap_angle(self, snap_angle: Scalar) -> (gizmo: Self)
        ensures
            gizmo@ == (GizmoView { config: GizmoConfig { snap_angle, ..self@.config }, ..self@ }),
    {
        let mut gizmo = self;
        gizmo.config.snap_angle = snap_angle;
        gizmo
    }

    /// Snap distance to use for translation when snapping is enabled
    pub fn snap_distance(self, snap_distance: Scalar) -> (gizmo: Self)
        ensures
            gizmo@ == (GizmoView {
                config: GizmoConfig { snap_distance, ..self@.config },
                ..self@
            }),
    {
        let mut gizmo = self;
        gizmo.config.snap_distance = snap_distance;
        gizmo
    }

    /// Snap distance to use for scaling when snapping is enabled
    pub fn snap_scale(self, snap_scale: Scalar) -> (gizmo: Self)
        ensures
            gizmo@ == (GizmoView { config: GizmoConfig { snap_scale, ..self@.config }, ..self@ }),
    {
        let mut gizmo = self;
        gizmo.config.snap_scale = snap_scale;
        gizmo
    }

    /// Visual configuration of the gizmo, such as colors and size
    pub fn visuals(self, visuals: GizmoVisuals) -> (gizmo: Self)
        ensures
            gizmo@ == (GizmoView { config: GizmoConfig { visuals, ..self@.config }, ..self@ }),
    {
        let mut gizmo = self;
        gizmo.config.visuals = visuals;
        gizmo
    }

    /// Create arcball subgizmo
    pub fn new_arcball(&self) -> (handles: Vec<SubGizmo>)
        ensures
            fresh(handles@, self@.id, arcball_set()),
    {
        vec![SubGizmo::new(self.id, "arc", SubGizmoKind::Arcball)]
    }

    /// Create subgizmos for rotation
    pub fn new_rotation(&self) -> (handles: Vec<SubGizmo>)
        ensures
            fresh(handles@, self@.id, rotation_set()),
    {
        vec![
            SubGizmo::new(self.id, "rx", SubGizmoKind::Rotation { direction: GizmoDirection::X }),
            SubGizmo::new(self.id, "ry", SubGizmoKind::Rotation { direction: GizmoDirection::Y }),
            SubGizmo::new(self.id, "rz", SubGizmoKind::Rotation { direction: GizmoDirection::Z }),
            SubGizmo::new(
                self.id,
                "rs",
                SubGizmoKind::Rotation { direction: GizmoDirection::View },
            ),
        ]
    }

    /// Create subgizmos for translation
    pub fn new_translation(&self) -> (handles: Vec<SubGizmo>)
        ensures
            fresh(handles@, self@.id, translation_set()),
    {
        vec![
            SubGizmo::new(
                self.id,
                "txs",
                SubGizmoKind::Translation {
                    direction: GizmoDirection::View,
                    transform_kind: TransformKind::Plane,
                },
            ),
            SubGizmo::new(
                self.id,
                "tx",
                SubGizmoKind::Translation {
                    direction: GizmoDirection::X,
                    transform_kind: TransformKind::Axis,
                },
            ),
            SubGizmo::new(
                self.id,
                "ty",
                SubGizmoKind::Translation {
                    direction: GizmoDirection::Y,
                    transform_kind: TransformKind::Axis,
                },
            ),
            SubGizmo::new(
                self.id,
                "tz",
                SubGizmoKind::Translation {
                    direction: GizmoDirection::Z,
                    transform_kind: TransformKind::Axis,
                },
            ),
            SubGizmo::new(
                self.id,
                "tyz",
                SubGizmoKind::Translation {
                    direction: GizmoDirection::X,
                    transform_kind: TransformKind::Plane,
                },
            ),
            SubGizmo::new(
                self.id,
                "txz",
                SubGizmoKind::Translation {
                    direction: GizmoDirection::Y,
                    transform_kind: TransformKind::Plane,
                },
            ),
            SubGizmo::new(
                self.id,
                "txy",
                SubGizmoKind::Translation {
                    direction: GizmoDirection::Z,
                    transform_kind: TransformKind::Plane,
                },
            ),
        ]
    }

    /// Create subgizmos for scale
    pub fn new_scale(&self) -> (handles: Vec<SubGizmo>)
        ensures
            fresh(handles@, self@.id, scale_set()),
    {
        vec![
            SubGizmo::new(
                self.id,
                "txs",
                SubGizmoKind::Scale {
                    direction: GizmoDirection::View,
                    transform_kind: TransformKind::Plane,
                },
            ),
            SubGizmo::new(
                self.id,
                "sx",
                SubGizmoKind::Scale {
                    direction: GizmoDirection::X,
                    transform_kind: TransformKind::Axis,
                },
            ),
            SubGizmo::new(
                self.id,
                "sy",
                SubGizmoKind::Scale {
                    direction: GizmoDirection::Y,
                    transform_kind: TransformKind::Axis,
                },
            ),
            SubGizmo::new(
                self.id,
                "sz",
                SubGizmoKind::Scale {
                    direction: GizmoDirection::Z,
                    transform_kind: TransformKind::Axis,
                },
            ),
            SubGizmo::new(
                self.id,
                "syz",
                SubGizmoKind::Scale {
                    direction: GizmoDirection::X,
                    transform_kind: TransformKind::Plane,
                },
            ),
            SubGizmo::new(
                self.id,
                "sxz",
                SubGizmoKind::Scale {
                    direction: GizmoDirection::Y,
                    transform_kind: TransformKind::Plane,
                },
            ),
            SubGizmo::new(
                self.id,
                "sxy",
                SubGizmoKind::Scale {
                    direction: GizmoDirection::Z,
                    transform_kind: TransformKind::Plane,
                },
            ),
        ]
    }

    /// Add given subgizmos to this gizmo
    pub fn add_subgizmos(&mut self, subgizmos: Vec<SubGizmo>)
        ensures
            final(self)@ == (GizmoView {
                handles: old(self)@.handles + subgizmos@,
                ..old(self)@
            }),
    {
        let mut subgizmos = subgizmos;
        self.subgizmos.append(&mut subgizmos);
    }

    /// Makes the gizmo ready for a frame: prepares the configuration and lays
    /// out the handles of the mode afresh.
    pub fn prepare(&mut self, clip_rect: Viewport)
        ensures
            final(self)@.id == old(self)@.id,
            final(self)@.config == old(self)@.config.prepared(clip_rect),
            fresh(final(self)@.handles, old(self)@.id, offered(old(self)@.config.mode)),
    {
        self.config.prepare(clip_rect);
        self.subgizmos = Vec::new();
        // Choose subgizmos based on the gizmo mode
        match self.config.mode {
            GizmoMode::Rotate => {
                let rotation = self.new_rotation();
                let arcball = self.new_arcball();
                self.add_subgizmos(rotation);
                self.add_subgizmos(arcball);
            },
            GizmoMode::Translate => {
                let translation = self.new_translation();
                self.add_subgizmos(translation);
            },
            GizmoMode::Scale => {
                let scale = self.new_scale();
                self.add_subgizmos(scale);
            },
        }
    }

    /// Picks the subgizmo that is closest to the mouse pointer: its index
    /// among the handles and the distance at which it is hit.
    pub fn pick_subgizmo(&self, hits: &Vec<Option<Scalar>>) -> (nearest_hit: Option<
        (usize, Scalar),
    >)
        ensures
            nearest_hit.is_some() == nearest(
                first_hits(hits@, self@.handles.len() as int),
            ).is_some(),
            nearest_hit matches Some((i, d)) ==> nearest(
                first_hits(hits@, self@.handles.len() as int),
            ) == Some(i as int) && i < self@.handles.len() && i < hits@.len() && hits@[i as int]
                == Some(d),
    {
        pick_among(hits, self.subgizmos.len())
    }

    /// Whether a press of the primary button in this frame would start a
    /// drag: nothing is being dragged and the pointer picks a handle. Only
    /// then does the host ask whether a drag began.
    pub fn awaits_press(&self, state: &GizmoState, hits: &Vec<Option<Scalar>>) -> (awaited: bool)
        ensures
            awaited == (state.active_subgizmo_id is None && nearest(
                first_hits(hits@, self@.handles.len() as int),
            ) is Some),
    {
        state.active_subgizmo_id.is_none() && self.pick_subgizmo(hits).is_some()
    }

    /// The first handle with the identity `id`.
    pub fn find_subgizmo(&self, id: Id) -> (found: Option<usize>)
        ensures
            index(found) == find(self@.handles, id),
            found matches Some(i) ==> i < self@.handles.len(),
    {
        let mut k: usize = 0;
        while k < self.subgizmos.len()
            invariant
                k <= self.subgizmos.len(),
                find(self.subgizmos@.take(k as int), id) is None,
            decreases self.subgizmos.len() - k,
        {
            proof {
                let next = self.subgizmos@.take(k + 1);
                assert(next.drop_last() =~= self.subgizmos@.take(k as int));
                lemma_find_prefix(self.subgizmos@, id, k + 1);
            }
            if same_id(self.subgizmos[k].id, id) {
                return Some(k);
            }
            k = k + 1;
        }
        proof {
            assert(self.subgizmos@.take(k as int) =~= self.subgizmos@);
        }
        None
    }

    /// Whether no two handles of the gizmo share an identity. Identities are
    /// hashes, so that two names share one cannot be ruled out beforehand; a
    /// host that wants to be sure asks.
    pub fn has_distinct_identities(&self) -> (all_differ: bool)
        ensures
            all_differ == distinct(self@.handles),
    {
        let mut k: usize = 0;
        while k < self.subgizmos.len()
            invariant
                k <= self.subgizmos.len(),
                forall|a: int, b: int|
                    0 <= a < b < k ==> self.subgizmos@[a].id != self.subgizmos@[b].id,
            decreases self.subgizmos.len() - k,
        {
            proof {
                lemma_find_is_first(self.subgizmos@, self.subgizmos@[k as int].id);
            }
            match self.find_subgizmo(self.subgizmos[k].id) {
                Some(first) => {
                    if first != k {
                        return false;
                    }
                },
                None => {},
            }
            k = k + 1;
        }
        true
    }

    fn mark(&mut self, picked: Option<usize>, target: Option<usize>)
        requires
            picked matches Some(i) ==> i < old(self)@.handles.len(),
            target matches Some(i) ==> i < old(self)@.handles.len(),
        ensures
            final(self)@ == (GizmoView {
                handles: marked(old(self)@.handles, index(picked), index(target)),
                ..old(self)@
            }),
    {
        let ghost before = self.subgizmos@;
        let mut handles: Vec<SubGizmo> = Vec::new();
        let mut k: usize = 0;
        while k < self.subgizmos.len()
            invariant
                k <= self.subgizmos.len(),
                self.subgizmos@ == before,
                handles@ =~= marked(before, index(picked), index(target)).take(k as int),
            decreases self.subgizmos.len() - k,
        {
            let mut handle = self.subgizmos[k];
            let is_picked = match picked {
                Some(i) => i == k,
                None => false,
            };
            let is_target = match target {
                Some(i) => i == k,
                None => false,
            };
            handle.set_focused(is_picked || is_target);
            handle.set_active(is_target);
            handles.push(handle);
            k = k + 1;
        }
        proof {
            let all = marked(before, index(picked), index(target));
            assert(all.take(k as int) =~= all);
        }
        self.subgizmos = handles;
    }

    /// Runs the gizmo for a frame, given what the host saw of the pointer.
    /// Updates the state from before the frame to the state after it, marks
    /// the handles, and returns the handle to update with the pointer's
    /// motion: the one that is being dragged, if any.
    pub fn interact(&mut self, state: &mut GizmoState, pointer: &Pointer) -> (dragged: Option<
        usize,
    >)
        ensures
            index(dragged) == target(old(self)@.handles, *old(state), *pointer),
            dragged matches Some(i) ==> i < old(self)@.handles.len(),
            *final(state) == next_state(old(self)@.handles, *old(state), *pointer),
            final(self)@ == (GizmoView {
                handles: marked(
                    old(self)@.handles,
                    picked(old(self)@.handles, *old(state), *pointer),
                    target(old(self)@.handles, *old(state), *pointer),
                ),
                ..old(self)@
            }),
    {
        let mut focused: Option<usize> = None;
        let mut dragged: Option<usize> = None;
        match pointer {
            Pointer::Away => {},
            Pointer::Hovering { hits, pressed, held } => {
                // If there is no active subgizmo, find which one of them
                // is under the mouse pointer, if any.
                if state.active_subgizmo_id.is_none() {
                    if let Some((i, _)) = self.pick_subgizmo(hits) {
                        focused = Some(i);
                        if *pressed {
                            state.active_subgizmo_id = Some(self.subgizmos[i].id);
                        }
                    }
                }
                if *held {
                    if let Some(id) = state.active_subgizmo_id {
                        dragged = self.find_subgizmo(id);
                    }
                } else {
                    state.active_subgizmo_id = None;
                }
            },
        }
        self.mark(focused, dragged);
        dragged
    }

    /// The handles to draw, in order: every handle while the gizmo is idle,
    /// and only the active one during a drag.
    pub fn draw_subgizmos(&self, state: &GizmoState) -> (shown: Vec<usize>)
        ensures
            forall|a: int, b: int| 0 <= a < b < shown@.len() ==> shown@[a] < shown@[b],
            forall|i: usize| shown@.contains(i) <==> drawn(self@.handles, *state, i as int),
    {
        let mut shown: Vec<usize> = Vec::new();
        let mut k: usize = 0;
        while k < self.subgizmos.len()
            invariant
                k <= self.subgizmos.len(),
                forall|a: int, b: int| 0 <= a < b < shown@.len() ==> shown@[a] < shown@[b],
                forall|a: int| 0 <= a < shown@.len() ==> shown@[a] < k,
                forall|a: int|
                    0 <= a < shown@.len() ==> drawn(self.subgizmos@, *state, shown@[a] as int),
                forall|i: usize|
                    i < k && drawn(self.subgizmos@, *state, i as int) ==> shown@.contains(i),
            decreases self.subgizmos.len() - k,
        {
            if state.active_subgizmo_id.is_none() || self.subgizmos[k].is_active() {
                let ghost before = shown@;
                shown.push(k);
                proof {
                    assert(shown@[before.len() as int] == k);
                    assert forall|i: usize|
                        i < k + 1 && drawn(self.subgizmos@, *state, i as int) implies shown@.contains(
                        i,
                    ) by {
                        if i < k {
                            assert(before.contains(i));
                            let a = choose|a: int| 0 <= a < before.len() && before[a] == i;
                            assert(shown@[a] == i);
                        }
                    }
                }
            }
            k = k + 1;
        }
        proof {
            assert forall|i: usize| shown@.contains(i) implies drawn(
                self@.handles,
                *state,
                i as int,
            ) by {
                let a = choose|a: int| 0 <= a < shown@.len() && shown@[a] == i;
                assert(drawn(self.subgizmos@, *state, shown@[a] as int));
            }
        }
        shown
    }
}

} // verus!
