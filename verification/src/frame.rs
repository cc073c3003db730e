//! What a frame does: the state of a drag, and the step from the state
//! before a frame and what the host saw of the pointer to the state after it.
//!
//! A gizmo is idle or one of its handles is being dragged. A drag starts
//! where the primary button begins a drag while the pointer picks a handle,
//! goes on while the button is down, and ends when the button is up. The
//! handle that is being dragged cannot lose the drag to another.

use crate::pick::{first_hits, lemma_nearest_is_a_hit, nearest};
use crate::scalar::Scalar;
use crate::handles::arranged;
use crate::subgizmo::{SubGizmo, SubGizmoKind};
use egui::Id;
use vstd::prelude::*;

verus! {

/// Gizmo state that is saved between frames: the handle that is being
/// dragged, if any. With none the gizmo is idle.
#[derive(Debug, Copy, Clone, PartialEq, Eq)]
pub struct GizmoState {
    pub active_subgizmo_id: Option<Id>,
}

impl GizmoState {
    /// The state of a gizmo that is not being dragged.
    pub open spec fn idle() -> GizmoState {
        GizmoState { active_subgizmo_id: None }
    }

    /// The state of a gizmo whose handle `id` is being dragged.
    pub open spec fn dragging(id: Id) -> GizmoState {
        GizmoState { active_subgizmo_id: Some(id) }
    }

    /// Whether nothing is being dragged. Only then does the pointer pick.
    pub fn is_idle(&self) -> (idle: bool)
        ensures
            idle == (*self == GizmoState::idle()),
    {
        self.active_subgizmo_id.is_none()
    }
}

impl Default for GizmoState {
    fn default() -> (state: Self)
        ensures
            state == GizmoState::idle(),
    {
        GizmoState { active_subgizmo_id: None }
    }
}

/// What the host saw of the pointer in a frame.
#[derive(Debug)]
pub enum Pointer {
    /// The pointer is nowhere over the host's surface, so there is no ray.
    Away,
    /// The pointer is over the surface.
    Hovering {
        /// For each handle, in the order of the gizmo's handles, the distance
        /// along the pointer ray at which the handle is hit, if it is hit.
        /// Handles beyond the end of the list are not hit.
        hits: Vec<Option<Scalar>>,
        /// Whether a drag with the primary button began in this frame. Only
        /// read where [`crate::gizmo::Gizmo::awaits_press`] holds.
        pressed: bool,
        /// Whether the primary button is down.
        held: bool,
    },
}

/// The first of the handles that has the identity `id`.
pub open spec fn find(handles: Seq<SubGizmo>, id: Id) -> Option<int>
    decreases handles.len(),
{
    if handles.len() == 0 {
        None
    } else {
        match find(handles.drop_last(), id) {
            Some(i) => Some(i),
            None => if handles.last().id == id {
                Some(handles.len() - 1)
            } else {
                None
            },
        }
    }
}

/// The handle that the pointer picks in a frame: the nearest of those it
/// hits, where it hovers and nothing is being dragged.
pub open spec fn picked(handles: Seq<SubGizmo>, state: GizmoState, pointer: Pointer) -> Option<
    int,
> {
    match pointer {
        Pointer::Away => None,
        Pointer::Hovering { hits, .. } => if state.active_subgizmo_id is None {
            nearest(first_hits(hits@, handles.len() as int))
        } else {
            None
        },
    }
}

/// The handle that the state names once a press in this frame is taken into
/// account: a press on the picked handle names it, and otherwise the name
/// stays what it was.
pub open spec fn engaged(handles: Seq<SubGizmo>, state: GizmoState, pointer: Pointer) -> Option<
    Id,
> {
    match (pointer, picked(handles, state, pointer)) {
        (Pointer::Hovering { pressed: true, .. }, Some(i)) => Some(handles[i].id),
        _ => state.active_subgizmo_id,
    }
}

/// The handle to update in a frame: the first handle with the engaged
/// identity, where the pointer hovers and the primary button is down.
pub open spec fn target(handles: Seq<SubGizmo>, state: GizmoState, pointer: Pointer) -> Option<
    int,
> {
    match (pointer, engaged(handles, state, pointer)) {
        (Pointer::Hovering { held: true, .. }, Some(id)) => find(handles, id),
        _ => None,
    }
}

/// The state after a frame. With the pointer away it is the state before.
/// With the pointer hovering it names the engaged handle while the primary
/// button is down, and the gizmo is idle once the button is up.
pub open spec fn next_state(handles: Seq<SubGizmo>, state: GizmoState, pointer: Pointer)
    -> GizmoState {
    match pointer {
        Pointer::Away => state,
        Pointer::Hovering { held: true, .. } => GizmoState {
            active_subgizmo_id: engaged(handles, state, pointer),
        },
        Pointer::Hovering { held: false, .. } => GizmoState::idle(),
    }
}

/// The handles with their marks set for a frame: the picked handle and the
/// target are focused, the target is active, and no other handle is either.
pub open spec fn marked(handles: Seq<SubGizmo>, picked: Option<int>, target: Option<int>) -> Seq<
    SubGizmo,
> {
    Seq::new(
        handles.len(),
        |i: int|
            SubGizmo {
                focused: picked == Some(i) || target == Some(i),
                active: target == Some(i),
                ..handles[i]
            },
    )
}

/// Whether handle `i` is drawn: every handle while the gizmo is idle, and
/// only the active one during a drag.
pub open spec fn drawn(handles: Seq<SubGizmo>, state: GizmoState, i: int) -> bool {
    0 <= i < handles.len() && (state.active_subgizmo_id is None || handles[i].active)
}

/// An index as the contracts count it.
pub open spec fn index(i: Option<usize>) -> Option<int> {
    match i {
        Some(i) => Some(i as int),
        None => None,
    }
}

/// Finding among the first `n` handles agrees with finding among all of them
/// as far as it goes: what is found early is found, and what is found lies
/// early or is not found early.
pub proof fn lemma_find_prefix(handles: Seq<SubGizmo>, id: Id, n: int)
    requires
        0 <= n <= handles.len(),
    ensures
        find(handles.take(n), id) matches Some(i) ==> find(handles, id) == Some(i),
        find(handles.take(n), id) is None ==> (find(handles, id) matches Some(i) ==> n <= i),
        find(handles.take(n), id) is None && n < handles.len() && handles[n].id == id ==> find(
            handles,
            id,
        ) == Some(n),
    decreases handles.len() - n,
{
    if n < handles.len() {
        let next = handles.take(n + 1);
        assert(next.drop_last() =~= handles.take(n));
        assert(next.last() == handles[n]);
        lemma_find_prefix(handles, id, n + 1);
        lemma_find_is_first(next, id);
    } else {
        assert(handles.take(n) =~= handles);
    }
}

/// What is found has the identity that was sought and is the first handle
/// that has it; nothing is found exactly where no handle has it.
pub proof fn lemma_find_is_first(handles: Seq<SubGizmo>, id: Id)
    ensures
        find(handles, id) matches Some(i) ==> 0 <= i < handles.len() && handles[i].id == id
            && forall|j: int| 0 <= j < i ==> handles[j].id != id,
        find(handles, id) is None <==> forall|j: int| 0 <= j < handles.len() ==> handles[j].id != id,
    decreases handles.len(),
{
    if handles.len() > 0 {
        let front = handles.drop_last();
        lemma_find_is_first(front, id);
        assert(forall|j: int| 0 <= j < front.len() ==> front[j] == handles[j]);
        if find(handles, id) is None {
            assert forall|j: int| 0 <= j < handles.len() implies handles[j].id != id by {
                if j < front.len() {
                    assert(front[j].id != id);
                }
            }
        } else {
            let i = find(handles, id).unwrap();
            assert(handles[i].id == id);
        }
    }
}

/// Whether no two of the handles share an identity.
pub open spec fn distinct(handles: Seq<SubGizmo>) -> bool {
    forall|a: int, b: int| 0 <= a < b < handles.len() ==> handles[a].id != handles[b].id
}

/// With the pointer away there is no ray: nothing is picked, nothing is
/// updated, and the state stays what it was, idle or not.
pub proof fn lemma_away_changes_nothing(handles: Seq<SubGizmo>, state: GizmoState)
    ensures
        picked(handles, state, Pointer::Away) is None,
        target(handles, state, Pointer::Away) is None,
        next_state(handles, state, Pointer::Away) == state,
{
}

/// A press on the picked handle starts a drag of it. With the button still
/// down at the end of the frame the state names the handle, and the handle
/// to update is the first one with its identity, which is the picked handle
/// itself where identities are distinct. With the button up again the gizmo
/// is idle and nothing is updated.
pub proof fn lemma_press_starts_drag(handles: Seq<SubGizmo>, pointer: Pointer, i: int)
    requires
        pointer is Hovering,
        pointer->pressed,
        picked(handles, GizmoState::idle(), pointer) == Some(i),
    ensures
        0 <= i < handles.len(),
        pointer->held ==> {
            &&& next_state(handles, GizmoState::idle(), pointer) == GizmoState::dragging(
                handles[i].id,
            )
            &&& target(handles, GizmoState::idle(), pointer) matches Some(j) && 0 <= j <= i
                && handles[j].id == handles[i].id && (distinct(handles) ==> j == i)
        },
        !pointer->held ==> {
            &&& next_state(handles, GizmoState::idle(), pointer) == GizmoState::idle()
            &&& target(handles, GizmoState::idle(), pointer) is None
        },
{
    lemma_nearest_is_a_hit(first_hits(pointer->hits@, handles.len() as int));
    lemma_find_is_first(handles, handles[i].id);
}

/// An idle gizmo stays idle, and nothing is updated, unless a press falls on
/// a picked handle.
pub proof fn lemma_idle_without_press(handles: Seq<SubGizmo>, pointer: Pointer)
    requires
        pointer is Hovering ==> !pointer->pressed || picked(handles, GizmoState::idle(), pointer)
            is None,
    ensures
        next_state(handles, GizmoState::idle(), pointer) == GizmoState::idle(),
        target(handles, GizmoState::idle(), pointer) is None,
{
}

/// A drag goes on while the button is down: the state stays, whatever the
/// pointer hits and whether or not a new drag began, nothing is picked, and
/// the handle to update is the one that the state names.
pub proof fn lemma_drag_goes_on(handles: Seq<SubGizmo>, id: Id, pointer: Pointer)
    requires
        pointer is Hovering,
        pointer->held,
    ensures
        next_state(handles, GizmoState::dragging(id), pointer) == GizmoState::dragging(id),
        picked(handles, GizmoState::dragging(id), pointer) is None,
        target(handles, GizmoState::dragging(id), pointer) == find(handles, id),
{
}

/// A drag ends when the button is up: the gizmo is idle after the frame and
/// nothing is updated in it, wherever the pointer hovers.
pub proof fn lemma_release_ends_drag(handles: Seq<SubGizmo>, id: Id, pointer: Pointer)
    requires
        pointer is Hovering,
        !pointer->held,
    ensures
        next_state(handles, GizmoState::dragging(id), pointer) == GizmoState::idle(),
        target(handles, GizmoState::dragging(id), pointer) is None,
{
}

/// There are no other steps. After a frame the gizmo is idle, or in the state
/// in which the frame began, or it was idle and a press on the picked handle
/// started a drag of that handle.
pub proof fn lemma_steps(handles: Seq<SubGizmo>, state: GizmoState, pointer: Pointer)
    ensures
        ({
            let after = next_state(handles, state, pointer);
            ||| after == GizmoState::idle()
            ||| after == state
            ||| {
                &&& state == GizmoState::idle()
                &&& pointer is Hovering
                &&& pointer->pressed
                &&& picked(handles, state, pointer) matches Some(i) && after
                    == GizmoState::dragging(handles[i].id)
            }
        }),
{
}

/// The handle that is updated is the one that the state names after the
/// frame, and it is the first handle with that identity.
pub proof fn lemma_target_is_the_dragged(
    handles: Seq<SubGizmo>,
    state: GizmoState,
    pointer: Pointer,
    j: int,
)
    requires
        target(handles, state, pointer) == Some(j),
    ensures
        0 <= j < handles.len(),
        next_state(handles, state, pointer) == GizmoState::dragging(handles[j].id),
        forall|k: int| 0 <= k < j ==> handles[k].id != handles[j].id,
{
    let id = engaged(handles, state, pointer).unwrap();
    lemma_find_is_first(handles, id);
}

/// After a frame at most one handle is active, the target, and the focused
/// handles are the picked one and the target. Where both exist they share an
/// identity, and they are one handle where identities are distinct: only one
/// handle is ever focused.
pub proof fn lemma_marks(handles: Seq<SubGizmo>, state: GizmoState, pointer: Pointer)
    ensures
        ({
            let p = picked(handles, state, pointer);
            let t = target(handles, state, pointer);
            let after = marked(handles, p, t);
            &&& after.len() == handles.len()
            &&& forall|i: int|
                0 <= i < handles.len() ==> ((#[trigger] after[i]).active <==> t == Some(i))
            &&& forall|i: int|
                0 <= i < handles.len() ==> ((#[trigger] after[i]).focused <==> p == Some(i) || t
                    == Some(i))
            &&& forall|i: int|
                0 <= i < handles.len() ==> (#[trigger] after[i]).id == handles[i].id && after[i].kind
                    == handles[i].kind && after[i].name == handles[i].name
            &&& forall|i: int, j: int|
                p == Some(i) && t == Some(j) ==> 0 <= j <= i < handles.len() && handles[i].id
                    == handles[j].id && (distinct(handles) ==> i == j)
        }),
{
    let p = picked(handles, state, pointer);
    let t = target(handles, state, pointer);
    if let (Some(i), Some(j)) = (p, t) {
        lemma_nearest_is_a_hit(first_hits(pointer->hits@, handles.len() as int));
        lemma_find_is_first(handles, handles[i].id);
    }
}

/// What is drawn after a frame: every handle where the gizmo is idle, and
/// during a drag the dragged handle alone, or nothing where no handle is
/// updated.
pub proof fn lemma_drawn_after_frame(
    handles: Seq<SubGizmo>,
    state: GizmoState,
    pointer: Pointer,
    i: int,
)
    requires
        0 <= i < handles.len(),
    ensures
        ({
            let after = next_state(handles, state, pointer);
            let t = target(handles, state, pointer);
            let shown = drawn(marked(handles, picked(handles, state, pointer), t), after, i);
            &&& after == GizmoState::idle() ==> shown
            &&& after != GizmoState::idle() ==> (shown <==> t == Some(i))
        }),
{
}

/// A press in one frame and a release in the next: the press starts a drag
/// of the picked handle, and the release ends it and updates nothing,
/// whatever handles the gizmo has in the second frame.
pub proof fn lemma_press_then_release(
    handles: Seq<SubGizmo>,
    later: Seq<SubGizmo>,
    first: Pointer,
    second: Pointer,
    i: int,
)
    requires
        first is Hovering,
        first->pressed,
        first->held,
        picked(handles, GizmoState::idle(), first) == Some(i),
        second is Hovering,
        !second->held,
    ensures
        next_state(handles, GizmoState::idle(), first) == GizmoState::dragging(handles[i].id),
        next_state(later, next_state(handles, GizmoState::idle(), first), second)
            == GizmoState::idle(),
        target(later, next_state(handles, GizmoState::idle(), first), second) is None,
{
    lemma_press_starts_drag(handles, first, i);
    lemma_release_ends_drag(later, handles[i].id, second);
}

/// Marking changes the marks alone: the handles stay arranged as they were.
pub proof fn lemma_marking_keeps_the_arrangement(
    handles: Seq<SubGizmo>,
    parent: Id,
    set: Seq<(Seq<char>, SubGizmoKind)>,
    picked: Option<int>,
    target: Option<int>,
)
    requires
        arranged(handles, parent, set),
    ensures
        arranged(marked(handles, picked, target), parent, set),
{
}

/// A handle keeps its identity from frame to frame: where a gizmo lays out
/// the handles of one set in two frames, the handle that the state names
/// after the first is found in the second. What is found has that identity,
/// and is the same handle unless an earlier one shares the identity.
pub proof fn lemma_dragged_handle_is_found_again(
    handles: Seq<SubGizmo>,
    later: Seq<SubGizmo>,
    parent: Id,
    set: Seq<(Seq<char>, SubGizmoKind)>,
    i: int,
)
    requires
        arranged(handles, parent, set),
        arranged(later, parent, set),
        0 <= i < handles.len(),
    ensures
        later[i].id == handles[i].id,
        find(later, handles[i].id) matches Some(j) && 0 <= j <= i && later[j].id == handles[i].id
            && (distinct(later) ==> j == i),
{
    lemma_find_is_first(later, handles[i].id);
}

/// A drag that starts in one frame goes on in the next: a press on the
/// picked handle with the button held names the handle, and in the next
/// frame of the same gizmo, with the button still down, a handle with that
/// identity is updated and the state stays.
pub proof fn lemma_press_then_hold(
    handles: Seq<SubGizmo>,
    later: Seq<SubGizmo>,
    parent: Id,
    set: Seq<(Seq<char>, SubGizmoKind)>,
    first: Pointer,
    second: Pointer,
    i: int,
)
    requires
        arranged(handles, parent, set),
        arranged(later, parent, set),
        first is Hovering,
        first->pressed,
        first->held,
        picked(handles, GizmoState::idle(), first) == Some(i),
        second is Hovering,
        second->held,
    ensures
        ({
            let state = next_state(handles, GizmoState::idle(), first);
            &&& state == GizmoState::dragging(handles[i].id)
            &&& next_state(later, state, second) == state
            &&& target(later, state, second) matches Some(j) && 0 <= j <= i && later[j].id
                == handles[i].id && (distinct(later) ==> j == i)
        }),
{
    lemma_press_starts_drag(handles, first, i);
    lemma_dragged_handle_is_found_again(handles, later, parent, set, i);
    lemma_drag_goes_on(later, handles[i].id, second);
}

} // verus!
