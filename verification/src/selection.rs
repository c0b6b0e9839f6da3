//! The selection state machine: nearest-hit resolution, redirect indirection,
//! selection bookkeeping, and the notifications that drive highlighting.

use vstd::prelude::*;

use crate::body::BodyId;

verus! {

/// Marker naming the raycast group used for picking; bodies and the camera
/// source tagged with it take part in selection hit-testing.
pub struct SelectionRaycastSet;

/// Redirect entry carried by a pickable proxy: the identity of the logical
/// body the proxy stands for (an orbit ring redirecting to its planet, say).
/// A body without one represents itself.
#[derive(Clone, Copy, Debug)]
pub struct SelectionTargetRedirect(pub BodyId);

/// Notification that a body was just selected and should appear highlighted.
#[derive(Clone, Copy, PartialEq, Eq, Structural, Debug)]
pub struct SelectionEvent(pub BodyId);

/// Notification that a body was just deselected and should lose its highlight.
#[derive(Clone, Copy, PartialEq, Eq, Structural, Debug)]
pub struct DeselectionEvent(pub BodyId);

/// A body that raycasting may hit: its identity together with its optional
/// redirect entry, as the host scene exposes them.
#[derive(Clone, Copy, Debug)]
pub struct PickableBody {
    pub id: BodyId,
    pub redirect: Option<SelectionTargetRedirect>,
}

impl PickableBody {
    /// A pickable body carries a real identity, and its redirect entry, if
    /// any, names a real body.
    pub open spec fn wf(self) -> bool {
        &&& self.id.spec_valid()
        &&& (self.redirect matches Some(r) ==> r.0.spec_valid())
    }

    /// The identity this body resolves to for selection: its redirect target
    /// when it carries a redirect entry, its own identity otherwise.
    pub open spec fn spec_resolved(self) -> BodyId {
        match self.redirect {
            Some(r) => r.0,
            None => self.id,
        }
    }
}

/// The four slots of the selection bookkeeping. `current` is the ground truth
/// for "is anything selected"; the previous-slots are overwritten with the
/// just-selected body at the end of every selecting update, so between updates
/// they always equal the most recently selected body.
#[derive(Clone, Copy, PartialEq, Eq, Structural, Debug)]
pub struct SelectionState {
    pub current: BodyId,
    pub current_redirected: BodyId,
    pub previous: BodyId,
    pub previous_redirected: BodyId,
}

impl SelectionState {
    /// All four slots hold the sentinel: nothing is selected.
    pub open spec fn spec_all_invalid(self) -> bool {
        &&& !self.current.spec_valid()
        &&& !self.current_redirected.spec_valid()
        &&& !self.previous.spec_valid()
        &&& !self.previous_redirected.spec_valid()
    }

    /// The state with every slot invalid.
    pub open spec fn spec_cleared() -> SelectionState {
        SelectionState {
            current: BodyId::spec_invalid(),
            current_redirected: BodyId::spec_invalid(),
            previous: BodyId::spec_invalid(),
            previous_redirected: BodyId::spec_invalid(),
        }
    }

    /// Invariant at rest between updates: either nothing is selected (all
    /// four slots invalid), or `current` names the selected body, its
    /// redirect-resolved identity is recorded, and the previous-slots equal
    /// the just-selected pair.
    pub open spec fn wf(self) -> bool {
        ||| self == SelectionState::spec_cleared()
        ||| {
            &&& self.current.spec_valid()
            &&& self.current_redirected.spec_valid()
            &&& self.previous == self.current
            &&& self.previous_redirected == self.current_redirected
        }
    }

    /// The startup state: nothing selected.
    pub fn new() -> (s: SelectionState)
        ensures
            s == SelectionState::spec_cleared(),
            s.spec_all_invalid(),
            s.wf(),
    {
        SelectionState {
            current: BodyId::invalid(),
            current_redirected: BodyId::invalid(),
            previous: BodyId::invalid(),
            previous_redirected: BodyId::invalid(),
        }
    }
}

/// First body at or after position `i` whose identity is `id`, if any.
pub open spec fn spec_find_from(bodies: Seq<PickableBody>, id: BodyId, i: int) -> Option<PickableBody>
    decreases bodies.len() - i,
{
    if i < 0 || i >= bodies.len() {
        None
    } else if bodies[i].id == id {
        Some(bodies[i])
    } else {
        spec_find_from(bodies, id, i + 1)
    }
}

/// The body the nearest intersection lands on: the first entry of `bodies`
/// whose identity equals the hit identity, or nothing when there is no hit or
/// the hit identity is not pickable.
pub open spec fn spec_hit_body(bodies: Seq<PickableBody>, hit: Option<BodyId>) -> Option<PickableBody> {
    match hit {
        Some(h) => spec_find_from(bodies, h, 0),
        None => None,
    }
}

/// What one resolver run leaves behind: the updated state and the
/// notifications emitted, at most one of each kind per frame.
pub struct SelectionStep {
    pub state: SelectionState,
    pub selection: Option<BodyId>,
    pub deselection: Option<BodyId>,
}

/// One frame of the selection state machine: from the state at rest and the
/// nearest-hit body (already resolved against the pickable list), the state
/// after the update and the notifications emitted.
pub open spec fn spec_step(s: SelectionState, hit: Option<PickableBody>) -> SelectionStep {
    match hit {
        Some(b) => {
            if s.current == b.id {
                // Idempotent re-hover of the already selected body.
                SelectionStep { state: s, selection: None, deselection: None }
            } else {
                let r = b.spec_resolved();
                SelectionStep {
                    state: SelectionState {
                        current: b.id,
                        current_redirected: r,
                        previous: b.id,
                        previous_redirected: r,
                    },
                    selection: Some(b.id),
                    deselection: if s.previous.spec_valid() {
                        Some(s.previous)
                    } else {
                        None
                    },
                }
            }
        },
        None => {
            if s.current.spec_valid() {
                SelectionStep {
                    state: SelectionState::spec_cleared(),
                    selection: None,
                    deselection: Some(s.current),
                }
            } else {
                SelectionStep { state: s, selection: None, deselection: None }
            }
        },
    }
}

/// The selection event queue after appending a frame's emission, if any.
pub open spec fn spec_with_selection(q: Seq<SelectionEvent>, sel: Option<BodyId>) -> Seq<SelectionEvent> {
    match sel {
        Some(id) => q.push(SelectionEvent(id)),
        None => q,
    }
}

/// The deselection event queue after appending a frame's emission, if any.
pub open spec fn spec_with_deselection(q: Seq<DeselectionEvent>, des: Option<BodyId>) -> Seq<DeselectionEvent> {
    match des {
        Some(id) => q.push(DeselectionEvent(id)),
        None => q,
    }
}

/// The state left behind after a whole sequence of frames, each frame given
/// as its nearest-hit body.
pub open spec fn spec_run(s: SelectionState, frames: Seq<Option<PickableBody>>) -> SelectionState
    decreases frames.len(),
{
    if frames.len() == 0 {
        s
    } else {
        spec_run(spec_step(s, frames[0]).state, frames.skip(1))
    }
}

/// Exactly one active selection: one resolver step taken from a well-formed
/// state leaves a well-formed state — either no body is selected (all four
/// slots invalid) or exactly the body in `current` is, with its redirected
/// identity recorded beside it.
pub proof fn lemma_step_preserves_wf(s: SelectionState, hit: Option<PickableBody>)
    requires
        s.wf(),
        hit matches Some(b) ==> b.wf(),
    ensures
        spec_step(s, hit).state.wf(),
{
}

/// A search through a well-formed pickable list can only find a well-formed
/// body.
proof fn lemma_find_from_wf(bodies: Seq<PickableBody>, id: BodyId, i: int)
    requires
        forall|j: int| 0 <= j < bodies.len() ==> (#[trigger] bodies[j]).wf(),
    ensures
        spec_find_from(bodies, id, i) matches Some(b) ==> b.wf(),
    decreases bodies.len() - i,
{
    if 0 <= i < bodies.len() && bodies[i].id != id {
        lemma_find_from_wf(bodies, id, i + 1);
    }
}

/// Exactly one active selection, stated over the resolver's actual inputs:
/// one update on a well-formed pickable list, whatever the intersection,
/// preserves the invariant.
pub proof fn lemma_update_preserves_wf(
    s: SelectionState,
    bodies: Seq<PickableBody>,
    intersection: Option<BodyId>,
)
    requires
        s.wf(),
        forall|i: int| 0 <= i < bodies.len() ==> (#[trigger] bodies[i]).wf(),
    ensures
        spec_step(s, spec_hit_body(bodies, intersection)).state.wf(),
{
    match intersection {
        Some(h) => lemma_find_from_wf(bodies, h, 0),
        None => (),
    }
    lemma_step_preserves_wf(s, spec_hit_body(bodies, intersection));
}

/// Exactly one active selection, over any whole run: after any sequence of
/// updates on well-formed hits, the selection bookkeeping is still
/// well-formed, so at most one body is selected and `current` being valid is
/// exactly "some body is selected".
pub proof fn lemma_run_preserves_wf(s: SelectionState, frames: Seq<Option<PickableBody>>)
    requires
        s.wf(),
        forall|i: int| 0 <= i < frames.len() ==> (#[trigger] frames[i] matches Some(b) ==> b.wf()),
    ensures
        spec_run(s, frames).wf(),
    decreases frames.len(),
{
    if frames.len() > 0 {
        lemma_step_preserves_wf(s, frames[0]);
        let rest = frames.skip(1);
        assert forall|i: int| 0 <= i < rest.len() implies (#[trigger] rest[i] matches Some(b)
            ==> b.wf()) by {
            assert(rest[i] == frames[i + 1]);
        }
        lemma_run_preserves_wf(spec_step(s, frames[0]).state, rest);
    }
}

/// Idempotent hover: once a frame has been resolved, resolving the very same
/// frame again — same pickable list, same nearest intersection — changes
/// nothing and emits no notifications.
pub proof fn lemma_idempotent_hover(
    s: SelectionState,
    bodies: Seq<PickableBody>,
    intersection: Option<BodyId>,
)
    requires
        s.wf(),
        forall|i: int| 0 <= i < bodies.len() ==> (#[trigger] bodies[i]).wf(),
    ensures
        ({
            let once = spec_step(s, spec_hit_body(bodies, intersection));
            let again = spec_step(once.state, spec_hit_body(bodies, intersection));
            &&& again.state == once.state
            &&& again.selection is None
            &&& again.deselection is None
        }),
{
}

/// Deselect-on-miss: from a state with a selected body, a frame with no
/// intersection emits exactly one deselection — naming that body — no
/// selection, and resets every slot to invalid.
pub proof fn lemma_deselect_on_miss(s: SelectionState)
    requires
        s.wf(),
        s.current.spec_valid(),
    ensures
        ({
            let step = spec_step(s, None);
            &&& step.deselection == Some(s.current)
            &&& step.selection is None
            &&& step.state.spec_all_invalid()
        }),
{
}

/// Redirect resolution: a selecting transition records the body as `current`
/// and, as `current_redirected`, the redirect target when the body carries a
/// redirect entry and the body's own identity when it does not.
pub proof fn lemma_redirect_resolution(s: SelectionState, b: PickableBody)
    requires
        s.wf(),
        b.wf(),
        s.current != b.id,
    ensures
        ({
            let step = spec_step(s, Some(b));
            &&& step.state.current == b.id
            &&& (b.redirect matches Some(r) ==> step.state.current_redirected == r.0)
            &&& (b.redirect is None ==> step.state.current_redirected == b.id)
        }),
{
}

/// Notification pairing: transitioning directly from one selected body to a
/// different hit body — no intermediate miss frame — emits exactly one
/// selection naming the new body and exactly one deselection naming the old
/// one, within the same frame.
pub proof fn lemma_notification_pairing(s: SelectionState, b: PickableBody)
    requires
        s.wf(),
        s.current.spec_valid(),
        b.wf(),
        b.id != s.current,
    ensures
        ({
            let step = spec_step(s, Some(b));
            &&& step.selection == Some(b.id)
            &&& step.deselection == Some(s.current)
        }),
{
}

/// The selection resolver, run once per frame after raycasting. `intersection`
/// is the identity of the nearest-hit body, if any; `bodies` lists every
/// pickable body with its optional redirect entry. Updates the selection
/// bookkeeping and appends this frame's notifications to the two queues,
/// exactly as `spec_step` describes.
pub fn selection_raycast_update(
    bodies: &Vec<PickableBody>,
    intersection: Option<BodyId>,
    selected: &mut SelectionState,
    deselection_events: &mut Vec<DeselectionEvent>,
    selection_events: &mut Vec<SelectionEvent>,
)
    requires
        old(selected).wf(),
        forall|i: int| 0 <= i < bodies@.len() ==> (#[trigger] bodies@[i]).wf(),
    ensures
        ({
            let step = spec_step(*old(selected), spec_hit_body(bodies@, intersection));
            &&& *final(selected) == step.state
            &&& final(selection_events)@ == spec_with_selection(old(selection_events)@, step.selection)
            &&& final(deselection_events)@ == spec_with_deselection(
                old(deselection_events)@,
                step.deselection,
            )
        }),
        final(selected).wf(),
{
    let n = bodies.len();
    let mut i: usize = 0;
    while i < n
        invariant
            i <= n,
            n == bodies@.len(),
            *selected == *old(selected),
            selection_events@ == old(selection_events)@,
            deselection_events@ == old(deselection_events)@,
            old(selected).wf(),
            forall|j: int| 0 <= j < bodies@.len() ==> (#[trigger] bodies@[j]).wf(),
            intersection matches Some(h) ==> spec_find_from(bodies@, h, 0) == spec_find_from(
                bodies@,
                h,
                i as int,
            ),
        decreases n - i,
    {
        let entity = bodies[i].id;
        let hit_here = match intersection {
            Some(h) => h == entity,
            None => false,
        };
        if hit_here {
            if selected.current == entity {
                return ;
            }
            selection_events.push(SelectionEvent(entity));

            selected.current = entity;
            selected.current_redirected = match bodies[i].redirect {
                Some(SelectionTargetRedirect(t)) => t,
                None => entity,
            };
            if selected.previous.is_valid() {
                deselection_events.push(DeselectionEvent(selected.previous));
            }
            selected.previous_redirected = selected.current_redirected;
            selected.previous = selected.current;

            return ;
        }
        i = i + 1;
    }

    if selected.current.is_valid() {
        deselection_events.push(DeselectionEvent(selected.current));
        selected.current.invalidate();
        selected.previous.invalidate();
        selected.current_redirected.invalidate();
        selected.previous_redirected.invalidate();
    }
}

} // verus!
