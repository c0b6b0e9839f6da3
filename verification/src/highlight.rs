//! Highlight appliers: the two consumers of the notification stream, each
//! repainting the materials of the bodies the frame's notifications name.

use vstd::prelude::*;

use crate::body::BodyId;
use crate::selection::{DeselectionEvent, SelectionEvent};

verus! {

/// The base color of a body's material as this layer observes it. The host
/// maps `Selected` to its bright highlight constant and `Deselected` to its
/// neutral one; `Original` is whatever color the material was created with.
#[derive(Clone, Copy, PartialEq, Eq, Structural, Debug)]
pub enum BaseColor {
    Original,
    Selected,
    Deselected,
}

/// A body's material as the picking layer sees it: the identity the material
/// belongs to and its current base color. Bodies despawned by the host simply
/// have no entry.
#[derive(Clone, Copy, PartialEq, Eq, Structural, Debug)]
pub struct BodyMaterial {
    pub body: BodyId,
    pub base_color: BaseColor,
}

/// Whether some selection notification in the queue names this body.
pub open spec fn spec_selection_names(events: Seq<SelectionEvent>, id: BodyId) -> bool {
    exists|i: int| 0 <= i < events.len() && (#[trigger] events[i]).0 == id
}

/// Whether some deselection notification in the queue names this body.
pub open spec fn spec_deselection_names(events: Seq<DeselectionEvent>, id: BodyId) -> bool {
    exists|i: int| 0 <= i < events.len() && (#[trigger] events[i]).0 == id
}

/// Whether any selection notification in the queue names the given body.
fn selection_names(events: &Vec<SelectionEvent>, id: BodyId) -> (r: bool)
    ensures
        r == spec_selection_names(events@, id),
{
    let n = events.len();
    let mut i: usize = 0;
    while i < n
        invariant
            i <= n,
            n == events@.len(),
            forall|j: int| 0 <= j < i ==> (#[trigger] events@[j]).0 != id,
        decreases n - i,
    {
        if events[i].0 == id {
            return true;
        }
        i = i + 1;
    }
    false
}

/// Whether any deselection notification in the queue names the given body.
fn deselection_names(events: &Vec<DeselectionEvent>, id: BodyId) -> (r: bool)
    ensures
        r == spec_deselection_names(events@, id),
{
    let n = events.len();
    let mut i: usize = 0;
    while i < n
        invariant
            i <= n,
            n == events@.len(),
            forall|j: int| 0 <= j < i ==> (#[trigger] events@[j]).0 != id,
        decreases n - i,
    {
        if events[i].0 == id {
            return true;
        }
        i = i + 1;
    }
    false
}

/// Highlight applier for selections: every material whose body some selection
/// notification of this frame names turns `Selected`; every other material,
/// and every notification whose body has no material left (despawned the same
/// frame), is left alone.
pub fn select_current_body(materials: &mut Vec<BodyMaterial>, selection_events: &Vec<SelectionEvent>)
    ensures
        final(materials)@.len() == old(materials)@.len(),
        forall|i: int|
            0 <= i < old(materials)@.len() ==> final(materials)@[i] == ({
                let m = #[trigger] old(materials)@[i];
                if spec_selection_names(selection_events@, m.body) {
                    BodyMaterial { body: m.body, base_color: BaseColor::Selected }
                } else {
                    m
                }
            }),
{
    let n = materials.len();
    let mut i: usize = 0;
    while i < n
        invariant
            i <= n,
            n == materials@.len(),
            materials@.len() == old(materials)@.len(),
            forall|j: int| i <= j < n ==> materials@[j] == old(materials)@[j],
            forall|j: int|
                0 <= j < i ==> materials@[j] == ({
                    let m = #[trigger] old(materials)@[j];
                    if spec_selection_names(selection_events@, m.body) {
                        BodyMaterial { body: m.body, base_color: BaseColor::Selected }
                    } else {
                        m
                    }
                }),
        decreases n - i,
    {
        let m = materials[i];
        if selection_names(selection_events, m.body) {
            materials.set(i, BodyMaterial { body: m.body, base_color: BaseColor::Selected });
        }
        i = i + 1;
    }
}

/// Highlight applier for deselections: every material whose body some
/// deselection notification of this frame names turns `Deselected`; every
/// other material, and every notification whose body has no material left, is
/// left alone.
pub fn deselect_previous_body(
    materials: &mut Vec<BodyMaterial>,
    deselection_events: &Vec<DeselectionEvent>,
)
    ensures
        final(materials)@.len() == old(materials)@.len(),
        forall|i: int|
            0 <= i < old(materials)@.len() ==> final(materials)@[i] == ({
                let m = #[trigger] old(materials)@[i];
                if spec_deselection_names(deselection_events@, m.body) {
                    BodyMaterial { body: m.body, base_color: BaseColor::Deselected }
                } else {
                    m
                }
            }),
{
    let n = materials.len();
    let mut i: usize = 0;
    while i < n
        invariant
            i <= n,
            n == materials@.len(),
            materials@.len() == old(materials)@.len(),
            forall|j: int| i <= j < n ==> materials@[j] == old(materials)@[j],
            forall|j: int|
                0 <= j < i ==> materials@[j] == ({
                    let m = #[trigger] old(materials)@[j];
                    if spec_deselection_names(deselection_events@, m.body) {
                        BodyMaterial { body: m.body, base_color: BaseColor::Deselected }
                    } else {
                        m
                    }
                }),
        decreases n - i,
    {
        let m = materials[i];
        if deselection_names(deselection_events, m.body) {
            materials.set(i, BodyMaterial { body: m.body, base_color: BaseColor::Deselected });
        }
        i = i + 1;
    }
}

} // verus!
