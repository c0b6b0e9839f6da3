//! Cursor tracking: the most recent pointer movement of a frame becomes the
//! screen-space origin that raycasting casts from.

use vstd::prelude::*;

verus! {

/// A screen-space cursor position. The picking logic only forwards positions
/// from the input layer to the ray caster and never interprets them, so the
/// two coordinates are carried as the raw bit patterns of the host's 32-bit
/// floating-point values.
#[derive(Clone, Copy, PartialEq, Eq, Structural, Debug)]
pub struct ScreenPos {
    pub x_bits: u32,
    pub y_bits: u32,
}

/// One pointer-move notification from the host input layer.
#[derive(Clone, Copy, PartialEq, Eq, Structural, Debug)]
pub struct CursorMoved {
    pub position: ScreenPos,
}

/// How a raycast source casts its ray on the next frame.
#[derive(Clone, Copy, PartialEq, Eq, Structural, Debug)]
pub enum RaycastMethod {
    /// Cast from the source's own transform (its state before any pointer
    /// movement has been seen).
    Transform,
    /// Cast from a screen-space position.
    Screenspace(ScreenPos),
}

/// A raycast source: the camera-side half of picking, holding the method its
/// next cast will use.
#[derive(Clone, Copy, PartialEq, Eq, Structural, Debug)]
pub struct RaycastSource {
    pub cast_method: RaycastMethod,
}

impl RaycastSource {
    /// A fresh source, casting from its transform until a pointer moves.
    pub fn new() -> (s: RaycastSource)
        ensures
            s.cast_method == RaycastMethod::Transform,
    {
        RaycastSource { cast_method: RaycastMethod::Transform }
    }
}

/// The cursor tracker, run once per frame: if any pointer movement arrived
/// this frame, point every raycast source at the most recent position (the
/// last notification wins, earlier ones in the same frame are discarded);
/// otherwise leave every source unchanged, so casting continues from the last
/// known cursor position.
pub fn update_raycast_with_cursor(cursor: &Vec<CursorMoved>, sources: &mut Vec<RaycastSource>)
    ensures
        cursor@.len() == 0 ==> final(sources)@ == old(sources)@,
        cursor@.len() > 0 ==> {
            &&& final(sources)@.len() == old(sources)@.len()
            &&& forall|i: int|
                0 <= i < final(sources)@.len() ==> final(sources)@[i] == (RaycastSource {
                    cast_method: RaycastMethod::Screenspace(cursor@.last().position),
                })
        },
{
    if cursor.len() == 0 {
        return ;
    }
    let cursor_position = cursor[cursor.len() - 1].position;

    let n = sources.len();
    let mut i: usize = 0;
    while i < n
        invariant
            i <= n,
            n == sources@.len(),
            cursor@.len() > 0,
            cursor_position == cursor@.last().position,
            forall|j: int|
                0 <= j < i ==> sources@[j] == (RaycastSource {
                    cast_method: RaycastMethod::Screenspace(cursor_position),
                }),
        decreases n - i,
    {
        sources.set(i, RaycastSource { cast_method: RaycastMethod::Screenspace(cursor_position) });
        i = i + 1;
    }
}

} // verus!
