//! Per-frame input snapshot: cursor position, drag delta, click flags and
//! the currently selected scene-graph node.

use vstd::prelude::*;

verus! {

/// A two-component integer vector for cursor coordinates.
#[derive(Clone, Copy, PartialEq, Eq, Structural, Debug)]
pub struct Vec2i {
    pub x: i32,
    pub y: i32,
}

/// The per-frame input snapshot. `left_click` is edge-triggered and `drag`
/// is a per-frame delta: both are consumed-then-reset once per frame.
/// `left_down` is level state and `selected_node` persists until the
/// picking subsystem changes it.
pub struct Mouse {
    pub pos: Vec2i,
    pub prev: Vec2i,
    pub drag: Vec2i,
    pub left_click: bool,
    pub left_down: bool,
    pub selected_node: Option<u32>,
}

/// The state `reset` leaves behind: click flag cleared, drag delta zeroed,
/// everything else untouched.
pub open spec fn spec_reset(m: Mouse) -> Mouse {
    Mouse { left_click: false, drag: Vec2i { x: 0, y: 0 }, ..m }
}

/// Resetting twice without new host events is the same as resetting once:
/// the drag delta stays zero, the click flag stays cleared, and the
/// selected node is unchanged by either reset.
pub proof fn lemma_reset_idempotent(m: Mouse)
    ensures
        spec_reset(spec_reset(m)) == spec_reset(m),
        spec_reset(m).drag == (Vec2i { x: 0, y: 0 }),
        !spec_reset(m).left_click,
        spec_reset(m).selected_node == m.selected_node,
{
}

impl Mouse {
    /// A fresh input snapshot: at the origin, no buttons, nothing selected.
    pub fn new() -> (r: Mouse)
        ensures
            r.pos == (Vec2i { x: 0, y: 0 }),
            r.prev == (Vec2i { x: 0, y: 0 }),
            r.drag == (Vec2i { x: 0, y: 0 }),
            !r.left_click,
            !r.left_down,
            r.selected_node is None,
    {
        Mouse {
            pos: Vec2i { x: 0, y: 0 },
            prev: Vec2i { x: 0, y: 0 },
            drag: Vec2i { x: 0, y: 0 },
            left_click: false,
            left_down: false,
            selected_node: None,
        }
    }

    /// Per-frame reset, run after the frame has consumed the input: clears
    /// the edge-triggered click flag and the drag delta, and leaves the
    /// cursor position, the held flag and the selected node alone.
    pub fn reset(&mut self)
        ensures
            *final(self) == spec_reset(*old(self)),
    {
        self.left_click = false;
        self.drag.x = 0;
        self.drag.y = 0;
    }
}

} // verus!
