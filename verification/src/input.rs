//! Pointer state shared with the rest of the session: the cursor's last
//! reported position and whether the pointer hovers the overlay.

use vstd::prelude::*;
use crate::fixed::Vec2Fx;

verus! {

/// Whether the pointer currently hovers an overlay window.
#[derive(Clone, Copy, Debug, Default, PartialEq, Eq, Structural)]
pub struct OverUI(pub bool);

/// The pointer's last reported position, in fixed-point screen units.
#[derive(Clone, Copy, Debug, Default, PartialEq, Eq, Structural)]
pub struct CursorPosition {
    pub position: Vec2Fx,
}

/// Take the newest of a tick's pointer motions, if any arrived.
pub fn update_cursor_position(pos: &mut CursorPosition, motions: &Vec<Vec2Fx>)
    ensures
        motions@.len() > 0 ==> final(pos).position == motions@.last(),
        motions@.len() == 0 ==> *final(pos) == *old(pos),
{
    if motions.len() > 0 {
        pos.position = motions[motions.len() - 1];
    }
}

/// Record whether the pointer hovers the overlay this tick.
pub fn update_over_ui(flag: &mut OverUI, over: bool)
    ensures
        final(flag).0 == over,
{
    flag.0 = over;
}

/// Whether world picking runs this tick: it pauses under the overlay,
/// except while a grabbed token is still in flight.
pub fn update_picking(over_ui: &OverUI, any_moving: bool) -> (enabled: bool)
    ensures
        enabled == (!over_ui.0 || any_moving),
{
    !over_ui.0 || any_moving
}

} // verus!
