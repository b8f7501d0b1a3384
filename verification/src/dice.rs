//! The selector dice: a spinnable die preview whose spin velocity decays
//! smoothly once the pointer releases it.

use vstd::prelude::*;
use crate::fixed::{pow_frac_spec, Vec2Fx, FX_ONE};
use crate::fixed;

verus! {

/// A selector die, carrying its face count.
#[derive(Clone, Copy, Debug, PartialEq, Eq, Structural)]
pub struct DummyDice(pub u8);

/// The spin velocity of a selector die, in fixed-point units per tick.
#[derive(Clone, Copy, Debug, Default, PartialEq, Eq, Structural)]
pub struct SelectorDiceVelocity(pub Vec2Fx);

/// Marker for the camera that frames the selector dice.
#[derive(Clone, Copy, Debug, PartialEq, Eq, Structural)]
pub struct DiceCamera;

/// The share of the spin velocity surviving one simulation tick, as a
/// fraction of `FX_ONE`; tuned so that about a second of ticks shrinks
/// the spin to a fifth.
pub const DICE_SPIN_DECAY: i64 = 63800;

/// Decay the spin velocity of a selector die over `ticks` elapsed
/// simulation ticks: both components ease toward zero by the complement
/// of the surviving share, never overshooting and never growing.
pub fn update_velocity(velocity: &mut SelectorDiceVelocity, ticks: u32)
    requires
        old(velocity).0.bounded(),
    ensures
        final(velocity).0 == old(velocity).0.ease_vec_spec(
            Vec2Fx { x: 0, y: 0 },
            FX_ONE - pow_frac_spec(DICE_SPIN_DECAY as int, ticks as nat),
        ),
        final(velocity).0.bounded(),
{
    let alpha = fixed::decay_alpha(DICE_SPIN_DECAY, ticks);
    velocity.0 = velocity.0.ease_toward(Vec2Fx { x: 0, y: 0 }, alpha);
}

} // verus!
