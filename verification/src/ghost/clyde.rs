//! Clyde chases the player from afar and shies away when close.

use vstd::prelude::*;
use crate::grid::GridLocation;

verus! {

/// Clyde's name.
pub const NAME: &'static str = "Clyde";

/// The squared distance, in tiles, beyond which Clyde chases the player.
pub const SHYNESS: u128 = 64;

/// The corner that Clyde retreats to: bottom left.
pub open spec fn spec_scatter() -> GridLocation {
    GridLocation { x: 0, y: 0 }
}

/// The corner that Clyde retreats to.
pub fn scatter() -> (r: GridLocation)
    ensures
        r == spec_scatter(),
{
    GridLocation { x: 0, y: 0 }
}

/// Clyde's target in chase mode: the player's tile while Clyde is more
/// than eight tiles away from it, else Clyde's corner.
pub open spec fn spec_chase(clyde: GridLocation, player: GridLocation) -> GridLocation {
    if player.spec_distance_squared(clyde) > SHYNESS {
        player
    } else {
        spec_scatter()
    }
}

/// Clyde's target in chase mode.
pub fn chase(clyde: GridLocation, player: GridLocation) -> (r: GridLocation)
    requires
        clyde.portable(),
        player.portable(),
    ensures
        r == spec_chase(clyde, player),
{
    if player.distance_squared(&clyde) > SHYNESS {
        player
    } else {
        scatter()
    }
}

} // verus!
