//! Blinky heads straight for the player.

use vstd::prelude::*;
use crate::grid::GridLocation;

verus! {

/// Blinky's name.
pub const NAME: &'static str = "Blinky";

/// The corner that Blinky retreats to: top right.
pub open spec fn spec_scatter() -> GridLocation {
    GridLocation { x: 25, y: 35 }
}

/// The corner that Blinky retreats to.
pub fn scatter() -> (r: GridLocation)
    ensures
        r == spec_scatter(),
{
    GridLocation { x: 25, y: 35 }
}

/// Blinky's target in chase mode: the player's tile.
pub open spec fn spec_chase(player: GridLocation) -> GridLocation {
    player
}

/// Blinky's target in chase mode.
pub fn chase(player: GridLocation) -> (r: GridLocation)
    ensures
        r == spec_chase(player),
{
    player
}

} // verus!
