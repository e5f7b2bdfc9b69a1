//! Pinky lies in wait ahead of the player.

use vstd::prelude::*;
use crate::grid::{Dir, GridLocation};

verus! {

/// Pinky's name.
pub const NAME: &'static str = "Pinky";

/// How many tiles ahead of the player Pinky aims.
pub const LEAD: isize = 4;

/// The corner that Pinky retreats to: top left.
pub open spec fn spec_scatter() -> GridLocation {
    GridLocation { x: 2, y: 35 }
}

/// The corner that Pinky retreats to.
pub fn scatter() -> (r: GridLocation)
    ensures
        r == spec_scatter(),
{
    GridLocation { x: 2, y: 35 }
}

/// Pinky's target in chase mode: four tiles ahead of the player, in the
/// direction the player faces.
pub open spec fn spec_chase(player: GridLocation, player_dir: Dir) -> GridLocation {
    player.spec_shift_by(player_dir, LEAD as int)
}

/// Pinky's target in chase mode.
pub fn chase(player: GridLocation, player_dir: Dir) -> (r: GridLocation)
    requires
        player.in_range(),
    ensures
        r == spec_chase(player, player_dir),
        r.x == player.x + 4 * crate::grid::dir_dx(player_dir),
        r.y == player.y + 4 * crate::grid::dir_dy(player_dir),
{
    player.shift_by(player_dir, LEAD)
}

} // verus!
