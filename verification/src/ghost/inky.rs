//! Inky aims past the player, as far beyond as Blinky is behind.

use vstd::prelude::*;
use crate::grid::{Dir, GridLocation, dir_dx, dir_dy};

verus! {

/// Inky's name.
pub const NAME: &'static str = "Inky";

/// How many tiles ahead of the player the point lies through which
/// Blinky's tile is mirrored.
pub const LEAD: isize = 2;

/// The corner that Inky retreats to: bottom right.
pub open spec fn spec_scatter() -> GridLocation {
    GridLocation { x: 27, y: 0 }
}

/// The corner that Inky retreats to.
pub fn scatter() -> (r: GridLocation)
    ensures
        r == spec_scatter(),
{
    GridLocation { x: 27, y: 0 }
}

/// Inky's target in chase mode: the mirror image of Blinky's tile through
/// the tile two steps ahead of the player.
pub open spec fn spec_chase(player: GridLocation, player_dir: Dir, blinky: GridLocation)
    -> GridLocation {
    GridLocation {
        x: (2 * (player.x + 2 * dir_dx(player_dir)) - blinky.x) as isize,
        y: (2 * (player.y + 2 * dir_dy(player_dir)) - blinky.y) as isize,
    }
}

/// Inky's target in chase mode.
pub fn chase(player: GridLocation, player_dir: Dir, blinky: GridLocation) -> (r: GridLocation)
    requires
        player.in_range(),
        blinky.in_range(),
    ensures
        r == spec_chase(player, player_dir, blinky),
        r.x == 2 * (player.x + 2 * dir_dx(player_dir)) - blinky.x,
        r.y == 2 * (player.y + 2 * dir_dy(player_dir)) - blinky.y,
        r.portable(),
{
    let ahead = player.shift_by(player_dir, LEAD);
    GridLocation { x: ahead.x + (ahead.x - blinky.x), y: ahead.y + (ahead.y - blinky.y) }
}

} // verus!
