//! The player: steering, lives, and death by ghost.

use vstd::prelude::*;
use crate::ghost::GhostAgent;
use crate::grid::{Dir, GridLocation};
use crate::mode::FrightenedMode;

verus! {

/// The player's speed while no ghost is frightened, in thousandths of a
/// pixel per second.
pub const PLAYER_SPEED: u32 = 70_400;

/// The player's speed while the ghosts are frightened.
pub const PLAYER_SPEED_FRIGHTENED: u32 = 79_200;

/// The lives that a game starts with.
pub const START_LIVES: usize = 5;

/// The lives that the player has left.
#[derive(Copy, Clone, Debug, PartialEq, Eq, Structural)]
pub struct Lives(pub usize);

/// Which of the four direction keys are held down.
#[derive(Copy, Clone, Debug, PartialEq, Eq, Structural)]
pub struct Keys {
    pub left: bool,
    pub right: bool,
    pub down: bool,
    pub up: bool,
}

impl Lives {
    /// The lives at the start of a game.
    pub fn new() -> (r: Lives)
        ensures
            r.0 == START_LIVES,
    {
        Lives(START_LIVES)
    }
}

impl Default for Lives {
    /// The lives at the start of a game.
    fn default() -> (r: Lives)
        ensures
            r.0 == START_LIVES,
    {
        Lives(START_LIVES)
    }
}

/// The direction that the player wants to take next. A held key sets it;
/// of several held keys up counts before down, down before right, and
/// right before left. With no key held the wish stays.
pub open spec fn spec_player_controls(pending: Option<Dir>, keys: Keys) -> Option<Dir> {
    if keys.up {
        Some(Dir::Up)
    } else if keys.down {
        Some(Dir::Down)
    } else if keys.right {
        Some(Dir::Right)
    } else if keys.left {
        Some(Dir::Left)
    } else {
        pending
    }
}

/// The direction that the player wants to take next.
pub fn player_controls(pending: Option<Dir>, keys: &Keys) -> (r: Option<Dir>)
    ensures
        r == spec_player_controls(pending, *keys),
{
    let mut next = pending;
    if keys.left {
        next = Some(Dir::Left);
    }
    if keys.right {
        next = Some(Dir::Right);
    }
    if keys.down {
        next = Some(Dir::Down);
    }
    if keys.up {
        next = Some(Dir::Up);
    }
    next
}

/// Whether one of the first `n` ghosts takes part in the hunt and stands
/// on the tile `player`.
pub open spec fn touches_ghost(player: GridLocation, ghosts: Seq<GhostAgent>, n: int) -> bool {
    exists|i: int|
        0 <= i < n && (#[trigger] ghosts[i]).spec_is_active() && ghosts[i].actor.location == player
}

/// Whether the player, standing on `player`, dies: a ghost that takes part
/// in the hunt stands on the same tile.
pub fn die_when_touching_ghost(player: GridLocation, ghosts: &Vec<GhostAgent>) -> (dies: bool)
    ensures
        dies == touches_ghost(player, ghosts@, ghosts@.len() as int),
{
    let mut i: usize = 0;
    while i < ghosts.len()
        invariant
            i <= ghosts@.len(),
            !touches_ghost(player, ghosts@, i as int),
        decreases ghosts@.len() - i,
    {
        if ghosts[i].is_active() && ghosts[i].actor.location == player {
            return true;
        }
        i += 1;
    }
    false
}

/// Takes one life for each death; the last life is not counted below
/// zero.
pub fn lose_life_when_dying(deaths: usize, lives: &mut Lives)
    ensures
        final(lives).0 == if deaths >= old(lives).0 {
            0
        } else {
            old(lives).0 - deaths
        },
{
    lives.0 = if deaths >= lives.0 {
        0
    } else {
        lives.0 - deaths
    };
}

/// The player's speed: a little faster while the ghosts are frightened.
pub fn set_speed(mode: FrightenedMode) -> (speed: u32)
    ensures
        speed == match mode {
            FrightenedMode::Enabled => PLAYER_SPEED_FRIGHTENED,
            FrightenedMode::Disabled => PLAYER_SPEED,
        },
{
    match mode {
        FrightenedMode::Enabled => PLAYER_SPEED_FRIGHTENED,
        FrightenedMode::Disabled => PLAYER_SPEED,
    }
}

} // verus!
