//! Setting up a level: what the maze's tiles bring into the game.

use vstd::prelude::*;
use vstd::arithmetic::div_mod::lemma_fundamental_div_mod_converse;
use crate::food::{Food, DOT_POINTS, ENERGIZER_POINTS};
use crate::ghost::{GhostAgent, Personality};
use crate::grid::GridLocation;
use crate::layout::{Layout, Tile, HEIGHT_TILES, TILE_COUNT, WIDTH_TILES};
use crate::movement::Actor;
use crate::player::PLAYER_SPEED;
use crate::stages::{all_roomy, blinky_among, inky_among, lemma_cast_decides_blinky, sees_blinky};

verus! {

/// Something that a tile brings into the game.
#[derive(Copy, Clone, Debug, PartialEq, Eq, Structural)]
pub struct Spawn {
    /// The tile's kind: food, the player, or a ghost.
    pub tile: Tile,
    /// Where the tile lies.
    pub location: GridLocation,
}

/// Why a maze cannot be played.
#[derive(Copy, Clone, Debug, PartialEq, Eq, Structural)]
pub enum LevelError {
    /// No tile starts the player.
    NoPlayer,
    /// More than one tile starts the player.
    SeveralPlayers,
    /// There is an Inky, who aims by Blinky's tile, but no Blinky.
    InkyWithoutBlinky,
    /// There is an Inky, and more than one Blinky to aim by.
    InkyWithSeveralBlinkys,
}

/// A level ready to be played.
pub struct Level {
    /// The player, at the start of a life.
    pub player: Actor,
    /// The ghosts, in the order of the plan.
    pub ghosts: Vec<GhostAgent>,
    /// The dots and energizers, in the order of the plan.
    pub foods: Vec<Food>,
}

/// Whether a tile brings something into the game: all but walls and doors
/// do.
pub open spec fn spawns(tile: Tile) -> bool {
    tile != Tile::Wall && tile != Tile::Door
}

/// The personality of the ghost that starts on a tile of kind `tile`.
pub open spec fn ghost_of(tile: Tile) -> Option<Personality> {
    match tile {
        Tile::Blinky => Some(Personality::Blinky),
        Tile::Pinky => Some(Personality::Pinky),
        Tile::Inky => Some(Personality::Inky),
        Tile::Clyde => Some(Personality::Clyde),
        _ => None,
    }
}

/// The food that lies on a tile of kind `tile` at `location`.
pub open spec fn food_of(tile: Tile, location: GridLocation) -> Option<Food> {
    match tile {
        Tile::Dot => Some(Food { location, points: DOT_POINTS, energizer: false }),
        Tile::Energizer => Some(Food { location, points: ENERGIZER_POINTS, energizer: true }),
        _ => None,
    }
}

/// The `k`-th tile in the order in which a level is set up: column by
/// column from the left, each column from the bottom.
pub open spec fn cell(k: int) -> GridLocation {
    GridLocation { x: (k / HEIGHT_TILES as int) as isize, y: (k % HEIGHT_TILES as int) as isize }
}

/// What the first `n` tiles of the maze bring into the game.
pub open spec fn plan(layout: Layout, n: int) -> Seq<Spawn>
    decreases n,
{
    if n <= 0 {
        Seq::empty()
    } else {
        match layout.spec_get(cell(n - 1)) {
            Some(tile) => if spawns(tile) {
                plan(layout, n - 1).push(Spawn { tile, location: cell(n - 1) })
            } else {
                plan(layout, n - 1)
            },
            None => plan(layout, n - 1),
        }
    }
}

/// How many of the first `n` entries of `spawns` are of kind `tile`.
pub open spec fn count(spawns: Seq<Spawn>, tile: Tile, n: int) -> int
    decreases n,
{
    if n <= 0 {
        0
    } else if spawns[n - 1].tile == tile {
        count(spawns, tile, n - 1) + 1
    } else {
        count(spawns, tile, n - 1)
    }
}

/// The ghosts among the first `n` entries of `spawns`, as they enter the
/// maze.
pub open spec fn ghosts_of(spawns: Seq<Spawn>, n: int) -> Seq<GhostAgent>
    decreases n,
{
    if n <= 0 {
        Seq::empty()
    } else {
        match ghost_of(spawns[n - 1].tile) {
            Some(personality) => ghosts_of(spawns, n - 1).push(
                spawned_ghost(personality, spawns[n - 1].location),
            ),
            None => ghosts_of(spawns, n - 1),
        }
    }
}

/// The ghost `personality` as it enters the maze on `location`.
pub open spec fn spawned_ghost(personality: Personality, location: GridLocation) -> GhostAgent {
    GhostAgent {
        personality,
        actor: Actor::spec_moving_left(location, crate::ghost::NORMAL_SPEED),
        target: Some(crate::ghost::no_target_yet()),
        scatter_target: personality.spec_scatter(),
        state: crate::ghost::GhostState::Normal,
        in_house: false,
    }
}

/// The foods among the first `n` entries of `spawns`.
pub open spec fn foods_of(spawns: Seq<Spawn>, n: int) -> Seq<Food>
    decreases n,
{
    if n <= 0 {
        Seq::empty()
    } else {
        match food_of(spawns[n - 1].tile, spawns[n - 1].location) {
            Some(food) => foods_of(spawns, n - 1).push(food),
            None => foods_of(spawns, n - 1),
        }
    }
}

/// The player's start among the first `n` entries of `spawns`: the last
/// tile of that kind.
pub open spec fn player_start(spawns: Seq<Spawn>, n: int) -> Option<GridLocation>
    decreases n,
{
    if n <= 0 {
        None
    } else if spawns[n - 1].tile == Tile::PacMan {
        Some(spawns[n - 1].location)
    } else {
        player_start(spawns, n - 1)
    }
}

/// Why the entries `spawns` make no level, if they make none.
pub open spec fn fault(spawns: Seq<Spawn>) -> Option<LevelError> {
    let n = spawns.len() as int;
    if count(spawns, Tile::PacMan, n) == 0 {
        Some(LevelError::NoPlayer)
    } else if count(spawns, Tile::PacMan, n) > 1 {
        Some(LevelError::SeveralPlayers)
    } else if count(spawns, Tile::Inky, n) > 0 && count(spawns, Tile::Blinky, n) == 0 {
        Some(LevelError::InkyWithoutBlinky)
    } else if count(spawns, Tile::Inky, n) > 0 && count(spawns, Tile::Blinky, n) > 1 {
        Some(LevelError::InkyWithSeveralBlinkys)
    } else {
        None
    }
}

/// Whether a tile brings something into the game.
fn tile_spawns(tile: Tile) -> (r: bool)
    ensures
        r == spawns(tile),
{
    match tile {
        Tile::Wall => false,
        Tile::Door => false,
        _ => true,
    }
}

/// What the maze brings into the game: its tiles are visited column by
/// column from the left, each column from the bottom, and each tile but
/// walls, doors and empty tiles gives one entry.
pub fn spawn_level_entities(layout: &Layout) -> (r: Vec<Spawn>)
    ensures
        r@ == plan(*layout, TILE_COUNT as int),
        forall|i: int| 0 <= i < r@.len() ==> (#[trigger] r@[i]).location.inside(),
{
    let mut out: Vec<Spawn> = Vec::new();
    let mut x: usize = 0;
    while x < WIDTH_TILES
        invariant
            x <= WIDTH_TILES,
            out@ == plan(*layout, x * HEIGHT_TILES),
            forall|i: int| 0 <= i < out@.len() ==> (#[trigger] out@[i]).location.inside(),
        decreases WIDTH_TILES - x,
    {
        let mut y: usize = 0;
        while y < HEIGHT_TILES
            invariant
                x < WIDTH_TILES,
                y <= HEIGHT_TILES,
                out@ == plan(*layout, x * HEIGHT_TILES + y),
                forall|i: int| 0 <= i < out@.len() ==> (#[trigger] out@[i]).location.inside(),
            decreases HEIGHT_TILES - y,
        {
            let loc = GridLocation { x: x as isize, y: y as isize };
            proof {
                lemma_fundamental_div_mod_converse(
                    x * HEIGHT_TILES + y,
                    HEIGHT_TILES as int,
                    x as int,
                    y as int,
                );
                assert(cell(x * HEIGHT_TILES + y) == loc);
            }
            match layout.get(&loc) {
                Some(tile) => {
                    if tile_spawns(tile) {
                        out.push(Spawn { tile, location: loc });
                    }
                },
                None => {},
            }
            y += 1;
        }
        x += 1;
    }
    out
}

/// How many of `spawns` are of kind `tile`.
fn count_of(spawns: &Vec<Spawn>, tile: Tile) -> (r: usize)
    ensures
        r == count(spawns@, tile, spawns@.len() as int),
{
    let mut found: usize = 0;
    let mut i: usize = 0;
    while i < spawns.len()
        invariant
            i <= spawns@.len(),
            found == count(spawns@, tile, i as int),
            found <= i,
        decreases spawns@.len() - i,
    {
        if spawns[i].tile == tile {
            found += 1;
        }
        i += 1;
    }
    found
}

/// The personality of the ghost that starts on a tile of kind `tile`.
fn personality_of(tile: Tile) -> (r: Option<Personality>)
    ensures
        r == ghost_of(tile),
{
    match tile {
        Tile::Blinky => Some(Personality::Blinky),
        Tile::Pinky => Some(Personality::Pinky),
        Tile::Inky => Some(Personality::Inky),
        Tile::Clyde => Some(Personality::Clyde),
        _ => None,
    }
}

/// Sets up a level from what the maze brings into the game. It needs
/// exactly one start tile for the player and, where there is an Inky,
/// exactly one Blinky. Dots and energizers become food, ghost tiles become
/// ghosts, and everyone starts a life gliding to the left.
pub fn create_level(spawns: &Vec<Spawn>) -> (r: Result<Level, LevelError>)
    requires
        forall|i: int| 0 <= i < spawns@.len() ==> (#[trigger] spawns@[i]).location.inside(),
    ensures
        match r {
            Ok(level) => {
                &&& fault(spawns@).is_none()
                &&& Some(level.player.location) == player_start(spawns@, spawns@.len() as int)
                &&& level.player == Actor::spec_moving_left(level.player.location, PLAYER_SPEED)
                &&& level.ghosts@ == ghosts_of(spawns@, spawns@.len() as int)
                &&& level.foods@ == foods_of(spawns@, spawns@.len() as int)
                &&& level.player.roomy()
                &&& all_roomy(level.ghosts@)
                &&& sees_blinky(level.ghosts@)
            },
            Err(e) => fault(spawns@) == Some(e),
        },
{
    let players = count_of(spawns, Tile::PacMan);
    if players == 0 {
        return Err(LevelError::NoPlayer);
    }
    if players > 1 {
        return Err(LevelError::SeveralPlayers);
    }
    if count_of(spawns, Tile::Inky) > 0 {
        let blinkys = count_of(spawns, Tile::Blinky);
        if blinkys == 0 {
            return Err(LevelError::InkyWithoutBlinky);
        }
        if blinkys > 1 {
            return Err(LevelError::InkyWithSeveralBlinkys);
        }
    }
    let mut start: Option<GridLocation> = None;
    let mut ghosts: Vec<GhostAgent> = Vec::new();
    let mut foods: Vec<Food> = Vec::new();
    let mut i: usize = 0;
    while i < spawns.len()
        invariant
            i <= spawns@.len(),
            forall|k: int| 0 <= k < spawns@.len() ==> (#[trigger] spawns@[k]).location.inside(),
            start == player_start(spawns@, i as int),
            count(spawns@, Tile::PacMan, i as int) >= 0,
            count(spawns@, Tile::Blinky, i as int) >= 0,
            count(spawns@, Tile::Inky, i as int) >= 0,
            start.is_none() <==> count(spawns@, Tile::PacMan, i as int) == 0,
            match start {
                Some(s) => s.inside(),
                None => true,
            },
            ghosts@ == ghosts_of(spawns@, i as int),
            foods@ == foods_of(spawns@, i as int),
            all_roomy(ghosts@),
            count(spawns@, Tile::Blinky, i as int) > 0 ==> blinky_among(
                ghosts@,
                ghosts@.len() as int,
            ).is_some(),
            inky_among(ghosts@, ghosts@.len() as int) ==> count(spawns@, Tile::Inky, i as int) > 0,
        decreases spawns@.len() - i,
    {
        let spawn = spawns[i];
        let ghost before = ghosts@;
        match spawn.tile {
            Tile::PacMan => {
                start = Some(spawn.location);
            },
            Tile::Dot => {
                foods.push(Food { location: spawn.location, points: DOT_POINTS, energizer: false });
            },
            Tile::Energizer => {
                foods.push(
                    Food { location: spawn.location, points: ENERGIZER_POINTS, energizer: true },
                );
            },
            _ => {
                match personality_of(spawn.tile) {
                    Some(personality) => {
                        ghosts.push(GhostAgent::spawn(personality, spawn.location));
                        proof {
                            lemma_cast_decides_blinky(before, ghosts@, before.len() as int);
                            assert forall|k: int|
                                0 <= k < ghosts@.len() && (#[trigger] ghosts@[k]).personality
                                    == Personality::Inky implies count(
                                spawns@,
                                Tile::Inky,
                                i as int + 1,
                            ) > 0 by {
                                if k < before.len() {
                                    assert(before[k].personality == Personality::Inky);
                                    assert(inky_among(before, before.len() as int));
                                }
                            }
                        }
                    },
                    None => {},
                }
            },
        }
        i += 1;
    }
    proof {
        assert forall|k: int|
            0 <= k < ghosts@.len() && (#[trigger] ghosts@[k]).personality
                == Personality::Inky implies blinky_among(ghosts@, ghosts@.len() as int).is_some() by {
            assert(inky_among(ghosts@, ghosts@.len() as int));
        }
    }
    match start {
        Some(location) => Ok(
            Level { player: Actor::moving_left(location, PLAYER_SPEED), ghosts, foods },
        ),
        None => Err(LevelError::NoPlayer),
    }
}

} // verus!
