//! The four ghosts: who they are, what they aim for, and how they change
//! between hunting, fleeing and returning home.

use vstd::prelude::*;
use crate::grid::{Dir, GridLocation};
use crate::layout::Layout;
use crate::mode::Mode;
use crate::movement::Actor;
use crate::steering::{
    choose_next_dir, chooses, closest_dir_to_target, frightened, is_closest, none_among, wanders,
};

pub mod blinky;
pub mod clyde;
pub mod inky;
pub mod pinky;

verus! {

/// Which of the four ghosts a ghost is.
#[derive(Copy, Clone, Debug, PartialEq, Eq, Structural, Hash)]
pub enum Personality {
    Blinky,
    Pinky,
    Inky,
    Clyde,
}

impl Default for Personality {
    /// Blinky.
    fn default() -> (r: Personality)
        ensures
            r == Personality::Blinky,
    {
        Personality::Blinky
    }
}

/// What a ghost needs to know of the world to pick its target.
#[derive(Copy, Clone, Debug, PartialEq, Eq, Structural)]
pub struct Snapshot {
    /// The player's tile.
    pub player: GridLocation,
    /// The direction the player faces.
    pub player_dir: Dir,
    /// Blinky's tile, if there is a Blinky.
    pub blinky: Option<GridLocation>,
}

impl Snapshot {
    /// Whether the tiles lie within the coordinate limit.
    pub open spec fn in_range(self) -> bool {
        &&& self.player.in_range()
        &&& match self.blinky {
            Some(blinky) => blinky.in_range(),
            None => true,
        }
    }

    /// Whether a ghost of the given personality finds in the snapshot what
    /// it aims by: Inky needs Blinky's tile.
    pub open spec fn serves(self, personality: Personality) -> bool {
        personality == Personality::Inky ==> self.blinky.is_some()
    }
}

impl Personality {
    /// The corner that the ghost retreats to in scatter mode.
    pub open spec fn spec_scatter(self) -> GridLocation {
        match self {
            Personality::Blinky => blinky::spec_scatter(),
            Personality::Pinky => pinky::spec_scatter(),
            Personality::Inky => inky::spec_scatter(),
            Personality::Clyde => clyde::spec_scatter(),
        }
    }

    /// The corner that the ghost retreats to in scatter mode.
    pub fn scatter(self) -> (r: GridLocation)
        ensures
            r == self.spec_scatter(),
            r.in_range(),
    {
        match self {
            Personality::Blinky => blinky::scatter(),
            Personality::Pinky => pinky::scatter(),
            Personality::Inky => inky::scatter(),
            Personality::Clyde => clyde::scatter(),
        }
    }

    /// The ghost's name.
    pub fn name(self) -> (r: &'static str)
        ensures
            r == match self {
                Personality::Blinky => blinky::NAME,
                Personality::Pinky => pinky::NAME,
                Personality::Inky => inky::NAME,
                Personality::Clyde => clyde::NAME,
            },
    {
        match self {
            Personality::Blinky => blinky::NAME,
            Personality::Pinky => pinky::NAME,
            Personality::Inky => inky::NAME,
            Personality::Clyde => clyde::NAME,
        }
    }

    /// The target in chase mode of the ghost standing on `ghost`.
    pub open spec fn spec_chase(self, ghost: GridLocation, world: Snapshot) -> GridLocation {
        match self {
            Personality::Blinky => blinky::spec_chase(world.player),
            Personality::Pinky => pinky::spec_chase(world.player, world.player_dir),
            Personality::Inky => inky::spec_chase(
                world.player,
                world.player_dir,
                world.blinky.unwrap(),
            ),
            Personality::Clyde => clyde::spec_chase(ghost, world.player),
        }
    }

    /// The target in chase mode of the ghost standing on `ghost`.
    pub fn chase(self, ghost: GridLocation, world: &Snapshot) -> (r: GridLocation)
        requires
            ghost.in_range(),
            world.in_range(),
            world.serves(self),
        ensures
            r == self.spec_chase(ghost, *world),
            r.portable(),
    {
        match self {
            Personality::Blinky => blinky::chase(world.player),
            Personality::Pinky => pinky::chase(world.player, world.player_dir),
            Personality::Inky => match world.blinky {
                Some(blinky) => inky::chase(world.player, world.player_dir, blinky),
                None => vstd::pervasive::unreached(),
            },
            Personality::Clyde => clyde::chase(ghost, world.player),
        }
    }
}

/// The target of a ghost that is neither frightened nor on its way home:
/// its corner in scatter mode, its own chase target in chase mode.
pub open spec fn spec_target_for(
    personality: Personality,
    mode: Mode,
    ghost: GridLocation,
    scatter_target: GridLocation,
    world: Snapshot,
) -> GridLocation {
    match mode {
        Mode::Scatter => scatter_target,
        Mode::Chase => personality.spec_chase(ghost, world),
    }
}

/// The target of a ghost that is neither frightened nor on its way home.
pub fn target_for(
    personality: Personality,
    mode: Mode,
    ghost: GridLocation,
    scatter_target: GridLocation,
    world: &Snapshot,
) -> (r: GridLocation)
    requires
        ghost.in_range(),
        world.in_range(),
        mode == Mode::Chase ==> world.serves(personality),
    ensures
        r == spec_target_for(personality, mode, ghost, scatter_target, *world),
        scatter_target.portable() ==> r.portable(),
{
    match mode {
        Mode::Scatter => scatter_target,
        Mode::Chase => personality.chase(ghost, world),
    }
}

/// What a ghost is doing.
#[derive(Copy, Clone, Debug, PartialEq, Eq, Structural)]
pub enum GhostState {
    /// Hunting or retreating, as the mode says.
    Normal,
    /// Fleeing at random; the player can eat the ghost.
    Frightened,
    /// Eaten, and on the way back to the start tile.
    Respawning,
}

/// A ghost's speed while hunting, in thousandths of a pixel per second.
pub const NORMAL_SPEED: u32 = 66_000;

/// A ghost's speed while frightened.
pub const FRIGHTENED_SPEED: u32 = 44_000;

/// A ghost's speed on its way home.
pub const RESPAWNING_SPEED: u32 = 176_000;

/// The points that eating a frightened ghost is worth.
pub const FRIGHTENED_POINTS: u32 = 200;

/// One ghost.
#[derive(Copy, Clone, Debug, PartialEq, Eq, Structural)]
pub struct GhostAgent {
    /// Which ghost it is.
    pub personality: Personality,
    /// Where it is and how it moves.
    pub actor: Actor,
    /// The tile it steers for; a frightened ghost has none.
    pub target: Option<GridLocation>,
    /// The corner it retreats to in scatter mode.
    pub scatter_target: GridLocation,
    /// What it is doing.
    pub state: GhostState,
    /// Whether it still waits in the ghost house.
    pub in_house: bool,
}

/// The target that a ghost holds before it has picked one.
pub open spec fn no_target_yet() -> GridLocation {
    GridLocation { x: 0, y: 0 }
}

impl GhostAgent {
    /// The ghost moves on valid ground and its targets fit. A frightened
    /// ghost has no target, every other ghost has one, and a ghost on its
    /// way home steers for its start tile.
    pub open spec fn wf(self) -> bool {
        &&& self.actor.wf()
        &&& self.scatter_target.portable()
        &&& match self.target {
            Some(t) => t.portable(),
            None => true,
        }
        &&& match self.state {
            GhostState::Normal => self.target.is_some(),
            GhostState::Frightened => self.target.is_none(),
            GhostState::Respawning => self.target == Some(self.actor.start),
        }
    }

    /// Whether the ghost takes part in the hunt: it is neither frightened
    /// nor on its way home nor in the house.
    pub open spec fn spec_is_active(self) -> bool {
        self.state == GhostState::Normal && !self.in_house
    }

    /// A ghost as it enters the maze on `location`.
    pub fn spawn(personality: Personality, location: GridLocation) -> (r: GhostAgent)
        requires
            location.inside(),
        ensures
            r.wf(),
            r.actor.roomy(),
            r.personality == personality,
            r.actor == Actor::spec_moving_left(location, NORMAL_SPEED),
            r.target == Some(no_target_yet()),
            r.scatter_target == personality.spec_scatter(),
            r.state == GhostState::Normal,
            !r.in_house,
    {
        GhostAgent {
            personality,
            actor: Actor::moving_left(location, NORMAL_SPEED),
            target: Some(GridLocation { x: 0, y: 0 }),
            scatter_target: personality.scatter(),
            state: GhostState::Normal,
            in_house: false,
        }
    }

    /// Whether the ghost takes part in the hunt.
    pub fn is_active(&self) -> (r: bool)
        ensures
            r == self.spec_is_active(),
    {
        self.state == GhostState::Normal && !self.in_house
    }

    /// Whether the ghost is well formed.
    pub fn is_valid(&self) -> (r: bool)
        ensures
            r == self.wf(),
    {
        let fits_target = match self.target {
            Some(t) => portable(&t),
            None => true,
        };
        let target_matches = match self.state {
            GhostState::Normal => self.target.is_some(),
            GhostState::Frightened => self.target.is_none(),
            GhostState::Respawning => match self.target {
                Some(t) => t == self.actor.start,
                None => false,
            },
        };
        self.actor.is_valid() && portable(&self.scatter_target) && fits_target && target_matches
    }

    /// What the player gets for eating the ghost, if it can be eaten.
    pub fn food_points(&self) -> (r: Option<u32>)
        ensures
            r == if self.state == GhostState::Frightened {
                Some(FRIGHTENED_POINTS)
            } else {
                None
            },
    {
        if self.state == GhostState::Frightened {
            Some(FRIGHTENED_POINTS)
        } else {
            None
        }
    }

    /// The ghost after target selection: an active ghost steers for what
    /// its personality picks in the given mode; any other ghost keeps its
    /// target.
    pub open spec fn spec_select_target(self, mode: Mode, world: Snapshot) -> GhostAgent {
        if self.spec_is_active() {
            GhostAgent {
                target: Some(
                    spec_target_for(
                        self.personality,
                        mode,
                        self.actor.location,
                        self.scatter_target,
                        world,
                    ),
                ),
                ..self
            }
        } else {
            self
        }
    }

    /// Picks the ghost's target for the given mode and says whether the
    /// target changed.
    pub fn select_target(&mut self, mode: Mode, world: &Snapshot) -> (changed: bool)
        requires
            old(self).wf(),
            world.in_range(),
            mode == Mode::Chase ==> world.serves(old(self).personality),
        ensures
            *final(self) == old(self).spec_select_target(mode, *world),
            changed == (final(self).target != old(self).target),
            final(self).wf(),
    {
        if !self.is_active() {
            return false;
        }
        let new_target = target_for(
            self.personality,
            mode,
            self.actor.location,
            self.scatter_target,
            world,
        );
        match self.target {
            Some(t) => {
                if t == new_target {
                    return false;
                }
            },
            None => {},
        }
        self.target = Some(new_target);
        true
    }

    /// The ghost after an energizer was eaten: an active ghost becomes
    /// frightened, slows down and forgets its target.
    pub open spec fn spec_become_frightened(self) -> GhostAgent {
        if self.spec_is_active() {
            GhostAgent {
                state: GhostState::Frightened,
                target: None,
                actor: Actor { speed: FRIGHTENED_SPEED, ..self.actor },
                ..self
            }
        } else {
            self
        }
    }

    /// Frightens the ghost, if it takes part in the hunt.
    pub fn become_frightened(&mut self)
        requires
            old(self).wf(),
        ensures
            *final(self) == old(self).spec_become_frightened(),
            final(self).wf(),
    {
        if self.is_active() {
            self.state = GhostState::Frightened;
            self.target = None;
            self.actor.speed = FRIGHTENED_SPEED;
        }
    }

    /// The ghost after the frightened spell ended: a frightened ghost
    /// hunts again, at its usual speed, with no target picked yet.
    pub open spec fn spec_stop_frightened(self) -> GhostAgent {
        if self.state == GhostState::Frightened {
            GhostAgent {
                state: GhostState::Normal,
                target: Some(no_target_yet()),
                actor: Actor { speed: NORMAL_SPEED, ..self.actor },
                ..self
            }
        } else {
            self
        }
    }

    /// Ends the ghost's fright, if it is frightened.
    pub fn stop_frightened(&mut self)
        requires
            old(self).wf(),
        ensures
            *final(self) == old(self).spec_stop_frightened(),
            final(self).wf(),
    {
        if self.state == GhostState::Frightened {
            self.state = GhostState::Normal;
            self.target = Some(GridLocation { x: 0, y: 0 });
            self.actor.speed = NORMAL_SPEED;
        }
    }

    /// Whether `after` is the ghost once it was eaten: it is on its way
    /// home, fast, steering for its start tile, and has turned at once
    /// into the direction that brings it closest to that tile; turning
    /// back is allowed. Where every neighbour is a wall it keeps its
    /// direction.
    pub open spec fn starts_respawning(self, layout: Layout, after: GhostAgent) -> bool {
        &&& after == (GhostAgent {
            state: GhostState::Respawning,
            target: Some(self.actor.start),
            actor: Actor { speed: RESPAWNING_SPEED, dir: after.actor.dir, ..self.actor },
            ..self
        })
        &&& if none_among(layout, self.actor.location, None, 4) {
            after.actor.dir == self.actor.dir
        } else {
            is_closest(layout, self.actor.location, self.actor.start, None, after.actor.dir)
        }
    }

    /// Sends the eaten ghost home.
    pub fn start_respawning_eaten_ghost(&mut self, layout: &Layout)
        requires
            old(self).wf(),
        ensures
            old(self).starts_respawning(*layout, *final(self)),
            final(self).wf(),
    {
        let target = self.actor.start;
        self.state = GhostState::Respawning;
        self.target = Some(target);
        self.actor.speed = RESPAWNING_SPEED;
        match closest_dir_to_target(layout, self.actor.location, target, None) {
            Some(dir) => {
                self.actor.dir = dir;
            },
            None => {},
        }
    }

    /// Whether a ghost on its way home has reached its start tile.
    pub open spec fn is_home(self) -> bool {
        self.state == GhostState::Respawning && self.actor.location == self.actor.start
    }

    /// The ghost after it was checked for being home: a ghost that was on
    /// its way home and stands on its start tile hunts again, at its
    /// usual speed.
    pub open spec fn spec_finish_respawning(self) -> GhostAgent {
        if self.is_home() {
            GhostAgent {
                state: GhostState::Normal,
                actor: Actor { speed: NORMAL_SPEED, ..self.actor },
                ..self
            }
        } else {
            self
        }
    }

    /// Ends the way home of a ghost that has arrived on its start tile,
    /// and says whether it did.
    pub fn finish_respawning_eaten_ghost(&mut self) -> (finished: bool)
        requires
            old(self).wf(),
        ensures
            *final(self) == old(self).spec_finish_respawning(),
            finished == old(self).is_home(),
            final(self).wf(),
    {
        if self.state == GhostState::Respawning && self.actor.location == self.actor.start {
            self.state = GhostState::Normal;
            self.actor.speed = NORMAL_SPEED;
            true
        } else {
            false
        }
    }

    /// Whether `after` is the ghost once it has chosen, on arrival on a
    /// tile, the direction to take one tile further on. A frightened ghost
    /// wanders from a direction proposed by chance; a ghost with a target
    /// takes the greedy choice. A ghost that finds no way on keeps its
    /// pending direction. Nothing else changes.
    pub open spec fn chooses_direction(self, layout: Layout, after: GhostAgent) -> bool {
        &&& after == (GhostAgent {
            actor: Actor { next_dir: after.actor.next_dir, ..self.actor },
            ..self
        })
        &&& match (self.state, self.target) {
            (GhostState::Frightened, _) => exists|first_choice: Dir|
                after.actor.next_dir == wanders(
                    layout,
                    self.actor.dir,
                    self.actor.next_dir,
                    self.actor.location,
                    first_choice,
                ),
            (_, Some(target)) => chooses(
                layout,
                self.actor.dir,
                self.actor.next_dir,
                self.actor.location,
                target,
                after.actor.next_dir,
            ),
            (_, None) => after.actor.next_dir == self.actor.next_dir,
        }
    }

    /// Chooses the ghost's pending direction; to be called when the ghost
    /// has arrived on a tile.
    pub fn choose_direction(&mut self, layout: &Layout)
        requires
            old(self).wf(),
        ensures
            old(self).chooses_direction(*layout, *final(self)),
            final(self).wf(),
    {
        match self.state {
            GhostState::Frightened => {
                self.actor.next_dir = frightened(
                    layout,
                    self.actor.dir,
                    self.actor.next_dir,
                    self.actor.location,
                );
            },
            _ => {
                match self.target {
                    Some(target) => {
                        self.actor.next_dir = choose_next_dir(
                            layout,
                            self.actor.dir,
                            self.actor.next_dir,
                            self.actor.location,
                            target,
                        );
                    },
                    None => {},
                }
            },
        }
    }
}

/// Whether both coordinates of `loc` fit every platform's `isize`.
fn portable(loc: &GridLocation) -> (r: bool)
    ensures
        r == loc.portable(),
{
    -2_147_483_648 <= loc.x && loc.x <= 2_147_483_647 && -2_147_483_648 <= loc.y && loc.y
        <= 2_147_483_647
}

} // verus!
