//! The whole game state and its tick.
//!
//! A tick runs its stages in a fixed order: the mode controller's timers;
//! the events that follow from them and from what the player touches; the
//! ghosts' targets; the direction choice of the ghosts that have just
//! arrived on a tile; the motion of everyone; the tunnel.

use vstd::prelude::*;
use crate::food::{
    add_score, any_energizer, capped, destroy, eat, eat_energizer, eaten, left_over, points_of, Food,
};
use crate::ghost::{GhostAgent, FRIGHTENED_POINTS};
use crate::layout::Layout;
use crate::layout::TILE_COUNT;
use crate::level::{
    create_level, fault, foods_of, ghosts_of, plan, player_start, spawn_level_entities, Level,
    LevelError,
};
use crate::mode::{FrightenedMode, Mode, ModeChange, ModeController, ModeControllerView};
use crate::movement::Actor;
use crate::player::{
    die_when_touching_ghost, lose_life_when_dying, player_controls, set_speed,
    spec_player_controls, touches_ghost, Keys, Lives, PLAYER_SPEED, PLAYER_SPEED_FRIGHTENED,
};
use crate::score::{update_high_score, HighScore, Score};
use crate::stages::{
    actor_moved, all_roomy, all_wf, calm_all, calmed_all, capture_ghosts, captured, caught_among,
    choose_directions, directions_chosen, frighten_all, frightened_all, move_actor, move_ghosts,
    check_sees_blinky, lemma_same_cast_sees_blinky, moved_all, restart_all, restarted_all,
    same_cast, sees_blinky, select_targets, snapshot,
    spec_snapshot, targets_selected, wrap_all, wrapped_all,
};

verus! {

/// What a `Simulation` holds.
pub struct SimulationView {
    pub layout: Layout,
    pub modes: ModeControllerView,
    pub player: Actor,
    pub ghosts: Seq<GhostAgent>,
    pub foods: Seq<Food>,
    pub score: Score,
    pub high_score: HighScore,
    pub lives: Lives,
}

/// The state of a game.
pub struct Simulation {
    /// The maze.
    pub layout: Layout,
    /// The mode controller.
    pub modes: ModeController,
    /// The player.
    pub player: Actor,
    /// The ghosts.
    pub ghosts: Vec<GhostAgent>,
    /// The dots and energizers that are left.
    pub foods: Vec<Food>,
    /// The points of this game.
    pub score: Score,
    /// The most points of any game.
    pub high_score: HighScore,
    /// The lives that the player has left.
    pub lives: Lives,
}

/// What happened in one tick.
#[derive(Copy, Clone, Debug, PartialEq, Eq, Structural)]
pub struct StepReport {
    /// The schedule entered its next phase.
    pub mode_changed: bool,
    /// An energizer was eaten, and a frightened spell began or began anew.
    pub frightened_started: bool,
    /// The frightened spell ran out.
    pub frightened_ended: bool,
    /// The points that the player made.
    pub points: u32,
    /// How many ghosts the player ate.
    pub ghosts_eaten: usize,
    /// The player ran into a ghost and lost a life.
    pub player_died: bool,
}

/// The ghosts between the steps of the event stage.
pub struct EventTrace {
    /// After the end of a spell was applied.
    pub calmed: Seq<GhostAgent>,
    /// After the player ate the ghosts it caught.
    pub eaten: Seq<GhostAgent>,
    /// After an eaten energizer was applied.
    pub scared: Seq<GhostAgent>,
}

/// The states between the stages of a tick.
pub struct StepTrace {
    /// The ghosts between the steps of the event stage.
    pub events: EventTrace,
    /// The state after the event stage.
    pub after_events: SimulationView,
    /// The ghosts after target selection.
    pub targeted: Seq<GhostAgent>,
    /// The ghosts after the direction choice.
    pub directed: Seq<GhostAgent>,
    /// The ghosts after the motion stage.
    pub moved: Seq<GhostAgent>,
}

/// The player's speed for the given state of the frightened spell.
pub open spec fn speed_for(mode: FrightenedMode) -> u32 {
    match mode {
        FrightenedMode::Enabled => PLAYER_SPEED_FRIGHTENED,
        FrightenedMode::Disabled => PLAYER_SPEED,
    }
}

/// The lives that are left of `lives` after one death.
pub open spec fn one_less(lives: Lives) -> Lives {
    if lives.0 == 0 {
        lives
    } else {
        Lives((lives.0 - 1) as usize)
    }
}

/// The higher of the high score and the score.
pub open spec fn raised(high_score: HighScore, score: Score) -> HighScore {
    if score.0 > high_score.0 {
        HighScore(score.0)
    } else {
        high_score
    }
}

impl View for Simulation {
    type V = SimulationView;

    open spec fn view(&self) -> SimulationView {
        SimulationView {
            layout: self.layout,
            modes: self.modes@,
            player: self.player,
            ghosts: self.ghosts@,
            foods: self.foods@,
            score: self.score,
            high_score: self.high_score,
            lives: self.lives,
        }
    }
}

impl SimulationView {
    /// The mode controller and everyone who moves are well formed.
    pub open spec fn wf(self) -> bool {
        &&& self.modes.wf()
        &&& self.player.wf()
        &&& all_wf(self.ghosts)
    }

    /// Everyone is in the band that the tunnel joins.
    pub open spec fn in_band(self) -> bool {
        &&& self.player.in_band()
        &&& forall|i: int| 0 <= i < self.ghosts.len() ==> (#[trigger] self.ghosts[i]).actor.in_band()
    }

    /// The state is well formed, and everyone has room to move.
    pub open spec fn ready(self) -> bool {
        &&& self.modes.wf()
        &&& self.player.roomy()
        &&& all_roomy(self.ghosts)
    }

    /// Whether the ghosts find what they aim by in a tick of `delta`
    /// nanoseconds: if the tick selects targets in chase mode, then where
    /// there is an Inky there is a Blinky.
    pub open spec fn can_aim(self, delta: u64) -> bool {
        self.modes.tick(delta as nat).mode == Mode::Chase ==> sees_blinky(self.ghosts)
    }

    /// Whether `after` and `report` are the outcome of the event stage,
    /// given what the timers changed and which keys are held, with the
    /// ghosts passing through `trace`. In this order: the player's wish
    /// follows the keys; if the spell ran out, the frightened ghosts hunt
    /// again; the player eats the food on its tile and the frightened
    /// ghosts on its tile, which go home, and scores for both; an eaten
    /// energizer starts the spell and frightens the hunting ghosts; the
    /// player's speed follows the spell; and if a hunting ghost stands on
    /// the player's tile the player loses a life, and everyone goes back
    /// to the start.
    pub open spec fn events_via(
        self,
        change: ModeChange,
        keys: Keys,
        trace: EventTrace,
        after: SimulationView,
        report: StepReport,
    ) -> bool {
        let here = self.player.location;
        let bites = eaten(here, self.foods, self.foods.len() as int);
        let energizer = any_energizer(self.foods, bites, bites.len() as int);
        let food_points = capped(points_of(self.foods, bites, bites.len() as int));
        let caught = caught_among(trace.calmed, here, trace.calmed.len() as int);
        let ghost_points = capped(caught * FRIGHTENED_POINTS);
        let died = touches_ghost(here, trace.scared, trace.scared.len() as int);
        let steered = Actor {
            next_dir: spec_player_controls(self.player.next_dir, keys),
            speed: speed_for(after.modes.frightened),
            ..self.player
        };
        &&& if change.frightened_ended {
            calmed_all(self.ghosts, trace.calmed)
        } else {
            trace.calmed == self.ghosts
        }
        &&& captured(trace.calmed, self.layout, here, trace.eaten)
        &&& if energizer {
            frightened_all(trace.eaten, trace.scared)
        } else {
            trace.scared == trace.eaten
        }
        &&& if died {
            restarted_all(trace.scared, after.ghosts)
        } else {
            after.ghosts == trace.scared
        }
        &&& after.modes == if energizer {
            self.modes.eat_energizer()
        } else {
            self.modes
        }
        &&& after.player == if died {
            Actor::spec_moving_left(steered.start, steered.speed)
        } else {
            steered
        }
        &&& after.foods == left_over(here, self.foods, self.foods.len() as int)
        &&& after.score == self.score.spec_add(food_points as u32).spec_add(ghost_points as u32)
        &&& after.high_score == raised(self.high_score, after.score)
        &&& after.lives == if died {
            one_less(self.lives)
        } else {
            self.lives
        }
        &&& after.layout == self.layout
        &&& report == (StepReport {
            mode_changed: change.mode_changed,
            frightened_started: energizer,
            frightened_ended: change.frightened_ended,
            points: capped(food_points + ghost_points) as u32,
            ghosts_eaten: caught as usize,
            player_died: died,
        })
    }
}

impl SimulationView {
    /// What the timers of the mode controller changed in a tick of `delta`
    /// nanoseconds.
    pub open spec fn timers_change(self, delta: u64) -> ModeChange {
        ModeChange {
            mode_changed: self.modes.tick(delta as nat).mode_timer.index
                != self.modes.mode_timer.index,
            frightened_ended: self.modes.frightened == FrightenedMode::Enabled && self.modes.tick(
                delta as nat,
            ).frightened == FrightenedMode::Disabled,
        }
    }

    /// Whether `after` and `report` are the outcome of a tick of `delta`
    /// nanoseconds with the keys `keys` held, passing through `trace`. The
    /// stages, in their order: the timers of the mode controller advance;
    /// the events are applied; every ghost selects its target, all from the
    /// same view of the world; the ghosts that have just arrived on a tile
    /// choose their pending direction; the player and the ghosts move; and
    /// all are brought into the band that the tunnel joins.
    pub open spec fn steps_via(
        self,
        delta: u64,
        keys: Keys,
        trace: StepTrace,
        after: SimulationView,
        report: StepReport,
    ) -> bool {
        let ticked = SimulationView { modes: self.modes.tick(delta as nat), ..self };
        let mid = trace.after_events;
        &&& ticked.events_via(self.timers_change(delta), keys, trace.events, mid, report)
        &&& targets_selected(
            mid.ghosts,
            mid.modes.mode,
            spec_snapshot(mid.player, mid.ghosts),
            trace.targeted,
        )
        &&& directions_chosen(trace.targeted, self.layout, trace.directed)
        &&& moved_all(trace.directed, self.layout, delta, trace.moved)
        &&& wrapped_all(trace.moved, after.ghosts)
        &&& after.player == actor_moved(mid.player, self.layout, delta).spec_wrap_left_right()
        &&& after.modes == mid.modes
        &&& after.foods == mid.foods
        &&& after.score == mid.score
        &&& after.high_score == mid.high_score
        &&& after.lives == mid.lives
        &&& after.layout == self.layout
    }

    /// Whether `after` and `report` are an outcome of a tick of `delta`
    /// nanoseconds with the keys `keys` held.
    pub open spec fn steps_to(
        self,
        delta: u64,
        keys: Keys,
        after: SimulationView,
        report: StepReport,
    ) -> bool {
        exists|trace: StepTrace| self.steps_via(delta, keys, trace, after, report)
    }
}

impl Simulation {
    /// A game at its start, on the given maze with the given level.
    pub fn new(layout: Layout, level: Level) -> (r: Simulation)
        requires
            level.player.roomy(),
            all_roomy(level.ghosts@),
        ensures
            r@.ready(),
            r@.modes.is_initial(),
            r@.layout == layout,
            r@.player == level.player,
            r@.ghosts == level.ghosts@,
            r@.foods == level.foods@,
            r@.score == Score(0),
            r@.high_score == HighScore(0),
            r@.lives == Lives(crate::player::START_LIVES),
    {
        Simulation {
            layout,
            modes: ModeController::new(),
            player: level.player,
            ghosts: level.ghosts,
            foods: level.foods,
            score: Score(0),
            high_score: HighScore(0),
            lives: Lives::new(),
        }
    }

    /// A game at its start on the given maze: the maze's tiles say who
    /// starts where and what there is to eat. A maze that cannot be played
    /// is refused.
    pub fn from_layout(layout: Layout) -> (r: Result<Simulation, LevelError>)
        ensures
            match r {
                Ok(sim) => {
                    &&& fault(plan(layout, TILE_COUNT as int)).is_none()
                    &&& sim@.ready()
                    &&& sees_blinky(sim@.ghosts)
                    &&& sim@.modes.is_initial()
                    &&& sim@.layout == layout
                    &&& Some(sim@.player.location) == player_start(
                        plan(layout, TILE_COUNT as int),
                        plan(layout, TILE_COUNT as int).len() as int,
                    )
                    &&& sim@.player == Actor::spec_moving_left(sim@.player.location, PLAYER_SPEED)
                    &&& sim@.ghosts == ghosts_of(
                        plan(layout, TILE_COUNT as int),
                        plan(layout, TILE_COUNT as int).len() as int,
                    )
                    &&& sim@.foods == foods_of(
                        plan(layout, TILE_COUNT as int),
                        plan(layout, TILE_COUNT as int).len() as int,
                    )
                    &&& sim@.score == Score(0)
                    &&& sim@.high_score == HighScore(0)
                    &&& sim@.lives == Lives(crate::player::START_LIVES)
                },
                Err(e) => fault(plan(layout, TILE_COUNT as int)) == Some(e),
            },
    {
        let spawns = spawn_level_entities(&layout);
        match create_level(&spawns) {
            Ok(level) => Ok(Simulation::new(layout, level)),
            Err(e) => Err(e),
        }
    }

    /// Whether the state is well formed and everyone has room to move, so
    /// that a tick can be taken.
    pub fn is_ready(&self) -> (r: bool)
        ensures
            r == self@.ready(),
    {
        proof {
            use_type_invariant(&self.modes);
        }
        if !self.player.is_roomy() {
            return false;
        }
        let mut i: usize = 0;
        while i < self.ghosts.len()
            invariant
                i <= self.ghosts@.len(),
                forall|k: int|
                    0 <= k < i ==> (#[trigger] self.ghosts@[k]).wf() && self.ghosts@[k].actor.roomy(),
            decreases self.ghosts@.len() - i,
        {
            if !(self.ghosts[i].is_valid() && self.ghosts[i].actor.is_roomy()) {
                return false;
            }
            i += 1;
        }
        true
    }

    /// Whether the ghosts find in one another what they aim by in chase
    /// mode: where there is an Inky there is a Blinky.
    pub fn sees_blinky(&self) -> (r: bool)
        ensures
            r == sees_blinky(self@.ghosts),
    {
        check_sees_blinky(&self.ghosts)
    }

    /// Applies the events of a tick: what the timers changed, what the
    /// player wants, eats and catches, and whether it dies.
    pub fn apply_events(&mut self, change: ModeChange, keys: &Keys) -> (report: StepReport)
        requires
            old(self)@.ready(),
        ensures
            exists|trace: EventTrace|
                old(self)@.events_via(change, *keys, trace, final(self)@, report),
            same_cast(old(self)@.ghosts, final(self)@.ghosts),
            final(self)@.ready(),
    {
        let here = self.player.location;
        self.player.next_dir = player_controls(self.player.next_dir, keys);
        if change.frightened_ended {
            calm_all(&mut self.ghosts);
        }
        let ghost calmed = self.ghosts@;
        let bites = eat(here, &self.foods);
        let food_points = add_score(&self.foods, &bites);
        let energizer = eat_energizer(&self.foods, &bites);
        destroy(here, &mut self.foods);
        let caught = capture_ghosts(&mut self.ghosts, &self.layout, here);
        let ghost eaten_ghosts = self.ghosts@;
        let worth: u128 = (caught as u128) * (FRIGHTENED_POINTS as u128);
        let ghost_points: u32 = if worth > u32::MAX as u128 {
            u32::MAX
        } else {
            worth as u32
        };
        self.score.add_assign(food_points);
        self.score.add_assign(ghost_points);
        update_high_score(&self.score, &mut self.high_score);
        if energizer {
            self.modes.eat_energizer();
            frighten_all(&mut self.ghosts);
        }
        let ghost scared = self.ghosts@;
        self.player.speed = set_speed(self.modes.frightened());
        let died = die_when_touching_ghost(here, &self.ghosts);
        if died {
            lose_life_when_dying(1, &mut self.lives);
            self.player.restart();
            restart_all(&mut self.ghosts);
        }
        let sum: u64 = food_points as u64 + ghost_points as u64;
        let report = StepReport {
            mode_changed: change.mode_changed,
            frightened_started: energizer,
            frightened_ended: change.frightened_ended,
            points: if sum > u32::MAX as u64 {
                u32::MAX
            } else {
                sum as u32
            },
            ghosts_eaten: caught,
            player_died: died,
        };
        proof {
            let trace = EventTrace { calmed, eaten: eaten_ghosts, scared };
            assert(old(self)@.events_via(change, *keys, trace, self@, report));
        }
        report
    }

    /// Takes one tick of `delta` nanoseconds with the keys `keys` held.
    pub fn step(&mut self, delta: u64, keys: &Keys) -> (report: StepReport)
        requires
            old(self)@.ready(),
            old(self)@.can_aim(delta),
        ensures
            old(self)@.steps_to(delta, *keys, final(self)@, report),
            final(self)@.wf(),
            final(self)@.in_band(),
            same_cast(old(self)@.ghosts, final(self)@.ghosts),
    {
        let ghost before = self@;
        let change = self.modes.tick(delta);
        let ghost ticked = self@;
        let report = self.apply_events(change, keys);
        let ghost mid = self@;
        let ghost events = choose|trace: EventTrace|
            ticked.events_via(change, *keys, trace, mid, report);
        let world = snapshot(&self.player, &self.ghosts);
        let mode = self.modes.mode();
        proof {
            if mode == Mode::Chase {
                lemma_same_cast_sees_blinky(before.ghosts, mid.ghosts);
            }
        }
        select_targets(&mut self.ghosts, mode, &world);
        let ghost targeted = self.ghosts@;
        choose_directions(&mut self.ghosts, &self.layout);
        let ghost directed = self.ghosts@;
        move_actor(&mut self.player, &self.layout, delta);
        move_ghosts(&mut self.ghosts, &self.layout, delta);
        let ghost moved = self.ghosts@;
        self.player.wrap_left_right();
        wrap_all(&mut self.ghosts);
        proof {
            let trace = StepTrace { events, after_events: mid, targeted, directed, moved };
            assert(before.steps_via(delta, *keys, trace, self@, report));
        }
        report
    }
}

} // verus!
