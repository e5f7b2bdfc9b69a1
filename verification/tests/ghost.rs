use ghost_maze::ghost::{
    GhostAgent, GhostState, Personality, Snapshot, FRIGHTENED_POINTS, FRIGHTENED_SPEED,
    NORMAL_SPEED, RESPAWNING_SPEED,
};
use ghost_maze::grid::{Dir, GridLocation};
use ghost_maze::layout::{Layout, Tile};
use ghost_maze::mode::Mode;
use ghost_maze::movement::Actor;

fn loc(x: isize, y: isize) -> GridLocation {
    GridLocation { x, y }
}

fn world() -> Snapshot {
    Snapshot { player: loc(5, 0), player_dir: Dir::Right, blinky: Some(loc(0, 0)) }
}

#[test]
fn spawn_enters_the_maze() {
    let ghost = GhostAgent::spawn(Personality::Pinky, loc(13, 18));
    assert_eq!(ghost.personality, Personality::Pinky);
    assert_eq!(ghost.actor, Actor::moving_left(loc(13, 18), NORMAL_SPEED));
    assert_eq!(ghost.target, Some(loc(0, 0)));
    assert_eq!(ghost.scatter_target, loc(2, 35));
    assert_eq!(ghost.state, GhostState::Normal);
    assert!(!ghost.in_house);
    assert!(ghost.is_active());
    assert!(ghost.is_valid());
    assert_eq!(ghost.food_points(), None);
}

#[test]
fn select_target_reports_changes() {
    let mut ghost = GhostAgent::spawn(Personality::Inky, loc(13, 18));
    assert!(ghost.select_target(Mode::Scatter, &world()));
    assert_eq!(ghost.target, Some(loc(27, 0)));
    assert!(!ghost.select_target(Mode::Scatter, &world()));
    assert_eq!(ghost.target, Some(loc(27, 0)));
    assert!(ghost.select_target(Mode::Chase, &world()));
    assert_eq!(ghost.target, Some(loc(14, 0)));
    assert!(!ghost.select_target(Mode::Chase, &world()));
}

#[test]
fn select_target_skips_ghosts_out_of_the_hunt() {
    let mut ghost = GhostAgent::spawn(Personality::Blinky, loc(13, 18));
    ghost.become_frightened();
    assert!(!ghost.select_target(Mode::Chase, &world()));
    assert_eq!(ghost.target, None);

    let mut ghost = GhostAgent::spawn(Personality::Blinky, loc(13, 18));
    ghost.in_house = true;
    assert!(!ghost.is_active());
    assert!(!ghost.select_target(Mode::Chase, &world()));
    assert_eq!(ghost.target, Some(loc(0, 0)));

    let mut ghost = GhostAgent::spawn(Personality::Blinky, loc(13, 18));
    ghost.start_respawning_eaten_ghost(&Layout::new());
    assert!(!ghost.select_target(Mode::Chase, &world()));
    assert_eq!(ghost.target, Some(loc(13, 18)));
}

#[test]
fn fright_comes_and_goes() {
    let mut ghost = GhostAgent::spawn(Personality::Clyde, loc(13, 18));
    ghost.select_target(Mode::Scatter, &world());
    ghost.become_frightened();
    assert_eq!(ghost.state, GhostState::Frightened);
    assert_eq!(ghost.target, None);
    assert_eq!(ghost.actor.speed, FRIGHTENED_SPEED);
    assert_eq!(ghost.food_points(), Some(FRIGHTENED_POINTS));
    assert_eq!(FRIGHTENED_POINTS, 200);
    assert!(!ghost.is_active());
    assert!(ghost.is_valid());

    ghost.stop_frightened();
    assert_eq!(ghost.state, GhostState::Normal);
    assert_eq!(ghost.target, Some(loc(0, 0)));
    assert_eq!(ghost.actor.speed, NORMAL_SPEED);
    assert_eq!(ghost.food_points(), None);
    assert!(ghost.is_valid());
}

#[test]
fn fright_passes_by_ghosts_out_of_the_hunt() {
    let mut ghost = GhostAgent::spawn(Personality::Clyde, loc(13, 18));
    ghost.start_respawning_eaten_ghost(&Layout::new());
    let before = ghost;
    ghost.become_frightened();
    assert_eq!(ghost, before);
    ghost.stop_frightened();
    assert_eq!(ghost, before);

    let mut ghost = GhostAgent::spawn(Personality::Clyde, loc(13, 18));
    ghost.in_house = true;
    let before = ghost;
    ghost.become_frightened();
    assert_eq!(ghost, before);

    let mut ghost = GhostAgent::spawn(Personality::Clyde, loc(13, 18));
    let before = ghost;
    ghost.stop_frightened();
    assert_eq!(ghost, before);
}

#[test]
fn eaten_ghost_turns_for_home_at_once() {
    let layout = Layout::new();
    let mut ghost = GhostAgent::spawn(Personality::Blinky, loc(13, 18));
    ghost.become_frightened();
    // The ghost is three tiles right of home and heads right: it turns
    // back at once.
    ghost.actor.location = loc(16, 18);
    ghost.actor.dir = Dir::Right;
    ghost.actor.motion = None;
    ghost.start_respawning_eaten_ghost(&layout);
    assert_eq!(ghost.state, GhostState::Respawning);
    assert_eq!(ghost.target, Some(loc(13, 18)));
    assert_eq!(ghost.actor.speed, RESPAWNING_SPEED);
    assert_eq!(ghost.actor.dir, Dir::Left);
    assert_eq!(ghost.food_points(), None);
    assert!(ghost.is_valid());
}

#[test]
fn eaten_ghost_in_a_cell_keeps_its_direction() {
    let layout = Layout::new()
        .with_tile(&loc(16, 19), Some(Tile::Wall))
        .with_tile(&loc(15, 18), Some(Tile::Wall))
        .with_tile(&loc(16, 17), Some(Tile::Wall))
        .with_tile(&loc(17, 18), Some(Tile::Wall));
    let mut ghost = GhostAgent::spawn(Personality::Blinky, loc(13, 18));
    ghost.actor.location = loc(16, 18);
    ghost.actor.dir = Dir::Down;
    ghost.start_respawning_eaten_ghost(&layout);
    assert_eq!(ghost.state, GhostState::Respawning);
    assert_eq!(ghost.actor.dir, Dir::Down);
}

#[test]
fn way_home_ends_on_the_start_tile_only() {
    let layout = Layout::new();
    let mut ghost = GhostAgent::spawn(Personality::Blinky, loc(13, 18));
    ghost.actor.location = loc(14, 18);
    ghost.start_respawning_eaten_ghost(&layout);
    assert!(!ghost.finish_respawning_eaten_ghost());
    assert_eq!(ghost.state, GhostState::Respawning);
    ghost.actor.location = loc(13, 18);
    assert!(ghost.finish_respawning_eaten_ghost());
    assert_eq!(ghost.state, GhostState::Normal);
    assert_eq!(ghost.actor.speed, NORMAL_SPEED);
    assert_eq!(ghost.target, Some(loc(13, 18)));
    // A ghost that is not on its way home is left alone.
    let before = ghost;
    assert!(!ghost.finish_respawning_eaten_ghost());
    assert_eq!(ghost, before);
}

#[test]
fn choose_direction_steers_for_the_target() {
    let layout = Layout::new();
    let mut ghost = GhostAgent::spawn(Personality::Blinky, loc(13, 18));
    ghost.target = Some(loc(12, 30));
    ghost.choose_direction(&layout);
    // Heading left, the ghost decides for the tile (12, 18): up.
    assert_eq!(ghost.actor.next_dir, Some(Dir::Up));
    assert_eq!(ghost.actor.dir, Dir::Left);
}

#[test]
fn choose_direction_of_a_frightened_ghost_wanders() {
    let layout = Layout::new()
        .with_tile(&loc(12, 19), Some(Tile::Wall))
        .with_tile(&loc(12, 17), Some(Tile::Wall));
    let mut ghost = GhostAgent::spawn(Personality::Blinky, loc(13, 18));
    ghost.become_frightened();
    for _ in 0..50 {
        ghost.actor.next_dir = None;
        ghost.choose_direction(&layout);
        // From (12, 18) only the way on to the left is open.
        assert_eq!(ghost.actor.next_dir, Some(Dir::Left));
    }
}

#[test]
fn validity_ties_targets_to_states() {
    let mut ghost = GhostAgent::spawn(Personality::Blinky, loc(13, 18));
    ghost.target = None;
    assert!(!ghost.is_valid());
    ghost.state = GhostState::Frightened;
    assert!(ghost.is_valid());
    ghost.target = Some(loc(1, 1));
    assert!(!ghost.is_valid());
    ghost.state = GhostState::Respawning;
    assert!(!ghost.is_valid());
    ghost.target = Some(loc(13, 18));
    assert!(ghost.is_valid());
}
