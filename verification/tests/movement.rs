use ghost_maze::grid::{Dir, GridLocation};
use ghost_maze::layout::{Layout, Tile};
use ghost_maze::movement::{Actor, MotionState, BASE_SPEED, TILE_UNITS};

fn loc(x: isize, y: isize) -> GridLocation {
    GridLocation { x, y }
}

fn resting(location: GridLocation, dir: Dir) -> Actor {
    Actor {
        location,
        dir,
        next_dir: None,
        motion: None,
        speed: BASE_SPEED,
        start: location,
        arrived: false,
    }
}

fn gliding(location: GridLocation, dir: Dir, progress: u64) -> Actor {
    Actor {
        motion: Some(MotionState { destination: location.shift(dir), progress }),
        ..resting(location, dir)
    }
}

#[test]
fn moving_left_starts_a_life() {
    let actor = Actor::moving_left(loc(13, 9), 66_000);
    assert_eq!(actor.location, loc(13, 9));
    assert_eq!(actor.dir, Dir::Left);
    assert_eq!(actor.next_dir, None);
    assert_eq!(actor.motion, Some(MotionState { destination: loc(12, 9), progress: 0 }));
    assert_eq!(actor.speed, 66_000);
    assert_eq!(actor.start, loc(13, 9));
    assert!(actor.arrived);
    assert!(actor.is_valid());
    assert!(actor.is_roomy());
}

#[test]
fn restart_goes_back_to_the_start() {
    let mut actor = gliding(loc(3, 3), Dir::Up, 17);
    actor.start = loc(13, 9);
    actor.next_dir = Some(Dir::Down);
    actor.speed = 44_000;
    actor.restart();
    assert_eq!(actor, Actor::moving_left(loc(13, 9), 44_000));
}

#[test]
fn progress_is_speed_times_time() {
    let mut actor = gliding(loc(5, 5), Dir::Right, 0);
    // 88 pixels per second for a sixtieth of a second.
    let arrived = actor.move_to(16_666_667);
    assert!(!arrived);
    assert!(!actor.arrived);
    assert_eq!(actor.location, loc(5, 5));
    assert_eq!(
        actor.motion,
        Some(MotionState { destination: loc(6, 5), progress: 88_000 * 16_666_667 })
    );
}

#[test]
fn arrival_snaps_to_the_destination() {
    // A tile is 8 pixels: at 88 pixels per second that takes a little
    // under 91 milliseconds.
    let mut actor = gliding(loc(5, 5), Dir::Right, 0);
    assert!(!actor.move_to(90_000_000));
    let arrived = actor.move_to(1_000_000);
    assert!(arrived);
    assert!(actor.arrived);
    assert_eq!(actor.location, loc(6, 5));
    assert_eq!(actor.motion, None);
}

#[test]
fn arrival_at_exactly_full_progress() {
    let mut actor = gliding(loc(5, 5), Dir::Up, TILE_UNITS - 88_000);
    assert!(actor.move_to(1));
    assert_eq!(actor.location, loc(5, 6));

    let mut actor = gliding(loc(5, 5), Dir::Up, TILE_UNITS - 88_001);
    assert!(!actor.move_to(1));
    assert_eq!(actor.location, loc(5, 5));
    assert_eq!(actor.motion.map(|m| m.progress), Some(TILE_UNITS - 1));
}

#[test]
fn a_very_long_tick_still_arrives() {
    let mut actor = gliding(loc(5, 5), Dir::Left, 0);
    actor.speed = u32::MAX;
    assert!(actor.move_to(u64::MAX));
    assert_eq!(actor.location, loc(4, 5));
}

#[test]
fn resting_actor_does_not_arrive() {
    let mut actor = resting(loc(5, 5), Dir::Left);
    actor.arrived = true;
    assert!(!actor.move_to(1_000_000_000));
    assert!(!actor.arrived);
    assert_eq!(actor.location, loc(5, 5));
}

#[test]
fn standing_still_at_speed_zero() {
    let mut actor = gliding(loc(5, 5), Dir::Left, 7);
    actor.speed = 0;
    assert!(!actor.move_to(u64::MAX));
    assert_eq!(actor.motion.map(|m| m.progress), Some(7));
}

#[test]
fn move_dir_sets_off_unless_walled() {
    let layout = Layout::new().with_tile(&loc(6, 5), Some(Tile::Wall));
    let mut actor = resting(loc(5, 5), Dir::Right);
    actor.move_dir(&layout);
    assert_eq!(actor.motion, None);

    let mut actor = resting(loc(5, 5), Dir::Up);
    actor.move_dir(&layout);
    assert_eq!(actor.motion, Some(MotionState { destination: loc(5, 6), progress: 0 }));

    // An actor under way keeps its way.
    let mut actor = gliding(loc(5, 5), Dir::Down, 99);
    actor.dir = Dir::Up;
    actor.move_dir(&layout);
    assert_eq!(actor.motion, Some(MotionState { destination: loc(5, 4), progress: 99 }));
}

#[test]
fn doors_do_not_stop_an_actor() {
    let layout = Layout::new().with_tile(&loc(6, 5), Some(Tile::Door));
    let mut actor = resting(loc(5, 5), Dir::Right);
    actor.move_dir(&layout);
    assert_eq!(actor.motion, Some(MotionState { destination: loc(6, 5), progress: 0 }));
}

#[test]
fn change_to_next_dir_at_rest_only() {
    let layout = Layout::new().with_tile(&loc(5, 6), Some(Tile::Wall));
    let mut actor = resting(loc(5, 5), Dir::Right);
    actor.next_dir = Some(Dir::Down);
    actor.change_to_next_dir(&layout);
    assert_eq!(actor.dir, Dir::Down);
    assert_eq!(actor.next_dir, Some(Dir::Down));

    // A wall in the pending direction: the actor keeps its direction.
    let mut actor = resting(loc(5, 5), Dir::Right);
    actor.next_dir = Some(Dir::Up);
    actor.change_to_next_dir(&layout);
    assert_eq!(actor.dir, Dir::Right);

    // Between tiles nothing changes.
    let mut actor = gliding(loc(5, 5), Dir::Right, 5);
    actor.next_dir = Some(Dir::Down);
    actor.change_to_next_dir(&layout);
    assert_eq!(actor.dir, Dir::Right);

    // Nothing pending.
    let mut actor = resting(loc(5, 5), Dir::Right);
    actor.change_to_next_dir(&layout);
    assert_eq!(actor.dir, Dir::Right);
}

#[test]
fn wrap_left_to_right() {
    // Leaving tile -2 to the left: the actor comes back in on the right,
    // 32 tiles further, in the same row and as far along its way.
    let mut actor = gliding(loc(-2, 17), Dir::Left, 1_000);
    actor.wrap_left_right();
    assert_eq!(actor.location, loc(30, 17));
    assert_eq!(actor.motion, Some(MotionState { destination: loc(29, 17), progress: 1_000 }));
    assert_eq!(actor.dir, Dir::Left);
    // A second wrap changes nothing.
    let once = actor;
    actor.wrap_left_right();
    assert_eq!(actor, once);
}

#[test]
fn wrap_right_to_left() {
    let mut actor = resting(loc(30, 17), Dir::Right);
    actor.wrap_left_right();
    assert_eq!(actor.location, loc(-2, 17));
    let once = actor;
    actor.wrap_left_right();
    assert_eq!(actor, once);

    let mut actor = gliding(loc(30, 17), Dir::Right, 5);
    actor.wrap_left_right();
    assert_eq!(actor.location, loc(-2, 17));
    assert_eq!(actor.motion, Some(MotionState { destination: loc(-1, 17), progress: 5 }));
}

#[test]
fn wrap_leaves_the_band_alone() {
    for x in -2..30 {
        let mut actor = resting(loc(x, 4), Dir::Left);
        actor.wrap_left_right();
        assert_eq!(actor.location, loc(x, 4));
    }
    // On the way from 29 to 30 the actor is still in the band.
    let mut actor = gliding(loc(29, 4), Dir::Right, TILE_UNITS - 1);
    let before = actor;
    actor.wrap_left_right();
    assert_eq!(actor, before);
    // On the way from -1 to -2 as well.
    let mut actor = gliding(loc(-1, 4), Dir::Left, TILE_UNITS - 1);
    let before = actor;
    actor.wrap_left_right();
    assert_eq!(actor, before);
}

#[test]
fn wrap_moves_by_whole_periods() {
    let mut actor = resting(loc(-70, 9), Dir::Left);
    actor.wrap_left_right();
    assert_eq!(actor.location, loc(26, 9));
    let mut actor = resting(loc(100, -9), Dir::Left);
    actor.wrap_left_right();
    assert_eq!(actor.location, loc(4, -9));
}

#[test]
fn wrap_keeps_vertical_motion() {
    let mut actor = gliding(loc(-5, 9), Dir::Up, 77);
    actor.wrap_left_right();
    assert_eq!(actor.location, loc(27, 9));
    assert_eq!(actor.motion, Some(MotionState { destination: loc(27, 10), progress: 77 }));
}

#[test]
fn validity() {
    assert!(resting(loc(0, 0), Dir::Up).is_valid());
    assert!(resting(loc(500_000_000, 0), Dir::Up).is_valid() == false);
    let mut edge = resting(loc(500_000_000, 0), Dir::Up);
    edge.start = loc(0, 0);
    assert!(edge.is_valid());
    assert!(!edge.is_roomy());
    let mut far = resting(loc(500_000_001, 0), Dir::Up);
    far.start = loc(0, 0);
    assert!(!far.is_valid());
    let mut done = gliding(loc(0, 0), Dir::Up, TILE_UNITS);
    assert!(!done.is_valid());
    done.motion = Some(MotionState { destination: loc(1, 1), progress: 0 });
    assert!(!done.is_valid());
    done.motion = Some(MotionState { destination: loc(0, 2), progress: 0 });
    assert!(!done.is_valid());
    done.motion = Some(MotionState { destination: loc(0, 0), progress: 0 });
    assert!(done.is_valid());
}
